use tokimo_translate::generation::{prompt_batch_plan, Generation};

#[test]
fn prompt_plan_asks_logits_only_for_last_token() {
    assert_eq!(prompt_batch_plan(1), vec![(0, true)]);
    assert_eq!(prompt_batch_plan(3), vec![(0, false), (1, false), (2, true)]);
}

#[test]
fn generation_runs_until_end_of_generation() {
    let mut g = Generation::new(3, 128);
    assert_eq!(g.batch_capacity(), 131);
    assert_eq!(g.next_sample(), Some(2));
    assert_eq!(g.on_token(10, false, b"Hello"), Some(3));
    assert_eq!(g.next_sample(), Some(0));
    assert_eq!(g.on_token(11, false, b" world "), Some(4));
    assert_eq!(g.next_sample(), Some(0));
    assert_eq!(g.on_token(2, true, b""), None);
    assert_eq!(g.next_sample(), None);
    let (text, n) = g.finish();
    assert_eq!(text, "Hello world");
    assert_eq!(n, 2);
}

#[test]
fn generation_stops_at_max_tokens() {
    let mut g = Generation::new(1, 2);
    assert_eq!(g.next_sample(), Some(0));
    assert_eq!(g.on_token(5, false, b"a"), Some(1));
    assert_eq!(g.next_sample(), Some(0));
    assert_eq!(g.on_token(6, false, b"b"), Some(2));
    assert_eq!(g.next_sample(), None);
    assert_eq!(g.finish(), ("ab".to_string(), 2));
}

#[test]
fn generation_with_no_room_generates_nothing() {
    let g = Generation::new(4, 0);
    assert_eq!(g.next_sample(), None);
    assert_eq!(g.finish(), (String::new(), 0));
}

#[test]
fn character_split_across_pieces_is_joined() {
    // "中" is E4 B8 AD; its bytes arrive in two pieces.
    let mut g = Generation::new(2, 8);
    assert_eq!(g.on_token(1, false, &[0xE4]), Some(2));
    assert_eq!(g.on_token(2, false, &[0xB8, 0xAD, b'!']), Some(3));
    assert_eq!(g.finish(), ("中!".to_string(), 2));
}

#[test]
fn leading_bom_is_removed_and_bad_bytes_replaced() {
    let mut g = Generation::new(1, 8);
    assert_eq!(g.on_token(1, false, &[0xEF, 0xBB, 0xBF, b'a']), Some(1));
    assert_eq!(g.on_token(2, false, &[0xFF, b'b']), Some(2));
    assert_eq!(g.on_token(3, false, "人工".as_bytes()), Some(3));
    assert_eq!(g.finish(), ("a\u{fffd}b人工".to_string(), 3));
}

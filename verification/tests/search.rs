use std::collections::{HashMap, HashSet};

use tokimo_translate::search::{
    model_folder_name, snapshots_dir, ModelSearch, SearchError, SearchEvent, SearchRequest,
};

/// A recorded environment: variables, existing paths and directory listings.
struct World {
    vars: HashMap<String, String>,
    existing: HashSet<String>,
    dirs: HashMap<String, Vec<String>>,
}

impl World {
    fn new() -> World {
        World { vars: HashMap::new(), existing: HashSet::new(), dirs: HashMap::new() }
    }
}

/// Runs the search against a recorded environment, returning the outcome
/// and the requests made on the way.
fn run(world: &World, repo: &str, filename: &str, var: &str) -> (Result<String, SearchError>, Vec<String>) {
    let (mut search, mut request) = ModelSearch::start(repo, filename, var);
    let mut log = Vec::new();
    loop {
        let event = match request {
            SearchRequest::ReadEnv { name } => {
                log.push(format!("env {name}"));
                SearchEvent::EnvValue(world.vars.get(&name).cloned())
            }
            SearchRequest::CheckExists { path } => {
                log.push(format!("exists {path}"));
                SearchEvent::Exists(world.existing.contains(&path))
            }
            SearchRequest::ListDir { path } => {
                log.push(format!("list {path}"));
                SearchEvent::Entries(match world.dirs.get(&path) {
                    Some(entries) => Ok(entries.iter().map(|e| Ok(e.clone())).collect()),
                    None => Err("Not a directory (os error 20)".to_string()),
                })
            }
            SearchRequest::Found { path } => return (Ok(path), log),
            SearchRequest::Failed { error } => return (Err(error), log),
        };
        request = search.step(event);
    }
}

#[test]
fn test_find_model_missing_returns_err() {
    // Should fail gracefully for a non-existent repo
    let mut world = World::new();
    world.vars.insert("HOME".to_string(), "/home/user".to_string());
    let (r, _) = run(&world, "nonexistent-org/no-model", "no.gguf", "NO_SUCH_ENV_VAR_XYZ");
    assert!(r.is_err(), "missing model should return Err");
    let msg = r.unwrap_err().message();
    assert!(
        msg.contains("huggingface-cli download") || msg.contains("not found"),
        "error should contain download instructions"
    );
}

#[test]
fn test_find_model_env_override() {
    // If env var points to a real file, it should be returned
    let tmp = "/tmp/dummy_model.gguf".to_string();
    let mut world = World::new();
    world.existing.insert(tmp.clone());
    world.vars.insert("TEST_TOKIMO_TRANSLATE_PATH".to_string(), tmp.clone());
    let (r, _) = run(&world, "any/repo", "dummy_model.gguf", "TEST_TOKIMO_TRANSLATE_PATH");
    assert!(r.is_ok());
    assert_eq!(r.unwrap(), tmp);
}

#[test]
fn not_found_message_gives_download_instructions() {
    let world = World::new();
    let (r, log) = run(&world, "tencent/HY-MT1.5-1.8B-GGUF", "HY-MT1.5-1.8B-Q4_K_M.gguf", "HY_MT_1B_PATH");
    assert_eq!(
        r.unwrap_err().message(),
        "Model not found: tencent/HY-MT1.5-1.8B-GGUF/HY-MT1.5-1.8B-Q4_K_M.gguf\n\
         Download with:\n  huggingface-cli download tencent/HY-MT1.5-1.8B-GGUF HY-MT1.5-1.8B-Q4_K_M.gguf\n\
         Or set env var: HY_MT_1B_PATH=/path/to/HY-MT1.5-1.8B-Q4_K_M.gguf"
    );
    assert_eq!(
        log,
        vec![
            "env HF_HOME",
            "env HUGGINGFACE_HUB_CACHE",
            "env HOME",
            "exists /.cache/huggingface/hub/models--tencent--HY-MT1.5-1.8B-GGUF/snapshots",
            "env HY_MT_1B_PATH",
        ]
    );
}

#[test]
fn cache_hit_wins_over_broken_override() {
    let snap = "/hf/hub/models--tencent--HY-MT1.5-7B-GGUF/snapshots";
    let mut world = World::new();
    world.vars.insert("HY_MT_7B_PATH".to_string(), "/models/7b.gguf".to_string());
    world.vars.insert("HF_HOME".to_string(), "/hf".to_string());
    world.existing.insert(snap.to_string());
    world.dirs.insert(snap.to_string(), vec![format!("{snap}/rev")]);
    world.existing.insert(format!("{snap}/rev/m.gguf"));
    let (r, log) = run(&world, "tencent/HY-MT1.5-7B-GGUF", "m.gguf", "HY_MT_7B_PATH");
    assert_eq!(r.unwrap(), format!("{snap}/rev/m.gguf"));
    assert!(!log.contains(&"env HY_MT_7B_PATH".to_string()));
}

#[test]
fn override_pointing_nowhere_is_an_error() {
    let mut world = World::new();
    world.vars.insert("HY_MT_7B_PATH".to_string(), "/models/7b.gguf".to_string());
    world.vars.insert("HF_HOME".to_string(), "/hf".to_string());
    let (r, log) = run(&world, "tencent/HY-MT1.5-7B-GGUF", "m.gguf", "HY_MT_7B_PATH");
    let err = r.unwrap_err();
    assert_eq!(err.message(), "$HY_MT_7B_PATH=/models/7b.gguf — file not found");
    assert_eq!(
        log,
        vec![
            "env HF_HOME",
            "exists /hf/hub/models--tencent--HY-MT1.5-7B-GGUF/snapshots",
            "env HUGGINGFACE_HUB_CACHE",
            "env HOME",
            "exists /.cache/huggingface/hub/models--tencent--HY-MT1.5-7B-GGUF/snapshots",
            "env HY_MT_7B_PATH",
            "exists /models/7b.gguf",
        ]
    );
}

#[test]
fn later_root_searched_when_earlier_lacks_snapshots() {
    let snap = "/home/u/.cache/huggingface/hub/models--org--m/snapshots";
    let mut world = World::new();
    world.vars.insert("HF_HOME".to_string(), "/hf".to_string());
    world.vars.insert("HOME".to_string(), "/home/u".to_string());
    world.existing.insert(snap.to_string());
    world.dirs.insert(snap.to_string(), vec![format!("{snap}/s")]);
    world.existing.insert(format!("{snap}/s/f.gguf"));
    let (r, log) = run(&world, "org/m", "f.gguf", "NO_VAR");
    assert_eq!(r.unwrap(), format!("{snap}/s/f.gguf"));
    assert_eq!(
        log,
        vec![
            "env HF_HOME".to_string(),
            "exists /hf/hub/models--org--m/snapshots".to_string(),
            "env HUGGINGFACE_HUB_CACHE".to_string(),
            "env HOME".to_string(),
            format!("exists {snap}"),
            format!("list {snap}"),
            format!("exists {snap}/s/f.gguf"),
        ]
    );
}

#[test]
fn root_without_hit_falls_through_to_next() {
    let first = "/hf/hub/models--org--m/snapshots";
    let second = "/cache/hub/models--org--m/snapshots";
    let mut world = World::new();
    world.vars.insert("HF_HOME".to_string(), "/hf".to_string());
    world.vars.insert("HUGGINGFACE_HUB_CACHE".to_string(), "/cache".to_string());
    world.existing.insert(first.to_string());
    world.dirs.insert(first.to_string(), vec![format!("{first}/empty")]);
    world.existing.insert(second.to_string());
    world.dirs.insert(second.to_string(), vec![format!("{second}/full")]);
    world.existing.insert(format!("{second}/full/f.gguf"));
    let (r, _) = run(&world, "org/m", "f.gguf", "NO_VAR");
    assert_eq!(r.unwrap(), format!("{second}/full/f.gguf"));
}

#[test]
fn cache_root_order_hf_home_first() {
    let snap = "/hf/hub/models--org--m/snapshots";
    let mut world = World::new();
    world.vars.insert("HF_HOME".to_string(), "/hf".to_string());
    world.vars.insert("HUGGINGFACE_HUB_CACHE".to_string(), "/other".to_string());
    world.existing.insert(snap.to_string());
    world.dirs.insert(snap.to_string(), vec![format!("{snap}/aaa"), format!("{snap}/bbb")]);
    world.existing.insert(format!("{snap}/bbb/f.gguf"));
    let (r, log) = run(&world, "org/m", "f.gguf", "NO_VAR");
    assert_eq!(r.unwrap(), format!("{snap}/bbb/f.gguf"));
    assert_eq!(
        log,
        vec![
            "env HF_HOME".to_string(),
            format!("exists {snap}"),
            format!("list {snap}"),
            format!("exists {snap}/aaa/f.gguf"),
            format!("exists {snap}/bbb/f.gguf"),
        ]
    );
}

#[test]
fn cache_root_from_hub_cache_then_home() {
    let mut world = World::new();
    world.vars.insert("HUGGINGFACE_HUB_CACHE".to_string(), "/cache".to_string());
    let (_, log) = run(&world, "a/b", "x.gguf", "V");
    assert!(log.contains(&"exists /cache/hub/models--a--b/snapshots".to_string()));

    let mut home = World::new();
    home.vars.insert("HOME".to_string(), "/home/u".to_string());
    let (_, log) = run(&home, "a/b", "x.gguf", "V");
    assert_eq!(
        log,
        vec![
            "env HF_HOME",
            "env HUGGINGFACE_HUB_CACHE",
            "env HOME",
            "exists /home/u/.cache/huggingface/hub/models--a--b/snapshots",
            "env V",
        ]
    );
}

#[test]
fn unreadable_snapshots_is_an_io_error() {
    let snap = "/hf/hub/models--a--b/snapshots";
    let mut world = World::new();
    world.vars.insert("HF_HOME".to_string(), "/hf".to_string());
    world.existing.insert(snap.to_string());
    let (r, _) = run(&world, "a/b", "x.gguf", "V");
    assert_eq!(r.unwrap_err().message(), "Not a directory (os error 20)");
}

#[test]
fn unreadable_entry_fails_only_when_reached() {
    let (mut s, _) = ModelSearch::start("a/b", "x.gguf", "V");
    s.step(SearchEvent::EnvValue(Some("/hf".to_string())));
    s.step(SearchEvent::Exists(true));
    let r = s.step(SearchEvent::Entries(Ok(vec![Ok("/hf/s1".to_string()), Err("bad entry".to_string())])));
    assert!(matches!(r, SearchRequest::CheckExists { ref path } if path == "/hf/s1/x.gguf"));
    let r = s.step(SearchEvent::Exists(false));
    assert!(matches!(r, SearchRequest::Failed { error: SearchError::Io { ref message } } if message == "bad entry"));
}

#[test]
fn folder_and_snapshots_paths() {
    assert_eq!(model_folder_name("tencent/HY-MT1.5-7B-GGUF"), "models--tencent--HY-MT1.5-7B-GGUF");
    assert_eq!(model_folder_name("a/b/c"), "models--a--b--c");
    assert_eq!(model_folder_name(""), "models--");
    assert_eq!(snapshots_dir("/root/.cache/huggingface", "o/r"), "/root/.cache/huggingface/hub/models--o--r/snapshots");
    assert_eq!(snapshots_dir("/hf/", "o/r"), "/hf/hub/models--o--r/snapshots");
    assert_eq!(snapshots_dir("", "o/r"), "hub/models--o--r/snapshots");
}

use vstd::prelude::*;
use vstd::utf8::{decode_utf8, valid_utf8};

verus! {

/// The Unicode `White_Space` property (PropList.txt): U+0009..U+000D,
/// U+0020, U+0085, U+00A0, U+1680, U+2000..U+200A, U+2028, U+2029, U+202F,
/// U+205F and U+3000.
pub open spec fn is_white_space(c: char) -> bool {
    let u = c as u32;
    ||| 0x09 <= u <= 0x0D
    ||| u == 0x20
    ||| u == 0x85
    ||| u == 0xA0
    ||| u == 0x1680
    ||| 0x2000 <= u <= 0x200A
    ||| u == 0x2028
    ||| u == 0x2029
    ||| u == 0x202F
    ||| u == 0x205F
    ||| u == 0x3000
}

/// Whether `c` has the Unicode `White_Space` property, as
/// `char::is_whitespace` decides it.
pub(crate) fn char_is_whitespace(c: char) -> (b: bool)
    ensures
        b == is_white_space(c),
{
    let u: u32 = c as u32;
    (0x09 <= u && u <= 0x0D) || u == 0x20 || u == 0x85 || u == 0xA0 || u == 0x1680 || (0x2000 <= u
        && u <= 0x200A) || u == 0x2028 || u == 0x2029 || u == 0x202F || u == 0x205F || u == 0x3000
}

/// std `String::push`: appends one character.
#[verifier::external_body]
pub(crate) fn push_char(s: &mut String, c: char)
    ensures
        final(s)@ == old(s)@.push(c),
{
    s.push(c)
}

/// `s` without its leading white space.
pub open spec fn trim_start(s: Seq<char>) -> Seq<char>
    decreases s.len(),
{
    if s.len() > 0 && is_white_space(s[0]) {
        trim_start(s.drop_first())
    } else {
        s
    }
}

/// `s` without its trailing white space.
pub open spec fn trim_end(s: Seq<char>) -> Seq<char>
    decreases s.len(),
{
    if s.len() > 0 && is_white_space(s.last()) {
        trim_end(s.drop_last())
    } else {
        s
    }
}

/// `s` without leading and trailing white space.
pub open spec fn trimmed(s: Seq<char>) -> Seq<char> {
    trim_end(trim_start(s))
}

proof fn lemma_trim_start_skip(s: Seq<char>, i: int)
    requires
        0 <= i <= s.len(),
        forall|k: int| 0 <= k < i ==> is_white_space(#[trigger] s[k]),
    ensures
        trim_start(s) == trim_start(s.subrange(i, s.len() as int)),
    decreases i,
{
    if i > 0 {
        assert(s.drop_first().subrange(i - 1, s.drop_first().len() as int) =~= s.subrange(
            i,
            s.len() as int,
        ));
        assert(is_white_space(s[0]));
        lemma_trim_start_skip(s.drop_first(), i - 1);
    } else {
        assert(s.subrange(0, s.len() as int) =~= s);
    }
}

proof fn lemma_trim_end_cut(s: Seq<char>, j: int)
    requires
        0 <= j <= s.len(),
        forall|k: int| j <= k < s.len() ==> is_white_space(#[trigger] s[k]),
    ensures
        trim_end(s) == trim_end(s.subrange(0, j)),
    decreases s.len() - j,
{
    if j < s.len() {
        assert(is_white_space(s.last()));
        assert(s.drop_last().subrange(0, j) =~= s.subrange(0, j));
        lemma_trim_end_cut(s.drop_last(), j);
    } else {
        assert(s.subrange(0, j) =~= s);
    }
}

/// Collects the characters of `s`.
pub(crate) fn chars_of(s: &str) -> (v: Vec<char>)
    ensures
        v@ == s@,
{
    broadcast use vstd::string::axiom_spec_iter;

    let mut v: Vec<char> = Vec::new();
    for c in it: s.chars()
        invariant
            v@ == it.seq().take(it.index() as int),
    {
        v.push(c);
    }
    v
}

/// Removes leading and trailing white space, as `str::trim` does.
pub fn trim_whitespace(s: &str) -> (r: String)
    ensures
        r@ == trimmed(s@),
{
    let v = chars_of(s);
    let n = v.len();
    let mut i: usize = 0;
    while i < n && char_is_whitespace(v[i])
        invariant
            v@ == s@,
            n == v.len(),
            i <= n,
            forall|k: int| 0 <= k < i ==> is_white_space(#[trigger] v@[k]),
        decreases n - i,
    {
        i = i + 1;
    }
    let mut j: usize = n;
    while j > i && char_is_whitespace(v[j - 1])
        invariant
            v@ == s@,
            n == v.len(),
            i <= j <= n,
            forall|k: int| j <= k < n ==> is_white_space(#[trigger] v@[k]),
        decreases j - i,
    {
        j = j - 1;
    }
    proof {
        let t = s@.subrange(i as int, n as int);
        lemma_trim_start_skip(s@, i as int);
        if i < n {
            assert(!is_white_space(t[0]));
        }
        assert(trim_start(s@) == t);
        assert forall|k: int| (j - i) <= k < t.len() implies is_white_space(#[trigger] t[k]) by {
            assert(t[k] == v@[k + i]);
        }
        lemma_trim_end_cut(t, (j - i) as int);
        let u = t.subrange(0, (j - i) as int);
        if j > i {
            assert(u.last() == v@[j - 1]);
        }
        assert(trim_end(u) == u);
    }
    let mut r = String::new();
    let mut k: usize = i;
    while k < j
        invariant
            v@ == s@,
            n == v.len(),
            i <= k <= j <= n,
            r@ == s@.subrange(i as int, k as int),
        decreases j - k,
    {
        push_char(&mut r, v[k]);
        k = k + 1;
        proof {
            assert(r@ =~= s@.subrange(i as int, k as int));
        }
    }
    proof {
        assert(s@.subrange(i as int, n as int).subrange(0, (j - i) as int) =~= s@.subrange(
            i as int,
            j as int,
        ));
    }
    r
}

/// What `String::from_utf8_lossy` makes of a byte string: the decoded text,
/// with U+FFFD in place of each ill-formed sequence.
pub uninterp spec fn utf8_lossy(bytes: Seq<u8>) -> Seq<char>;

/// std `String::from_utf8_lossy`. Its result is named `utf8_lossy`; on valid
/// UTF-8 it is the decoded text, unchanged, as std's documentation says.
#[verifier::external_body]
pub(crate) fn utf8_lossy_string(bytes: &[u8]) -> (s: String)
    ensures
        s@ == utf8_lossy(bytes@),
        valid_utf8(bytes@) ==> s@ == decode_utf8(bytes@),
{
    String::from_utf8_lossy(bytes).into_owned()
}

/// `needle` occurs as a contiguous run of characters inside `hay`.
pub open spec fn contains_chars(hay: Seq<char>, needle: Seq<char>) -> bool {
    exists|i: int|
        0 <= i && i + needle.len() <= hay.len() && #[trigger] hay.subrange(i, i + needle.len())
            == needle
}

pub proof fn lemma_contains_at(hay: Seq<char>, needle: Seq<char>, i: int)
    requires
        0 <= i,
        i + needle.len() <= hay.len(),
        hay.subrange(i, i + needle.len()) == needle,
    ensures
        contains_chars(hay, needle),
{
}

proof fn lemma_trim_start_shape(s: Seq<char>)
    ensures
        trim_start(s).len() > 0 ==> !is_white_space(trim_start(s)[0]),
        trim_start(s).len() <= s.len(),
        trim_start(s) == s.subrange(s.len() - trim_start(s).len(), s.len() as int),
        forall|k: int| 0 <= k < s.len() - trim_start(s).len() ==> is_white_space(#[trigger] s[k]),
    decreases s.len(),
{
    if s.len() > 0 && is_white_space(s[0]) {
        lemma_trim_start_shape(s.drop_first());
        let t = trim_start(s.drop_first());
        assert(s.drop_first().subrange(s.drop_first().len() - t.len(), s.drop_first().len() as int)
            =~= s.subrange(s.len() - t.len(), s.len() as int));
        assert forall|k: int| 0 <= k < s.len() - t.len() implies is_white_space(#[trigger] s[k]) by {
            if k > 0 {
                assert(s[k] == s.drop_first()[k - 1]);
            }
        }
    } else {
        assert(s.subrange(0, s.len() as int) =~= s);
    }
}

proof fn lemma_trim_end_shape(s: Seq<char>)
    ensures
        trim_end(s).len() > 0 ==> !is_white_space(trim_end(s).last()),
        trim_end(s).len() <= s.len(),
        trim_end(s) == s.subrange(0, trim_end(s).len() as int),
        forall|k: int| trim_end(s).len() <= k < s.len() ==> is_white_space(#[trigger] s[k]),
    decreases s.len(),
{
    if s.len() > 0 && is_white_space(s.last()) {
        lemma_trim_end_shape(s.drop_last());
        let t = trim_end(s.drop_last());
        assert(s.drop_last().subrange(0, t.len() as int) =~= s.subrange(0, t.len() as int));
        assert forall|k: int| t.len() <= k < s.len() implies is_white_space(#[trigger] s[k]) by {
            if k < s.len() - 1 {
                assert(s[k] == s.drop_last()[k]);
            }
        }
    } else {
        assert(s.subrange(0, s.len() as int) =~= s);
    }
}

/// Trimmed text neither starts nor ends with white space, and is the
/// text it was trimmed from with white space, and nothing else, taken off
/// its two ends.
pub proof fn lemma_trimmed_shape(s: Seq<char>)
    ensures
        trimmed(s).len() > 0 ==> !is_white_space(trimmed(s)[0]) && !is_white_space(
            trimmed(s).last(),
        ),
        exists|i: int|
            0 <= i && i + trimmed(s).len() <= s.len() && #[trigger] s.subrange(
                i,
                i + trimmed(s).len(),
            ) == trimmed(s) && (forall|k: int| 0 <= k < i ==> is_white_space(#[trigger] s[k]))
                && (forall|k: int|
                i + trimmed(s).len() <= k < s.len() ==> is_white_space(#[trigger] s[k])),
{
    lemma_trim_start_shape(s);
    let a = trim_start(s);
    lemma_trim_end_shape(a);
    let b = trim_end(a);
    if b.len() > 0 {
        assert(b[0] == a[0]);
    }
    let i = s.len() - a.len();
    assert(s.subrange(i, i + b.len()) =~= b);
    assert forall|k: int| i + b.len() <= k < s.len() implies is_white_space(#[trigger] s[k]) by {
        assert(s[k] == a[k - i]);
    }
    assert(s.subrange(i, i + trimmed(s).len()) == trimmed(s) && (forall|k: int|
        0 <= k < i ==> is_white_space(#[trigger] s[k])) && (forall|k: int|
        i + trimmed(s).len() <= k < s.len() ==> is_white_space(#[trigger] s[k])));
}

/// The white space that trimming removes is exactly the Unicode
/// `White_Space` code points: tab, line feed, vertical tab, form feed,
/// carriage return, space, next line, no-break space, ogham space mark,
/// the spaces U+2000 to U+200A, line and paragraph separators, narrow
/// no-break space, medium mathematical space and ideographic space.
pub proof fn lemma_white_space_code_points(c: char)
    ensures
        is_white_space(c) <==> (c == '\u{9}' || c == '\u{A}' || c == '\u{B}' || c == '\u{C}'
            || c == '\u{D}' || c == ' ' || c == '\u{85}' || c == '\u{A0}' || c == '\u{1680}'
            || c == '\u{2000}' || c == '\u{2001}' || c == '\u{2002}' || c == '\u{2003}'
            || c == '\u{2004}' || c == '\u{2005}' || c == '\u{2006}' || c == '\u{2007}'
            || c == '\u{2008}' || c == '\u{2009}' || c == '\u{200A}' || c == '\u{2028}'
            || c == '\u{2029}' || c == '\u{202F}' || c == '\u{205F}' || c == '\u{3000}'),
{
}

} // verus!

use vstd::prelude::*;

use crate::text::{chars_of, push_char, trim_whitespace, trimmed, utf8_lossy, utf8_lossy_string};

verus! {

/// The llama.cpp GPU backends that the program was built with
/// (cargo features `cuda`, `metal`, `vulkan`, `rocm`; none of them means CPU).
#[derive(Clone, Copy, Debug, PartialEq, Eq)]
pub struct CompiledBackends {
    pub cuda: bool,
    pub metal: bool,
    pub vulkan: bool,
    pub rocm: bool,
}

impl CompiledBackends {
    /// At least one GPU backend is compiled in.
    pub open spec fn has_gpu(self) -> bool {
        self.cuda || self.metal || self.vulkan || self.rocm
    }
}

/// Number of model layers to offload: all of them (`u32::MAX`) when any GPU
/// backend is compiled in, none otherwise; llama.cpp itself falls back to the
/// CPU when no GPU is present at run time.
pub fn gpu_layers(backends: &CompiledBackends) -> (n: u32)
    ensures
        backends.has_gpu() ==> n == u32::MAX,
        !backends.has_gpu() ==> n == 0,
{
    if backends.cuda || backends.metal || backends.vulkan || backends.rocm {
        u32::MAX
    } else {
        0
    }
}

/// The name under which a set of compiled-in backends is reported; the first
/// matching line wins.
pub open spec fn backend_name(b: CompiledBackends) -> Seq<char> {
    if b.cuda && b.vulkan {
        "CUDA + Vulkan (runtime auto-select)"@
    } else if b.cuda {
        "NVIDIA CUDA"@
    } else if b.metal {
        "Apple Metal"@
    } else if b.vulkan {
        "Vulkan"@
    } else if b.rocm {
        "AMD ROCm"@
    } else {
        "CPU only"@
    }
}

/// Human-readable name of the compiled-in backends.
pub fn compiled_backends(backends: &CompiledBackends) -> (name: &'static str)
    ensures
        name@ == backend_name(*backends),
{
    if backends.cuda && backends.vulkan {
        "CUDA + Vulkan (runtime auto-select)"
    } else if backends.cuda {
        "NVIDIA CUDA"
    } else if backends.metal {
        "Apple Metal"
    } else if backends.vulkan {
        "Vulkan"
    } else if backends.rocm {
        "AMD ROCm"
    } else {
        "CPU only"
    }
}

/// The characters "NVIDIA".
pub open spec fn nvidia_prefix() -> Seq<char> {
    seq!['N', 'V', 'I', 'D', 'I', 'A']
}

/// The label reported for an NVIDIA GPU, given what a successful
/// `nvidia-smi --query-gpu=name --format=csv,noheader` printed: the trimmed
/// name, with "NVIDIA " put in front unless the name already starts with
/// "NVIDIA"; nothing when the name is empty.
pub open spec fn nvidia_label(stdout: Seq<u8>) -> Option<Seq<char>> {
    let name = trimmed(utf8_lossy(stdout));
    if name.len() == 0 {
        None
    } else if name.len() >= 6 && name.subrange(0, 6) == nvidia_prefix() {
        Some(name)
    } else {
        Some("NVIDIA "@ + name)
    }
}

/// Turns the output of a successful `nvidia-smi` name query into a GPU label.
pub fn nvidia_gpu_label(stdout: &[u8]) -> (label: Option<String>)
    ensures
        label.deep_view() == nvidia_label(stdout@),
{
    let text = utf8_lossy_string(stdout);
    let name = trim_whitespace(text.as_str());
    let chars = chars_of(name.as_str());
    if chars.len() == 0 {
        return None;
    }
    let prefix: Vec<char> = vec!['N', 'V', 'I', 'D', 'I', 'A'];
    assert(prefix@ =~= nvidia_prefix());
    let has_prefix = chars.len() >= 6 && find_chars_from(&chars, &prefix, 0) == Some(0usize);
    proof {
        if chars@.len() >= 6 {
            if chars@.subrange(0, 6) == nvidia_prefix() {
                assert(find_chars(chars@, prefix@, 0) == Some(0int));
            } else {
                if find_chars(chars@, prefix@, 1) is Some {
                    lemma_find_chars_some(chars@, prefix@, 1);
                }
                assert(find_chars(chars@, prefix@, 0) != Some(0int));
            }
        }
    }
    if has_prefix {
        Some(name)
    } else {
        let mut label = String::from_str("NVIDIA ");
        label.append(name.as_str());
        Some(label)
    }
}

/// The GPU description shown at start-up: the NVIDIA label when there is one,
/// else the macOS display model when there is one, else the compiled-in
/// backends.
pub fn runtime_gpu_label(
    nvidia: Option<String>,
    macos: Option<String>,
    backends: &CompiledBackends,
) -> (label: String)
    ensures
        label@ == (match (nvidia, macos) {
            (Some(n), _) => n@,
            (None, Some(m)) => m@,
            (None, None) => backend_name(*backends),
        }),
{
    match nvidia {
        Some(n) => n,
        None => match macos {
            Some(m) => m,
            None => String::from_str(compiled_backends(backends)),
        },
    }
}

/// The first index at or after `from` where `pat` occurs in `hay`.
pub open spec fn find_chars(hay: Seq<char>, pat: Seq<char>, from: int) -> Option<int>
    decreases hay.len() + 1 - from,
{
    if from < 0 || from + pat.len() > hay.len() {
        None
    } else if hay.subrange(from, from + pat.len()) == pat {
        Some(from)
    } else {
        find_chars(hay, pat, from + 1)
    }
}

proof fn lemma_find_chars_some(hay: Seq<char>, pat: Seq<char>, from: int)
    requires
        find_chars(hay, pat, from) is Some,
    ensures
        from <= find_chars(hay, pat, from)->0,
        find_chars(hay, pat, from)->0 + pat.len() <= hay.len(),
        hay.subrange(find_chars(hay, pat, from)->0, find_chars(hay, pat, from)->0 + pat.len())
            == pat,
    decreases hay.len() + 1 - from,
{
    if from < 0 || from + pat.len() > hay.len() {
    } else if hay.subrange(from, from + pat.len()) == pat {
    } else {
        lemma_find_chars_some(hay, pat, from + 1);
    }
}

/// Finds the first occurrence of `pat` in `hay` at or after `from`.
fn find_chars_from(hay: &Vec<char>, pat: &Vec<char>, from: usize) -> (r: Option<usize>)
    requires
        from <= hay@.len(),
    ensures
        r matches Some(i) ==> find_chars(hay@, pat@, from as int) == Some(i as int),
        r is None ==> find_chars(hay@, pat@, from as int) is None,
{
    let n = hay.len();
    let m = pat.len();
    if m > n {
        return None;
    }
    if m == 0 {
        assert(hay@.subrange(from as int, from as int) =~= pat@);
        return Some(from);
    }
    if from > n - m {
        return None;
    }
    let mut i: usize = from;
    while i <= n - m
        invariant
            n == hay@.len(),
            m == pat@.len(),
            1 <= m <= n,
            from <= i <= n - m + 1,
            find_chars(hay@, pat@, from as int) == find_chars(hay@, pat@, i as int),
        decreases n - i,
    {
        let mut j: usize = 0;
        let mut same = true;
        assert(hay@.subrange(i as int, i as int) =~= pat@.subrange(0, 0));
        while j < m
            invariant
                n == hay@.len(),
                m == pat@.len(),
                i + m <= n,
                j <= m,
                same == (hay@.subrange(i as int, i + j) == pat@.subrange(0, j as int)),
            decreases m - j,
        {
            if same && hay[i + j] != pat[j] {
                same = false;
                proof {
                    assert(hay@.subrange(i as int, i + j + 1)[j as int] != pat@.subrange(0, j + 1)[j as int]);
                }
            } else {
                proof {
                    if same {
                        assert(hay@.subrange(i as int, i + j + 1) =~= hay@.subrange(i as int, i + j).push(hay@[i + j]));
                        assert(pat@.subrange(0, j + 1) =~= pat@.subrange(0, j as int).push(pat@[j as int]));
                    } else {
                        if hay@.subrange(i as int, i + j + 1) == pat@.subrange(0, j + 1) {
                            assert(hay@.subrange(i as int, i + j) =~= hay@.subrange(i as int, i + j + 1).subrange(0, j as int));
                            assert(pat@.subrange(0, j as int) =~= pat@.subrange(0, j + 1).subrange(0, j as int));
                        }
                    }
                }
            }
            j = j + 1;
        }
        proof {
            assert(pat@.subrange(0, m as int) =~= pat@);
        }
        if same {
            return Some(i);
        }
        i = i + 1;
    }
    None
}

/// The characters `"sppci_model"`, the quoted key of the display model in
/// `system_profiler SPDisplaysDataType -json` output.
pub open spec fn model_key() -> Seq<char> {
    seq!['"', 's', 'p', 'p', 'c', 'i', '_', 'm', 'o', 'd', 'e', 'l', '"']
}

/// JSON white space.
pub open spec fn is_json_space(c: char) -> bool {
    c == ' ' || c == '\t' || c == '\n' || c == '\r'
}

/// The first index at or after `i` that is not JSON white space.
pub open spec fn skip_json_space(t: Seq<char>, i: int) -> int
    decreases t.len() - i,
{
    if 0 <= i < t.len() && is_json_space(t[i]) {
        skip_json_space(t, i + 1)
    } else {
        i
    }
}

/// The string value that follows a key ending just before `k`: white space,
/// a colon, white space, then the characters between a pair of quotes.
pub open spec fn quoted_value_after(t: Seq<char>, k: int) -> Option<Seq<char>> {
    let i = skip_json_space(t, k);
    if 0 <= i < t.len() && t[i] == ':' {
        let j = skip_json_space(t, i + 1);
        if 0 <= j < t.len() && t[j] == '"' {
            match find_chars(t, seq!['"'], j + 1) {
                Some(e) => Some(t.subrange(j + 1, e)),
                None => None,
            }
        } else {
            None
        }
    } else {
        None
    }
}

/// The display model read from `system_profiler SPDisplaysDataType -json`
/// output: the string value of the first `"sppci_model"` key, trimmed;
/// nothing when there is no such key or it is not followed by a string.
pub open spec fn profiler_model(stdout: Seq<u8>) -> Option<Seq<char>> {
    let t = utf8_lossy(stdout);
    match find_chars(t, model_key(), 0) {
        Some(k) => match quoted_value_after(t, k + 13) {
            Some(v) => Some(trimmed(v)),
            None => None,
        },
        None => None,
    }
}

fn is_json_space_exec(c: char) -> (b: bool)
    ensures
        b == is_json_space(c),
{
    c == ' ' || c == '\t' || c == '\n' || c == '\r'
}

fn skip_json_space_exec(v: &Vec<char>, start: usize) -> (i: usize)
    requires
        start <= v@.len(),
    ensures
        i == skip_json_space(v@, start as int),
        start <= i <= v@.len(),
{
    let mut i = start;
    while i < v.len() && is_json_space_exec(v[i])
        invariant
            start <= i <= v@.len(),
            skip_json_space(v@, start as int) == skip_json_space(v@, i as int),
        decreases v@.len() - i,
    {
        i = i + 1;
    }
    i
}

/// The characters `v[lo..hi]` as a string.
fn string_from(v: &Vec<char>, lo: usize, hi: usize) -> (s: String)
    requires
        lo <= hi <= v@.len(),
    ensures
        s@ == v@.subrange(lo as int, hi as int),
{
    let mut s = String::new();
    let mut k = lo;
    while k < hi
        invariant
            lo <= k <= hi <= v@.len(),
            s@ == v@.subrange(lo as int, k as int),
        decreases hi - k,
    {
        push_char(&mut s, v[k]);
        k = k + 1;
        assert(s@ =~= v@.subrange(lo as int, k as int));
    }
    s
}

/// Reads the display model from `system_profiler SPDisplaysDataType -json`
/// output; `None` when it holds no such string value.
pub fn system_profiler_model(stdout: &[u8]) -> (model: Option<String>)
    ensures
        model.deep_view() == profiler_model(stdout@),
{
    let text = utf8_lossy_string(stdout);
    let t = chars_of(text.as_str());
    let key: Vec<char> = vec!['"', 's', 'p', 'p', 'c', 'i', '_', 'm', 'o', 'd', 'e', 'l', '"'];
    assert(key@ =~= model_key());
    let k = match find_chars_from(&t, &key, 0) {
        Some(k) => k,
        None => return None,
    };
    proof {
        lemma_find_chars_some(t@, key@, 0);
    }
    let n = t.len();
    assert(k + 13 <= n);
    let i = skip_json_space_exec(&t, k + 13);
    if i >= t.len() || t[i] != ':' {
        return None;
    }
    let j = skip_json_space_exec(&t, i + 1);
    if j >= t.len() || t[j] != '"' {
        return None;
    }
    let quote: Vec<char> = vec!['"'];
    assert(quote@ =~= seq!['"']);
    let e = match find_chars_from(&t, &quote, j + 1) {
        Some(e) => e,
        None => return None,
    };
    proof {
        lemma_find_chars_some(t@, quote@, (j + 1) as int);
    }
    let value = string_from(&t, j + 1, e);
    Some(trim_whitespace(value.as_str()))
}

/// The NVIDIA label carries the whole trimmed name that `nvidia-smi`
/// printed, never a part of it: there is a label exactly when that name is
/// not empty, it always starts with "NVIDIA", and it is the name itself
/// when the name already starts with "NVIDIA", else "NVIDIA " followed by
/// the name.
pub proof fn lemma_nvidia_label_whole_name(stdout: Seq<u8>)
    ensures
        nvidia_label(stdout) is None <==> trimmed(utf8_lossy(stdout)).len() == 0,
        nvidia_label(stdout) matches Some(l) ==> {
            let name = trimmed(utf8_lossy(stdout));
            &&& l.len() >= name.len()
            &&& l.subrange(l.len() - name.len(), l.len() as int) == name
            &&& l.len() >= 6 && l.subrange(0, 6) == seq!['N', 'V', 'I', 'D', 'I', 'A']
            &&& l == name || l == seq!['N', 'V', 'I', 'D', 'I', 'A', ' '] + name
            &&& (name.len() >= 6 && name.subrange(0, 6) == seq!['N', 'V', 'I', 'D', 'I', 'A'])
                ==> l == name
        },
{
    reveal_strlit("NVIDIA ");
    let name = trimmed(utf8_lossy(stdout));
    let pre = seq!['N', 'V', 'I', 'D', 'I', 'A', ' '];
    assert("NVIDIA "@ =~= pre);
    if name.len() > 0 {
        if name.len() >= 6 && name.subrange(0, 6) == nvidia_prefix() {
            assert(name.subrange(name.len() - name.len(), name.len() as int) =~= name);
        } else {
            let l = pre + name;
            assert(l.subrange(l.len() - name.len(), l.len() as int) =~= name);
            assert(l.subrange(0, 6) =~= seq!['N', 'V', 'I', 'D', 'I', 'A']);
        }
    }
}

/// The display model is the whole string value of the first
/// `"sppci_model"` key, trimmed, whatever its length: where the output
/// holds that key first at `k`, then JSON white space, a colon at `colon`,
/// white space, and a string running from the quote at `open` to the next
/// quote at `close`, the model is the text between the two quotes, trimmed.
pub proof fn lemma_profiler_model_whole_value(
    stdout: Seq<u8>,
    k: int,
    colon: int,
    open: int,
    close: int,
)
    requires
        0 <= k,
        k + 13 <= colon < open < close < utf8_lossy(stdout).len(),
        utf8_lossy(stdout).subrange(k, k + 13) == seq![
            '"',
            's',
            'p',
            'p',
            'c',
            'i',
            '_',
            'm',
            'o',
            'd',
            'e',
            'l',
            '"',
        ],
        forall|p: int|
            0 <= p < k ==> #[trigger] utf8_lossy(stdout).subrange(p, p + 13) != seq![
                '"',
                's',
                'p',
                'p',
                'c',
                'i',
                '_',
                'm',
                'o',
                'd',
                'e',
                'l',
                '"',
            ],
        forall|p: int|
            k + 13 <= p < colon ==> (#[trigger] utf8_lossy(stdout)[p] == ' ' || utf8_lossy(
                stdout,
            )[p] == '\t' || utf8_lossy(stdout)[p] == '\n' || utf8_lossy(stdout)[p] == '\r'),
        utf8_lossy(stdout)[colon] == ':',
        forall|p: int|
            colon < p < open ==> (#[trigger] utf8_lossy(stdout)[p] == ' ' || utf8_lossy(
                stdout,
            )[p] == '\t' || utf8_lossy(stdout)[p] == '\n' || utf8_lossy(stdout)[p] == '\r'),
        utf8_lossy(stdout)[open] == '"',
        forall|p: int| open < p < close ==> #[trigger] utf8_lossy(stdout)[p] != '"',
        utf8_lossy(stdout)[close] == '"',
    ensures
        profiler_model(stdout) == Some(trimmed(utf8_lossy(stdout).subrange(open + 1, close))),
{
    let t = utf8_lossy(stdout);
    assert(model_key() =~= t.subrange(k, k + 13));
    lemma_find_chars_first(t, model_key(), 0, k);
    lemma_skip_json_space_to(t, k + 13, colon);
    lemma_skip_json_space_to(t, colon + 1, open);
    assert forall|p: int| open + 1 <= p < close implies #[trigger] t.subrange(p, p + 1) != seq!['"'] by {
        assert(t.subrange(p, p + 1)[0] == t[p]);
    }
    assert(t.subrange(close, close + 1) =~= seq!['"']);
    lemma_find_chars_first(t, seq!['"'], open + 1, close);
}

/// `find_chars` gives the first occurrence at or after `from`.
proof fn lemma_find_chars_first(hay: Seq<char>, pat: Seq<char>, from: int, at: int)
    requires
        0 <= from <= at,
        at + pat.len() <= hay.len(),
        hay.subrange(at, at + pat.len()) == pat,
        forall|p: int| from <= p < at ==> #[trigger] hay.subrange(p, p + pat.len()) != pat,
    ensures
        find_chars(hay, pat, from) == Some(at),
    decreases at - from,
{
    if from < at {
        lemma_find_chars_first(hay, pat, from + 1, at);
    }
}

/// `skip_json_space` stops at the first character that is not JSON white
/// space.
proof fn lemma_skip_json_space_to(t: Seq<char>, from: int, to: int)
    requires
        0 <= from <= to < t.len(),
        forall|p: int| from <= p < to ==> is_json_space(#[trigger] t[p]),
        !is_json_space(t[to]),
    ensures
        skip_json_space(t, from) == to,
    decreases to - from,
{
    if from < to {
        lemma_skip_json_space_to(t, from + 1, to);
    }
}

} // verus!

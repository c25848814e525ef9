use vstd::prelude::*;
use vstd::utf8::{decode_utf8, valid_utf8};

use crate::text::{trim_whitespace, trimmed};

verus! {

#[verifier::external_type_specification]
#[verifier::external_body]
pub struct ExDecoder(encoding_rs::Decoder);

/// `bytes` without a leading UTF-8 byte order mark.
pub open spec fn without_utf8_bom(bytes: Seq<u8>) -> Seq<u8> {
    if bytes.len() >= 3 && bytes[0] == 0xEFu8 && bytes[1] == 0xBBu8 && bytes[2] == 0xBFu8 {
        bytes.skip(3)
    } else {
        bytes
    }
}

/// The text that encoding_rs's UTF-8 decoder (made by `UTF_8.new_decoder()`,
/// so with BOM sniffing, and never told that the input has ended) has
/// produced once it has consumed `bytes`: the decoded characters, U+FFFD for
/// ill-formed sequences, and a trailing incomplete sequence held back. The
/// decoder implements the Encoding Standard's byte-at-a-time algorithm, so
/// this depends on the bytes alone, not on how they were split into calls.
pub uninterp spec fn utf8_stream_text(bytes: Seq<u8>) -> Seq<char>;

/// An incremental UTF-8 decoder (encoding_rs, with BOM sniffing) together
/// with the history of what it was fed and what it produced.
pub(crate) struct Utf8Stream {
    decoder: encoding_rs::Decoder,
    consumed: Ghost<Seq<u8>>,
    emitted: Ghost<Seq<char>>,
}

impl Utf8Stream {
    /// All bytes handed to the decoder so far.
    pub(crate) closed spec fn consumed(&self) -> Seq<u8> {
        self.consumed@
    }

    /// All text the decoder has produced so far.
    pub(crate) closed spec fn emitted(&self) -> Seq<char> {
        self.emitted@
    }

    /// encoding_rs `UTF_8.new_decoder()`: a fresh decoder that has seen and
    /// produced nothing.
    #[verifier::external_body]
    pub(crate) fn new() -> (s: Utf8Stream)
        ensures
            s.consumed() == Seq::<u8>::empty(),
            s.emitted() == Seq::<char>::empty(),
            s.emitted() == utf8_stream_text(s.consumed()),
    {
        Utf8Stream {
            decoder: encoding_rs::UTF_8.new_decoder(),
            consumed: Ghost(Seq::empty()),
            emitted: Ghost(Seq::empty()),
        }
    }

    /// encoding_rs `Decoder::decode_to_string` (with `last == false`) into a
    /// string reserved with `Decoder::max_utf8_buffer_length`, the capacity
    /// under which, by encoding_rs's documentation, all input is consumed.
    /// The returned text is what the decoder wrote, so all text produced is
    /// `utf8_stream_text` of all bytes consumed; for bytes that are valid
    /// UTF-8 that is their decoding, a leading byte order mark removed. The
    /// ghost history is only ever set by `new` and this function.
    #[verifier::external_body]
    pub(crate) fn decode(&mut self, bytes: &[u8]) -> (text: String)
        requires
            bytes.len() <= usize::MAX / 4,
        ensures
            final(self).consumed() == old(self).consumed() + bytes@,
            final(self).emitted() == old(self).emitted() + text@,
            final(self).emitted() == utf8_stream_text(final(self).consumed()),
            valid_utf8(final(self).consumed()) ==> utf8_stream_text(final(self).consumed())
                == decode_utf8(without_utf8_bom(final(self).consumed())),
    {
        let capacity = self.decoder.max_utf8_buffer_length(bytes.len()).unwrap_or(bytes.len());
        let mut text = String::with_capacity(capacity);
        let _ = self.decoder.decode_to_string(bytes, &mut text, false);
        text
    }
}

/// The concatenation of a sequence of byte strings.
pub open spec fn concat_bytes(pieces: Seq<Seq<u8>>) -> Seq<u8>
    decreases pieces.len(),
{
    if pieces.len() == 0 {
        Seq::empty()
    } else {
        concat_bytes(pieces.drop_last()) + pieces.last()
    }
}

/// How the prompt is laid into the first batch: token `i` sits at position
/// `i`, and only the last one asks for logits.
pub fn prompt_batch_plan(prompt_len: usize) -> (plan: Vec<(i32, bool)>)
    requires
        1 <= prompt_len <= i32::MAX,
    ensures
        plan@.len() == prompt_len,
        forall|i: int|
            0 <= i < prompt_len ==> #[trigger] plan@[i] == (i as i32, i == prompt_len - 1),
{
    let last = (prompt_len - 1) as i32;
    let mut plan: Vec<(i32, bool)> = Vec::new();
    let mut i: usize = 0;
    while i < prompt_len
        invariant
            i <= prompt_len <= i32::MAX,
            last == prompt_len - 1,
            plan@.len() == i,
            forall|k: int| 0 <= k < i ==> #[trigger] plan@[k] == (k as i32, k == prompt_len - 1),
        decreases prompt_len - i,
    {
        let pos = i as i32;
        plan.push((pos, pos == last));
        i = i + 1;
    }
    plan
}

/// The decisions of one sampling run: after the prompt has been decoded,
/// tokens are sampled one at a time until an end-of-generation token comes
/// or `max_tokens` tokens have been generated; each generated token's text
/// piece is decoded and appended to the output.
pub struct Generation {
    prompt_len: i32,
    max_tokens: i32,
    n_cur: i32,
    batch_len: i32,
    n_decode: u32,
    stopped: bool,
    output: String,
    stream: Utf8Stream,
    tokens: Ghost<Seq<i32>>,
    pieces: Ghost<Seq<Seq<u8>>>,
}

impl Generation {
    pub closed spec fn prompt_len(&self) -> int {
        self.prompt_len as int
    }

    pub closed spec fn max_tokens(&self) -> int {
        self.max_tokens as int
    }

    /// Number of tokens generated so far.
    pub closed spec fn n_decode(&self) -> int {
        self.n_decode as int
    }

    /// Whether an end-of-generation token has stopped the run.
    pub closed spec fn stopped(&self) -> bool {
        self.stopped
    }

    /// Number of tokens in the batch that was decoded last.
    pub closed spec fn batch_len(&self) -> int {
        self.batch_len as int
    }

    /// The generated tokens, in order.
    pub closed spec fn tokens(&self) -> Seq<i32> {
        self.tokens@
    }

    /// The text pieces (raw bytes) of the generated tokens, in order.
    pub closed spec fn pieces(&self) -> Seq<Seq<u8>> {
        self.pieces@
    }

    /// The text produced so far.
    pub closed spec fn output(&self) -> Seq<char> {
        self.output@
    }

    pub closed spec fn wf(&self) -> bool {
        &&& 1 <= self.prompt_len
        &&& 0 <= self.max_tokens
        &&& self.prompt_len + self.max_tokens <= i32::MAX
        &&& self.n_decode <= self.max_tokens
        &&& self.n_cur == self.prompt_len + self.n_decode
        &&& self.batch_len == (if self.n_decode == 0 { self.prompt_len } else { 1 })
        &&& self.tokens@.len() == self.n_decode
        &&& self.pieces@.len() == self.n_decode
        &&& self.stream.consumed() == concat_bytes(self.pieces@)
        &&& self.output@ == self.stream.emitted()
        &&& self.stream.emitted() == utf8_stream_text(self.stream.consumed())
        &&& valid_utf8(self.stream.consumed()) ==> self.stream.emitted() == decode_utf8(
            without_utf8_bom(self.stream.consumed()),
        )
    }

    /// Starts a run for a prompt of `prompt_len` tokens that may add at most
    /// `max_tokens` tokens.
    pub fn new(prompt_len: usize, max_tokens: i32) -> (g: Generation)
        requires
            1 <= prompt_len,
            0 <= max_tokens,
            prompt_len + max_tokens <= i32::MAX,
        ensures
            g.wf(),
            g.prompt_len() == prompt_len,
            g.max_tokens() == max_tokens,
            g.n_decode() == 0,
            !g.stopped(),
            g.batch_len() == prompt_len,
            g.tokens() == Seq::<i32>::empty(),
            g.pieces() == Seq::<Seq<u8>>::empty(),
            g.output() == Seq::<char>::empty(),
    {
        let stream = Utf8Stream::new();
        let p = prompt_len as i32;
        Generation {
            prompt_len: p,
            max_tokens,
            n_cur: p,
            batch_len: p,
            n_decode: 0,
            stopped: false,
            output: String::new(),
            stream,
            tokens: Ghost(Seq::empty()),
            pieces: Ghost(Seq::empty()),
        }
    }

    /// Room the batch needs: the whole prompt plus every token that may be generated.
    pub fn batch_capacity(&self) -> (n: usize)
        requires
            self.wf(),
        ensures
            n == self.prompt_len() + self.max_tokens(),
    {
        self.prompt_len as usize + self.max_tokens as usize
    }

    /// The batch index whose logits the next token is sampled from (the last
    /// token of the batch decoded last), or `None` when the run is over:
    /// stopped by an end-of-generation token, or `max_tokens` reached.
    pub fn next_sample(&self) -> (idx: Option<i32>)
        requires
            self.wf(),
        ensures
            idx == (if self.stopped() || self.n_decode() >= self.max_tokens() {
                None
            } else {
                Some((self.batch_len() - 1) as i32)
            }),
    {
        if !self.stopped && self.n_cur < self.prompt_len + self.max_tokens {
            Some(self.batch_len - 1)
        } else {
            None
        }
    }

    /// Takes the sampled `token`. An end-of-generation token stops the run
    /// and gives `None`; any other token's `piece` is decoded onto the
    /// output, and the position at which the token goes into the next
    /// (one-token) batch is returned.
    pub fn on_token(&mut self, token: i32, is_eog: bool, piece: &[u8]) -> (pos: Option<i32>)
        requires
            old(self).wf(),
            !old(self).stopped(),
            old(self).n_decode() < old(self).max_tokens(),
            piece.len() <= usize::MAX / 4,
        ensures
            final(self).wf(),
            final(self).prompt_len() == old(self).prompt_len(),
            final(self).max_tokens() == old(self).max_tokens(),
            is_eog ==> {
                &&& pos is None
                &&& final(self).stopped()
                &&& final(self).n_decode() == old(self).n_decode()
                &&& final(self).batch_len() == old(self).batch_len()
                &&& final(self).tokens() == old(self).tokens()
                &&& final(self).pieces() == old(self).pieces()
                &&& final(self).output() == old(self).output()
            },
            !is_eog ==> {
                &&& pos == Some((old(self).prompt_len() + old(self).n_decode()) as i32)
                &&& !final(self).stopped()
                &&& final(self).n_decode() == old(self).n_decode() + 1
                &&& final(self).batch_len() == 1
                &&& final(self).tokens() == old(self).tokens().push(token)
                &&& final(self).pieces() == old(self).pieces().push(piece@)
                &&& old(self).output().is_prefix_of(final(self).output())
            },
            final(self).output() == utf8_stream_text(concat_bytes(final(self).pieces())),
            valid_utf8(concat_bytes(final(self).pieces())) ==> final(self).output() == decode_utf8(
                without_utf8_bom(concat_bytes(final(self).pieces())),
            ),
    {
        if is_eog {
            self.stopped = true;
            return None;
        }
        let text = self.stream.decode(piece);
        self.output.append(text.as_str());
        let pos = self.n_cur;
        self.n_cur = self.n_cur + 1;
        self.n_decode = self.n_decode + 1;
        self.batch_len = 1;
        proof {
            let old_pieces = self.pieces@;
            self.tokens@ = self.tokens@.push(token);
            self.pieces@ = self.pieces@.push(piece@);
            assert(self.pieces@.drop_last() =~= old_pieces);
        }
        Some(pos)
    }

    /// Ends the run: the output without surrounding white space, and the
    /// number of tokens generated. When the pieces together are valid UTF-8,
    /// the output is their decoding (a leading byte order mark removed).
    pub fn finish(self) -> (r: (String, u32))
        requires
            self.wf(),
        ensures
            r.0@ == trimmed(self.output()),
            self.output() == utf8_stream_text(concat_bytes(self.pieces())),
            r.1 == self.n_decode(),
            r.1 <= self.max_tokens(),
            valid_utf8(concat_bytes(self.pieces())) ==> self.output() == decode_utf8(
                without_utf8_bom(concat_bytes(self.pieces())),
            ),
    {
        (trim_whitespace(self.output.as_str()), self.n_decode)
    }
}

} // verus!

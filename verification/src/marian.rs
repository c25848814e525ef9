use vstd::prelude::*;

verus! {

/// Where the MarianMT zh-en model files are fetched from.
pub const HF_BASE: &'static str = "https://huggingface.co/onnx-community/opus-mt-zh-en/resolve/main";

/// The end-of-sequence token id of MarianMT.
pub const EOS_ID: u32 = 0;

/// MarianMT's `decoder_start_token_id` (not 0, which is EOS).
pub const DEC_START: i64 = 65000;

/// At most this many tokens are generated per sentence.
pub const MAX_NEW: usize = 128;

/// A model file: its path below `HF_BASE`, and where it is kept locally.
pub struct ModelFile {
    pub url_path: &'static str,
    pub local: &'static str,
}

/// The files the demo needs: encoder, decoder and tokenizer.
pub fn model_files() -> (files: Vec<ModelFile>)
    ensures
        files@.len() == 3,
        files@[0].url_path@ == "onnx/encoder_model_int8.onnx"@,
        files@[0].local@ == "models/encoder.onnx"@,
        files@[1].url_path@ == "onnx/decoder_model_int8.onnx"@,
        files@[1].local@ == "models/decoder.onnx"@,
        files@[2].url_path@ == "tokenizer.json"@,
        files@[2].local@ == "models/tokenizer.json"@,
{
    let mut files: Vec<ModelFile> = Vec::new();
    files.push(
        ModelFile { url_path: "onnx/encoder_model_int8.onnx", local: "models/encoder.onnx" },
    );
    files.push(
        ModelFile { url_path: "onnx/decoder_model_int8.onnx", local: "models/decoder.onnx" },
    );
    files.push(ModelFile { url_path: "tokenizer.json", local: "models/tokenizer.json" });
    files
}

/// The download URL of a model file: `HF_BASE`, a slash, and its path.
pub fn download_url(url_path: &str) -> (url: String)
    ensures
        url@ == HF_BASE@ + "/"@ + url_path@,
{
    let mut url = String::from_str(HF_BASE);
    url.append("/");
    url.append(url_path);
    url
}

/// Token ids as the ONNX models take them.
pub fn widen_ids(ids: &[u32]) -> (wide: Vec<i64>)
    ensures
        wide@.len() == ids@.len(),
        forall|i: int| 0 <= i < ids@.len() ==> #[trigger] wide@[i] == ids@[i] as i64,
{
    let mut wide: Vec<i64> = Vec::new();
    let mut i: usize = 0;
    while i < ids.len()
        invariant
            i <= ids@.len(),
            wide@.len() == i,
            forall|k: int| 0 <= k < i ==> #[trigger] wide@[k] == ids@[k] as i64,
        decreases ids@.len() - i,
    {
        wide.push(ids[i] as i64);
        i = i + 1;
    }
    wide
}

/// The attention mask of a sequence of `len` tokens: every position attends.
pub fn attention_mask(len: usize) -> (mask: Vec<i64>)
    ensures
        mask@.len() == len,
        forall|i: int| 0 <= i < len ==> #[trigger] mask@[i] == 1,
{
    let mut mask: Vec<i64> = Vec::new();
    let mut i: usize = 0;
    while i < len
        invariant
            i <= len,
            mask@.len() == i,
            forall|k: int| 0 <= k < i ==> #[trigger] mask@[k] == 1,
        decreases len - i,
    {
        mask.push(1);
        i = i + 1;
    }
    mask
}

/// The decisions of greedy decoding: the decoder is fed every token so far,
/// the most likely next token is appended, and decoding ends at
/// end-of-sequence or after `MAX_NEW` steps.
pub struct GreedyDecoder {
    tokens: Vec<i64>,
    steps: usize,
    done: bool,
}

impl GreedyDecoder {
    /// The decoder input so far: the start token, then every token chosen.
    pub closed spec fn tokens(&self) -> Seq<i64> {
        self.tokens@
    }

    /// Number of decoding steps taken.
    pub closed spec fn steps(&self) -> int {
        self.steps as int
    }

    /// Whether end-of-sequence has been chosen.
    pub closed spec fn done(&self) -> bool {
        self.done
    }

    pub closed spec fn wf(&self) -> bool {
        &&& 1 <= self.tokens@.len() <= self.steps + 1
        &&& self.steps <= MAX_NEW
        &&& self.tokens@[0] == DEC_START
        &&& forall|i: int| 1 <= i < self.tokens@.len() ==> (#[trigger] self.tokens@[i]) as u32 != EOS_ID
    }

    pub fn new() -> (d: GreedyDecoder)
        ensures
            d.wf(),
            d.tokens() == seq![DEC_START],
            d.steps() == 0,
            !d.done(),
    {
        let mut tokens: Vec<i64> = Vec::new();
        tokens.push(DEC_START);
        GreedyDecoder { tokens, steps: 0, done: false }
    }

    /// The decoder input for the next step.
    pub fn input_ids(&self) -> (ids: &Vec<i64>)
        ensures
            ids@ == self.tokens(),
    {
        &self.tokens
    }

    /// Whether another decoding step is to be run.
    pub fn wants_step(&self) -> (b: bool)
        requires
            self.wf(),
        ensures
            b == (!self.done() && self.steps() < MAX_NEW),
    {
        !self.done && self.steps < MAX_NEW
    }

    /// The range of the flattened `[1, len, vocab]` logits that belongs to
    /// the last input position.
    pub fn last_logits_range(&self, vocab: usize) -> (range: (usize, usize))
        requires
            self.wf(),
            self.tokens().len() * vocab <= usize::MAX,
        ensures
            range.0 == (self.tokens().len() - 1) * vocab,
            range.1 == range.0 + vocab,
    {
        let last = self.tokens.len() - 1;
        proof {
            assert(last * vocab + vocab == self.tokens().len() * vocab) by (nonlinear_arith)
                requires
                    last + 1 == self.tokens().len(),
            ;
            assert(last * vocab <= self.tokens().len() * vocab) by (nonlinear_arith)
                requires
                    last + 1 == self.tokens().len(),
            ;
        }
        let start = last * vocab;
        (start, start + vocab)
    }

    /// Takes the most likely next token of this step: end-of-sequence ends
    /// decoding, any other token is appended to the input.
    pub fn take_next(&mut self, next_id: i64)
        requires
            old(self).wf(),
            !old(self).done(),
            old(self).steps() < MAX_NEW,
        ensures
            final(self).wf(),
            final(self).steps() == old(self).steps() + 1,
            (next_id as u32 == EOS_ID) ==> final(self).done() && final(self).tokens()
                == old(self).tokens(),
            (next_id as u32 != EOS_ID) ==> !final(self).done() && final(self).tokens()
                == old(self).tokens().push(next_id),
    {
        if next_id as u32 == EOS_ID {
            self.done = true;
        } else {
            self.tokens.push(next_id);
        }
        self.steps = self.steps + 1;
    }

    /// The generated token ids: everything after the start token. There are
    /// at most `MAX_NEW` of them and none is end-of-sequence.
    pub fn output_ids(&self) -> (ids: Vec<u32>)
        requires
            self.wf(),
        ensures
            ids@.len() == self.tokens().len() - 1,
            forall|i: int|
                0 <= i < ids@.len() ==> #[trigger] ids@[i] == self.tokens()[i + 1] as u32,
            ids@.len() <= MAX_NEW,
            forall|i: int| 0 <= i < ids@.len() ==> #[trigger] ids@[i] != EOS_ID,
    {
        let mut ids: Vec<u32> = Vec::new();
        let mut i: usize = 1;
        while i < self.tokens.len()
            invariant
                self.wf(),
                1 <= i <= self.tokens@.len(),
                ids@.len() == i - 1,
                forall|k: int| 0 <= k < ids@.len() ==> #[trigger] ids@[k] == self.tokens@[k + 1] as u32,
            decreases self.tokens@.len() - i,
        {
            ids.push(self.tokens[i] as u32);
            i = i + 1;
        }
        proof {
            assert forall|k: int| 0 <= k < ids@.len() implies #[trigger] ids@[k] != EOS_ID by {
                assert(self.tokens@[k + 1] as u32 != EOS_ID);
            }
        }
        ids
    }
}

#[verifier::external_type_specification]
#[verifier::external_body]
pub struct ExTokenizer(tokenizers::Tokenizer);

/// A failure reported by the tokenizer, with its message.
#[derive(Debug)]
pub struct TokenizerError {
    pub message: String,
}

/// Whether `outcome` (the ids of an encoding, or the error's text) is an
/// outcome that `Tokenizer::encode` (no special tokens added) may give for
/// `text` with this tokenizer. A relation, not a function: a BPE model with
/// dropout, or a Unigram model with sampling, draws random numbers while
/// encoding, so one text may have several.
pub uninterp spec fn may_encode(
    tokenizer: tokenizers::Tokenizer,
    text: Seq<char>,
    outcome: Result<Seq<u32>, Seq<char>>,
) -> bool;

/// An encoding result as plain values.
pub open spec fn ids_result(r: Result<Vec<u32>, String>) -> Result<Seq<u32>, Seq<char>> {
    match r {
        Ok(ids) => Ok(ids@),
        Err(m) => Err(m@),
    }
}

/// tokenizers `Tokenizer::encode` (no special tokens added) on `text`,
/// giving the ids of the encoding, or the error's text. What it gives is
/// stated to be one of the outcomes `may_encode` admits for this tokenizer
/// and text; which one is left unsaid.
#[verifier::external_body]
fn tokenizer_encode(tokenizer: &tokenizers::Tokenizer, text: &str) -> (r: Result<Vec<u32>, String>)
    ensures
        may_encode(*tokenizer, text@, ids_result(r)),
{
    match tokenizer.encode(text, false) {
        Ok(encoding) => Ok(encoding.get_ids().to_vec()),
        Err(e) => Err(e.to_string()),
    }
}

/// The text (or the error's text) that `Tokenizer::decode`, special tokens
/// skipped, gives for `ids` with this tokenizer.
pub uninterp spec fn decoded_text(tokenizer: tokenizers::Tokenizer, ids: Seq<u32>) -> Result<
    Seq<char>,
    Seq<char>,
>;

/// A decoding result as plain values.
pub open spec fn text_result(r: Result<String, String>) -> Result<Seq<char>, Seq<char>> {
    match r {
        Ok(t) => Ok(t@),
        Err(m) => Err(m@),
    }
}

/// tokenizers `Tokenizer::decode` (special tokens skipped), giving the text
/// or the error's text; its result is named `decoded_text`. Decoding maps
/// ids to tokens and runs the tokenizer's decoder, with no randomness.
#[verifier::external_body]
fn tokenizer_decode(tokenizer: &tokenizers::Tokenizer, ids: &[u32]) -> (r: Result<String, String>)
    ensures
        text_result(r) == decoded_text(*tokenizer, ids@),
{
    match tokenizer.decode(ids, true) {
        Ok(text) => Ok(text),
        Err(e) => Err(e.to_string()),
    }
}

/// Tokenizes a source sentence into encoder input ids: the ids the
/// tokenizer gives for `text`, each widened unchanged (so lying in
/// `0..=u32::MAX`). It fails only where the tokenizer fails, with the
/// tokenizer's own message.
pub fn encode_source(tokenizer: &tokenizers::Tokenizer, text: &str) -> (r: Result<
    Vec<i64>,
    TokenizerError,
>)
    ensures
        r matches Ok(wide) ==> exists|ids: Seq<u32>|
            may_encode(*tokenizer, text@, Ok(ids)) && wide@ == ids.map_values(|x: u32| x as i64),
        r matches Err(e) ==> may_encode(*tokenizer, text@, Err(e.message@)),
        r matches Ok(wide) ==> forall|i: int|
            0 <= i < wide@.len() ==> 0 <= #[trigger] wide@[i] <= u32::MAX,
{
    match tokenizer_encode(tokenizer, text) {
        Ok(ids) => {
            let wide = widen_ids(ids.as_slice());
            assert(wide@ =~= ids@.map_values(|x: u32| x as i64));
            Ok(wide)
        },
        Err(message) => Err(TokenizerError { message }),
    }
}

/// A translation result as plain values.
pub open spec fn translation_result(r: Result<String, TokenizerError>) -> Result<
    Seq<char>,
    Seq<char>,
> {
    match r {
        Ok(t) => Ok(t@),
        Err(e) => Err(e.message@),
    }
}

/// The ids that greedy decoding chose: every token after the start token.
pub open spec fn chosen_ids(tokens: Seq<i64>) -> Seq<u32> {
    tokens.skip(1).map_values(|x: i64| x as u32)
}

/// Turns the tokens chosen by greedy decoding (the start token left out)
/// back into text: exactly what the tokenizer decodes them to, or its error.
pub fn decode_translation(tokenizer: &tokenizers::Tokenizer, decoder: &GreedyDecoder) -> (r:
    Result<String, TokenizerError>)
    requires
        decoder.wf(),
    ensures
        translation_result(r) == decoded_text(*tokenizer, chosen_ids(decoder.tokens())),
{
    let ids = decoder.output_ids();
    assert(ids@ =~= chosen_ids(decoder.tokens()));
    match tokenizer_decode(tokenizer, ids.as_slice()) {
        Ok(text) => Ok(text),
        Err(message) => Err(TokenizerError { message }),
    }
}

} // verus!

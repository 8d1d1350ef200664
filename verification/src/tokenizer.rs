//! The token stream decoder: token ids go in one at a time, printable text
//! comes out as soon as it is complete.

use vstd::prelude::*;
use vstd::slice::slice_subrange;
use vstd::string::*;
use tokenizers::{DecoderWrapper, PreTokenizerWrapper, Tokenizer};

use crate::codec::{
    alphanumeric, cuts_safely, decodable, decode, decoder, decoder_kind, decodes_steadily,
    encodable, encode, encoded, is_alphanumeric, is_encoding, nesting, pre_tokenizer,
    splitter_kind, splitter_nesting, steady, steady_splitter, text_of, token_to_id, truncation,
    undecodable, vocabulary, DecoderKind, SplitterKind,
};
use crate::text::{beyond, last_char, text_beyond};

verus! {

/// The state of a token stream: the ids seen so far, and the two marks that
/// bound the window whose text has been handed out last.
pub struct StreamState {
    pub tokens: Seq<u32>,
    pub prev_index: int,
    pub current_index: int,
}

/// The tokenizer could not decode a run of ids; `message` says why.
#[derive(Debug)]
pub struct DecodeError {
    pub message: String,
}

/// The state before any token: no ids, both marks at the start.
pub open spec fn empty_stream() -> StreamState {
    StreamState { tokens: Seq::empty(), prev_index: 0, current_index: 0 }
}

/// The text already handed out for the current window: the decoding of the
/// ids between the two marks, and nothing while no id has been seen.
pub open spec fn shown_text(table: Map<Seq<u32>, Seq<char>>, s: StreamState) -> Option<Seq<char>> {
    if s.tokens.len() == 0 {
        Some(Seq::empty())
    } else {
        text_of(table, s.tokens.subrange(s.prev_index, s.current_index))
    }
}

/// The decoding of all ids from the first mark on.
pub open spec fn window_text(table: Map<Seq<u32>, Seq<char>>, s: StreamState) -> Option<Seq<char>> {
    text_of(table, s.tokens.subrange(s.prev_index, s.tokens.len() as int))
}

/// The state with one more id, the marks unchanged.
pub open spec fn with_token(s: StreamState, token: u32) -> StreamState {
    StreamState { tokens: s.tokens.push(token), ..s }
}

/// The state after text has been handed out: the window moves up to the end.
pub open spec fn advanced(s: StreamState) -> StreamState {
    StreamState {
        tokens: s.tokens,
        prev_index: s.current_index,
        current_index: s.tokens.len() as int,
    }
}

/// Whether a text is complete: it ends with an alphabetic or numeric
/// character. A text that ends otherwise may still be the beginning of a
/// character that needs more tokens.
pub open spec fn complete(text: Seq<char>) -> bool {
    text.len() > 0 && alphanumeric(text.last())
}

/// The text that is ready once the window reads `text` where `shown` has
/// been handed out: what lies beyond `shown`, provided that `text` is complete.
pub open spec fn ready_text(shown: Seq<char>, text: Seq<char>) -> Option<Seq<char>> {
    if complete(text) {
        text_beyond(shown, text)
    } else {
        None
    }
}

/// The ids between the two marks.
pub open spec fn shown_ids(s: StreamState) -> Seq<u32> {
    s.tokens.subrange(s.prev_index, s.current_index)
}

/// All ids from the first mark on.
pub open spec fn window_ids(s: StreamState) -> Seq<u32> {
    s.tokens.subrange(s.prev_index, s.tokens.len() as int)
}

/// What pushing `token` hands out: the text that became ready, if any; or,
/// when a decoding fails, the run of ids that could not be decoded.
pub open spec fn push_output(table: Map<Seq<u32>, Seq<char>>, s: StreamState, token: u32) -> Result<
    Option<Seq<char>>,
    Seq<u32>,
> {
    match (shown_text(table, s), window_text(table, with_token(s, token))) {
        (Some(shown), Some(text)) => Ok(ready_text(shown, text)),
        (None, _) => Err(shown_ids(s)),
        (Some(_), None) => Err(window_ids(with_token(s, token))),
    }
}

/// The state after pushing `token`: the token is kept unless the text shown
/// so far cannot be decoded, and the window moves exactly when text is handed out.
pub open spec fn push_state(
    table: Map<Seq<u32>, Seq<char>>,
    s: StreamState,
    token: u32,
) -> StreamState {
    if shown_text(table, s) is None {
        s
    } else if push_output(table, s, token) matches Ok(Some(_)) {
        advanced(with_token(s, token))
    } else {
        with_token(s, token)
    }
}

/// What is left to hand out at the end: the text of the window beyond
/// what has been shown, if any; or, when a decoding fails, the run of ids
/// that could not be decoded.
pub open spec fn rest_output(table: Map<Seq<u32>, Seq<char>>, s: StreamState) -> Result<
    Option<Seq<char>>,
    Seq<u32>,
> {
    match (shown_text(table, s), window_text(table, s)) {
        (Some(shown), Some(text)) => Ok(text_beyond(shown, text)),
        (None, _) => Err(shown_ids(s)),
        (Some(_), None) => Err(window_ids(s)),
    }
}

/// The message of a failure to decode `ids`.
pub open spec fn failure_text(errors: Map<Seq<u32>, Seq<char>>, ids: Seq<u32>) -> Seq<char> {
    "cannot decode: "@ + errors[ids]
}

/// Whether an exec result hands out what the model says: the same text,
/// or an error with the tokenizer's message for the run that failed.
pub open spec fn agrees(
    r: Result<Option<String>, DecodeError>,
    model: Result<Option<Seq<char>>, Seq<u32>>,
    errors: Map<Seq<u32>, Seq<char>>,
) -> bool {
    match model {
        Ok(Some(text)) => r matches Ok(Some(s)) && s@ == text,
        Ok(None) => r matches Ok(None),
        Err(ids) => r matches Err(e) && e.message@ == failure_text(errors, ids),
    }
}

/// The state of a stream that has taken `tokens` one by one, from empty.
pub open spec fn stream_after(table: Map<Seq<u32>, Seq<char>>, tokens: Seq<u32>) -> StreamState
    decreases tokens.len(),
{
    if tokens.len() == 0 {
        empty_stream()
    } else {
        push_state(table, stream_after(table, tokens.drop_last()), tokens.last())
    }
}

/// All the text handed out while a stream took `tokens` one by one.
pub open spec fn streamed_text(table: Map<Seq<u32>, Seq<char>>, tokens: Seq<u32>) -> Seq<char>
    decreases tokens.len(),
{
    if tokens.len() == 0 {
        Seq::empty()
    } else {
        let before = streamed_text(table, tokens.drop_last());
        match push_output(table, stream_after(table, tokens.drop_last()), tokens.last()) {
            Ok(Some(fresh)) => before + fresh,
            _ => before,
        }
    }
}

/// The text handed out for `tokens` in all: while they were taken, and then
/// what was still held back at the end.
pub open spec fn streamed_in_all(table: Map<Seq<u32>, Seq<char>>, tokens: Seq<u32>) -> Seq<char> {
    match rest_output(table, stream_after(table, tokens)) {
        Ok(Some(rest)) => streamed_text(table, tokens) + rest,
        _ => streamed_text(table, tokens),
    }
}

/// The tokenizer decodes `tokens` in context: no id gives no text, every
/// run of consecutive ids can be decoded, and wherever the text of the ids
/// before `j` is complete, the text of a run that begins before `j` is the
/// text of its part before `j` followed by `tail(j, k)`, a text that
/// depends on where the rest of the run lies and not on where the run
/// begins. Nothing is asked where the text before `j` is not complete, as
/// it is when a character is split over the ids on both sides of `j`. A
/// tokenizer that joins the texts of its tokens decodes so, with or
/// without a separator, and so does one that writes the first token of a
/// run differently from the others, or one token as a part of a character.
pub open spec fn decodes_in_context(
    table: Map<Seq<u32>, Seq<char>>,
    tokens: Seq<u32>,
    tail: spec_fn(int, int) -> Seq<char>,
) -> bool {
    &&& text_of(table, Seq::empty()) == Some(Seq::<char>::empty())
    &&& forall|i: int, k: int|
        #![trigger tokens.subrange(i, k)]
        0 <= i <= k <= tokens.len() ==> table.contains_key(tokens.subrange(i, k))
    &&& forall|i: int, j: int, k: int|
        #![trigger tokens.subrange(i, j), tail(j, k)]
        0 <= i < j <= k <= tokens.len() && complete(table[tokens.subrange(0, j)])
            ==> table[tokens.subrange(i, k)] == table[tokens.subrange(i, j)] + tail(j, k)
}

proof fn lemma_in_context(
    table: Map<Seq<u32>, Seq<char>>,
    tokens: Seq<u32>,
    tail: spec_fn(int, int) -> Seq<char>,
    i: int,
    j: int,
    k: int,
)
    requires
        decodes_in_context(table, tokens, tail),
        0 <= i < j <= k <= tokens.len(),
        complete(table[tokens.subrange(0, j)]),
    ensures
        table.contains_key(tokens.subrange(i, k)),
        table.contains_key(tokens.subrange(i, j)),
        table[tokens.subrange(i, k)] == table[tokens.subrange(i, j)] + tail(j, k),
{
    let _ = (tokens.subrange(i, j), tail(j, k));
    let _ = tokens.subrange(i, k);
}

/// What holds of a stream that has taken the first `n` of `tokens`: either
/// nothing has been handed out and both marks are at the start, or the
/// text handed out is the text of the ids before the second mark, and it
/// is complete.
spec fn handed_out(
    table: Map<Seq<u32>, Seq<char>>,
    tokens: Seq<u32>,
    n: int,
) -> bool {
    let s = stream_after(table, tokens.subrange(0, n));
    let out = streamed_text(table, tokens.subrange(0, n));
    &&& s.tokens == tokens.subrange(0, n)
    &&& {
        ||| s.prev_index == 0 && s.current_index == 0 && out == Seq::<char>::empty()
        ||| 0 <= s.prev_index < s.current_index <= n && complete(out) && out
            == table[tokens.subrange(0, s.current_index)]
    }
}

proof fn lemma_handed_out(
    table: Map<Seq<u32>, Seq<char>>,
    tokens: Seq<u32>,
    tail: spec_fn(int, int) -> Seq<char>,
    n: int,
)
    requires
        decodes_in_context(table, tokens, tail),
        0 <= n <= tokens.len(),
    ensures
        handed_out(table, tokens, n),
    decreases n,
{
    let p = tokens.subrange(0, n);
    if n == 0 {
        assert(p =~= Seq::<u32>::empty());
    } else {
        let q = tokens.subrange(0, n - 1);
        let t = tokens[n - 1];
        assert(p.drop_last() =~= q);
        lemma_handed_out(table, tokens, tail, n - 1);
        let s0 = stream_after(table, q);
        let s1 = with_token(s0, t);
        assert(s1.tokens =~= p);
        let a = s0.prev_index;
        let b = s0.current_index;
        assert(p.subrange(a, n) =~= tokens.subrange(a, n));
        assert(table.contains_key(tokens.subrange(a, n)));
        if b == 0 {
            assert(q.subrange(0, 0) =~= Seq::<u32>::empty());
            let text = table[tokens.subrange(0, n)];
            assert(Seq::<char>::empty() + text =~= text);
            crate::text::lemma_text_beyond_concat(Seq::<char>::empty(), text);
        } else {
            lemma_in_context(table, tokens, tail, a, b, n);
            lemma_in_context(table, tokens, tail, 0, b, n);
            assert(q.subrange(a, b) =~= tokens.subrange(a, b));
            let shown = table[tokens.subrange(a, b)];
            crate::text::lemma_text_beyond_concat(shown, tail(b, n));
            if tail(b, n).len() > 0 {
                assert((shown + tail(b, n)).last() == tail(b, n).last());
                assert((table[tokens.subrange(0, b)] + tail(b, n)).last() == tail(b, n).last());
            }
        }
    }
}

/// Streaming and batch decoding agree: where the tokenizer decodes `tokens`
/// in context, the text that a stream hands out for them, token by token
/// and then at the end, is the text of decoding them all at once.
pub proof fn lemma_streaming_matches_batch(
    table: Map<Seq<u32>, Seq<char>>,
    tokens: Seq<u32>,
    tail: spec_fn(int, int) -> Seq<char>,
)
    requires
        decodes_in_context(table, tokens, tail),
    ensures
        text_of(table, tokens) == Some(streamed_in_all(table, tokens)),
{
    let n = tokens.len() as int;
    lemma_handed_out(table, tokens, tail, n);
    assert(tokens.subrange(0, n) =~= tokens);
    let s = stream_after(table, tokens);
    let a = s.prev_index;
    let b = s.current_index;
    assert(table.contains_key(tokens.subrange(a, n)));
    if n == 0 {
        crate::text::lemma_text_beyond_concat(Seq::<char>::empty(), Seq::<char>::empty());
    } else if b == 0 {
        assert(s.tokens.subrange(0, 0) =~= Seq::<u32>::empty());
        let text = table[tokens];
        assert(Seq::<char>::empty() + text =~= text);
        crate::text::lemma_text_beyond_concat(Seq::<char>::empty(), text);
    } else {
        lemma_in_context(table, tokens, tail, a, b, n);
        lemma_in_context(table, tokens, tail, 0, b, n);
        let shown = table[tokens.subrange(a, b)];
        crate::text::lemma_text_beyond_concat(shown, tail(b, n));
    }
}

/// A tokenizer that decodes every run of `tokens` piece by piece, the text
/// of a run being the texts of its parts one after the other, decodes them
/// in context.
pub proof fn lemma_piecewise_is_in_context(table: Map<Seq<u32>, Seq<char>>, tokens: Seq<u32>)
    requires
        forall|i: int, j: int, k: int|
            #![trigger tokens.subrange(i, j), tokens.subrange(j, k)]
            0 <= i <= j <= k <= tokens.len() ==> {
                &&& table.contains_key(tokens.subrange(i, k))
                &&& table[tokens.subrange(i, k)] == table[tokens.subrange(i, j)]
                    + table[tokens.subrange(j, k)]
            },
    ensures
        decodes_in_context(table, tokens, |j: int, k: int| table[tokens.subrange(j, k)]),
{
    let tail = |j: int, k: int| table[tokens.subrange(j, k)];
    let _ = (tokens.subrange(0, 0), tokens.subrange(0, 0));
    assert(tokens.subrange(0, 0) =~= Seq::<u32>::empty());
    let e = table[tokens.subrange(0, 0)];
    assert(e =~= Seq::<char>::empty());
    assert forall|i: int, k: int|
        #![trigger tokens.subrange(i, k)]
        0 <= i <= k <= tokens.len() implies table.contains_key(tokens.subrange(i, k)) by {
        let _ = (tokens.subrange(i, i), tokens.subrange(i, k));
    }
    assert forall|i: int, j: int, k: int|
        #![trigger tokens.subrange(i, j), tail(j, k)]
        0 <= i < j <= k <= tokens.len() && complete(
            table[tokens.subrange(0, j)],
        ) implies table[tokens.subrange(i, k)] == table[tokens.subrange(i, j)] + tail(j, k) by {
        let _ = (tokens.subrange(i, j), tokens.subrange(j, k));
    }
}

/// Whether a decoder is steady, so that decoding with it returns: found by
/// going through the decoder and, for a sequence, through all its parts.
pub fn is_steady(decoder: &DecoderWrapper) -> (r: bool)
    ensures
        r == steady(*decoder),
    decreases nesting(*decoder),
{
    match decoder_kind(decoder) {
        DecoderKind::Strip { stop } => stop == 0,
        DecoderKind::Bpe => false,
        DecoderKind::Other => true,
        DecoderKind::Sequence { parts } => {
            let mut all = true;
            let mut i: usize = 0;
            while i < parts.len()
                invariant
                    i <= parts.len(),
                    all == (forall|k: int| 0 <= k < i ==> steady(#[trigger] parts@[k])),
                    forall|k: int|
                        0 <= k < parts@.len() ==> nesting(#[trigger] parts@[k]) < nesting(
                            *decoder,
                        ),
                decreases parts.len() - i,
            {
                let part = is_steady(&parts[i]);
                all = all && part;
                i = i + 1;
            }
            all
        },
    }
}

/// Whether a pre-tokenizer is steady, so that splitting with it returns:
/// found by going through the pre-tokenizer and, for a sequence, through
/// all its parts.
pub fn is_steady_splitter(splitter: &PreTokenizerWrapper) -> (r: bool)
    ensures
        r == steady_splitter(*splitter),
    decreases splitter_nesting(*splitter),
{
    match splitter_kind(splitter) {
        SplitterKind::FixedLength { length } => length != 0,
        SplitterKind::Other => true,
        SplitterKind::Sequence { parts } => {
            let mut all = true;
            let mut i: usize = 0;
            while i < parts.len()
                invariant
                    i <= parts.len(),
                    all == (forall|k: int| 0 <= k < i ==> steady_splitter(#[trigger] parts@[k])),
                    forall|k: int|
                        0 <= k < parts@.len() ==> splitter_nesting(#[trigger] parts@[k])
                            < splitter_nesting(*splitter),
                decreases parts.len() - i,
            {
                let part = is_steady_splitter(&parts[i]);
                all = all && part;
                i = i + 1;
            }
            all
        },
    }
}

/// Whether cutting with this length and stride returns for every encoding.
pub fn is_safe_cut(truncation: Option<(usize, usize)>) -> (r: bool)
    ensures
        r == cuts_safely(truncation),
{
    match truncation {
        None => true,
        Some((max_length, stride)) => max_length == 0 || stride < max_length,
    }
}

/// Wraps a tokenizer to turn a stream of token ids into a stream of text.
pub struct TokenOutputStream {
    tokenizer: Tokenizer,
    tokens: Vec<u32>,
    prev_index: usize,
    current_index: usize,
    /// Whether the tokenizer decodes steadily. Where it does not, nothing
    /// is decoded with it.
    steady: bool,
}

impl View for TokenOutputStream {
    type V = StreamState;

    closed spec fn view(&self) -> StreamState {
        StreamState {
            tokens: self.tokens@,
            prev_index: self.prev_index as int,
            current_index: self.current_index as int,
        }
    }
}

impl TokenOutputStream {
    /// The two marks are in order and lie within the ids seen so far, and
    /// it is on record whether the tokenizer decodes steadily.
    pub closed spec fn wf(&self) -> bool {
        &&& self.prev_index <= self.current_index <= self.tokens.len()
        &&& self.steady == decodes_steadily(self.tokenizer)
    }

    /// What is decoded with the wrapped tokenizer.
    pub closed spec fn table(&self) -> Map<Seq<u32>, Seq<char>> {
        decodable(self.tokenizer)
    }

    /// The vocabulary of the wrapped tokenizer.
    pub closed spec fn vocab(&self) -> Map<Seq<char>, u32> {
        vocabulary(self.tokenizer)
    }

    /// What cannot be decoded with the wrapped tokenizer, and why.
    pub closed spec fn failures(&self) -> Map<Seq<u32>, Seq<char>> {
        undecodable(self.tokenizer)
    }

    /// What the wrapped tokenizer is taken to encode.
    pub closed spec fn codes(&self) -> Map<Seq<char>, Result<Seq<u32>, Seq<char>>> {
        encodable(self.tokenizer)
    }

    /// In a well-formed stream the two marks are in order and lie within
    /// the ids seen so far.
    pub proof fn lemma_wf_orders_marks(&self)
        requires
            self.wf(),
        ensures
            0 <= self@.prev_index <= self@.current_index <= self@.tokens.len(),
    {
    }

    /// A stream around `tokenizer` that has seen no token. A tokenizer
    /// whose decoder is not steady is taken, but nothing is decoded with it:
    /// every decoding fails.
    pub fn new(tokenizer: Tokenizer) -> (stream: Self)
        ensures
            stream.wf(),
            stream@ == empty_stream(),
            stream.table() == decodable(tokenizer),
            stream.vocab() == vocabulary(tokenizer),
            stream.codes() == encodable(tokenizer),
            stream.failures() == undecodable(tokenizer),
    {
        let steady = match decoder(&tokenizer) {
            Some(decoder) => is_steady(decoder),
            None => true,
        };
        TokenOutputStream { tokenizer, tokens: Vec::new(), prev_index: 0, current_index: 0, steady }
    }

    /// Encodes a text, special tokens not added. A tokenizer whose
    /// truncation does not cut safely, or whose pre-tokenizer is not
    /// steady, is not called: the text is refused.
    pub fn encode(&self, text: &str) -> (r: Result<Vec<u32>, String>)
        ensures
            is_encoding(self.codes(), text@, encoded(r)),
    {
        if !is_safe_cut(truncation(&self.tokenizer)) {
            return Err(
                String::from_str(
                    "the tokenizer's truncation stride is not below its maximum length",
                ),
            );
        }
        let steady = match pre_tokenizer(&self.tokenizer) {
            Some(splitter) => is_steady_splitter(splitter),
            None => true,
        };
        if !steady {
            return Err(String::from_str("the tokenizer's pre-tokenizer may not return"));
        }
        encode(&self.tokenizer, text)
    }

    /// Gives the tokenizer back.
    pub fn into_inner(self) -> (tokenizer: Tokenizer)
        ensures
            decodable(tokenizer) == self.table(),
            vocabulary(tokenizer) == self.vocab(),
            encodable(tokenizer) == self.codes(),
            undecodable(tokenizer) == self.failures(),
    {
        self.tokenizer
    }

    /// The wrapped tokenizer.
    pub fn tokenizer(&self) -> (tokenizer: &Tokenizer)
        ensures
            decodable(*tokenizer) == self.table(),
            vocabulary(*tokenizer) == self.vocab(),
            encodable(*tokenizer) == self.codes(),
            undecodable(*tokenizer) == self.failures(),
    {
        &self.tokenizer
    }

    fn decode_range(&self, from: usize, to: usize) -> (r: Result<String, DecodeError>)
        requires
            self.steady == decodes_steadily(self.tokenizer),
            from <= to <= self@.tokens.len(),
        ensures
            match r {
                Ok(text) => text_of(self.table(), self@.tokens.subrange(from as int, to as int))
                    == Some(text@),
                Err(e) => text_of(self.table(), self@.tokens.subrange(from as int, to as int))
                    is None && e.message@ == failure_text(
                    self.failures(),
                    self@.tokens.subrange(from as int, to as int),
                ),
            },
    {
        if !self.steady {
            return Err(
                DecodeError {
                    message: String::from_str("cannot decode: ").concat(
                        "the tokenizer's decoder may not return",
                    ),
                },
            );
        }
        match decode(&self.tokenizer, slice_subrange(self.tokens.as_slice(), from, to)) {
            Ok(text) => Ok(text),
            Err(e) => Err(
                DecodeError { message: String::from_str("cannot decode: ").concat(e.as_str()) },
            ),
        }
    }

    fn decode_shown(&self) -> (r: Result<String, DecodeError>)
        requires
            self.wf(),
        ensures
            match r {
                Ok(text) => shown_text(self.table(), self@) == Some(text@),
                Err(e) => shown_text(self.table(), self@) is None && e.message@
                    == failure_text(self.failures(), shown_ids(self@)),
            },
    {
        if self.tokens.is_empty() {
            Ok(String::new())
        } else {
            self.decode_range(self.prev_index, self.current_index)
        }
    }

    /// Takes the next token id and hands out the text that became complete
    /// with it, if any.
    pub fn next_token(&mut self, token: u32) -> (r: Result<Option<String>, DecodeError>)
        requires
            old(self).wf(),
        ensures
            final(self).wf(),
            final(self).table() == old(self).table(),
            final(self).vocab() == old(self).vocab(),
            final(self).codes() == old(self).codes(),
            final(self).failures() == old(self).failures(),
            final(self)@ == push_state(old(self).table(), old(self)@, token),
            agrees(r, push_output(old(self).table(), old(self)@, token), old(self).failures()),
    {
        let shown = match self.decode_shown() {
            Ok(shown) => shown,
            Err(e) => {
                return Err(e);
            },
        };
        self.tokens.push(token);
        let text = match self.decode_range(self.prev_index, self.tokens.len()) {
            Ok(text) => text,
            Err(e) => {
                return Err(e);
            },
        };
        let complete = match last_char(text.as_str()) {
            Some(c) => is_alphanumeric(c),
            None => false,
        };
        let fresh = beyond(shown.as_str(), text.as_str());
        if complete && fresh.is_some() {
            self.prev_index = self.current_index;
            self.current_index = self.tokens.len();
            Ok(Some(String::from_str(fresh.unwrap())))
        } else {
            Ok(None)
        }
    }

    /// The text that is still held back, if any. The state stays as it is.
    pub fn decode_rest(&self) -> (r: Result<Option<String>, DecodeError>)
        requires
            self.wf(),
        ensures
            agrees(r, rest_output(self.table(), self@), self.failures()),
    {
        let shown = match self.decode_shown() {
            Ok(shown) => shown,
            Err(e) => {
                return Err(e);
            },
        };
        let text = match self.decode_range(self.prev_index, self.tokens.len()) {
            Ok(text) => text,
            Err(e) => {
                return Err(e);
            },
        };
        match beyond(shown.as_str(), text.as_str()) {
            Some(fresh) => Ok(Some(String::from_str(fresh))),
            None => Ok(None),
        }
    }

    /// The text of all ids seen so far, decoded at once.
    pub fn decode_all(&self) -> (r: Result<String, DecodeError>)
        requires
            self.wf(),
        ensures
            match r {
                Ok(text) => text_of(self.table(), self@.tokens) == Some(text@),
                Err(e) => text_of(self.table(), self@.tokens) is None && e.message@
                    == failure_text(self.failures(), self@.tokens),
            },
    {
        assert(self@.tokens.subrange(0, self@.tokens.len() as int) =~= self@.tokens);
        self.decode_range(0, self.tokens.len())
    }

    /// The id that the vocabulary gives to a token's text.
    pub fn get_token(&self, token_s: &str) -> (id: Option<u32>)
        ensures
            id == if self.vocab().contains_key(token_s@) {
                Some(self.vocab()[token_s@])
            } else {
                None
            },
    {
        token_to_id(&self.tokenizer, token_s)
    }

    /// Forgets all ids: the state of a stream that has seen no token.
    pub fn clear(&mut self)
        requires
            old(self).wf(),
        ensures
            final(self).wf(),
            final(self)@ == empty_stream(),
            final(self).table() == old(self).table(),
            final(self).vocab() == old(self).vocab(),
            final(self).codes() == old(self).codes(),
            final(self).failures() == old(self).failures(),
    {
        self.prev_index = 0;
        self.current_index = 0;
        self.tokens.clear();
    }
}

} // verus!

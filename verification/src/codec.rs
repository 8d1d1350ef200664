//! The boundary to the `tokenizers` crate and to std's character classes.
//! The functions marked `external_body` and the names without a body are
//! taken on trust: each states what is relied on. A tokenizer is called
//! only where its settings let the call return: its decoder, its
//! pre-tokenizer and its truncation are looked at first.

use vstd::prelude::*;
use tokenizers::{DecoderWrapper, PreTokenizerWrapper, Tokenizer};

verus! {

/// `tokenizers::Tokenizer`, a vocabulary with its rules for encoding and decoding.
#[verifier::external_type_specification]
#[verifier::external_body]
pub struct ExTokenizer(Tokenizer);

/// `tokenizers::DecoderWrapper`, one decoder of a tokenizer: a single step,
/// or a sequence of decoders.
#[verifier::external_type_specification]
#[verifier::external_body]
pub struct ExDecoderWrapper(DecoderWrapper);

/// What a decoder is, as far as it matters for whether decoding returns.
pub enum DecoderKind<'a> {
    /// A decoder that strips up to `stop` characters from the end of each token.
    Strip { stop: usize },
    /// The decoder of a BPE model with an end-of-word suffix.
    Bpe,
    /// A sequence of decoders, applied in turn.
    Sequence { parts: &'a [DecoderWrapper] },
    /// Any other decoder.
    Other,
}

/// `tokenizers::PreTokenizerWrapper`, one pre-tokenizer of a tokenizer: a
/// single step that splits a text into words, or a sequence of them.
#[verifier::external_type_specification]
#[verifier::external_body]
pub struct ExPreTokenizerWrapper(PreTokenizerWrapper);

/// What a pre-tokenizer is, as far as it matters for whether encoding returns.
pub enum SplitterKind<'a> {
    /// A pre-tokenizer that splits into pieces of `length` characters.
    FixedLength { length: usize },
    /// A sequence of pre-tokenizers, applied in turn.
    Sequence { parts: &'a [PreTokenizerWrapper] },
    /// Any other pre-tokenizer.
    Other,
}

/// Whether a pre-tokenizer is steady: it does not split into pieces of no
/// length, and it is no sequence that holds a pre-tokenizer that is not
/// steady. Splitting into pieces of no length does not return.
pub uninterp spec fn steady_splitter(splitter: PreTokenizerWrapper) -> bool;

/// How deep a pre-tokenizer is nested: a sequence lies above each of its parts.
pub uninterp spec fn splitter_nesting(splitter: PreTokenizerWrapper) -> nat;

/// Whether a tokenizer has no pre-tokenizer or a steady one.
pub uninterp spec fn splits_steadily(tokenizer: Tokenizer) -> bool;

/// Whether every pre-tokenizer of `parts` is steady.
pub open spec fn all_steady_splitters(parts: Seq<PreTokenizerWrapper>) -> bool {
    forall|i: int| 0 <= i < parts.len() ==> steady_splitter(#[trigger] parts[i])
}

/// The text by which a pre-tokenizer that is not steady is refused.
pub open spec fn unsteady_splitter() -> Seq<char> {
    "the tokenizer's pre-tokenizer may not return"@
}

/// How encodings are cut, if they are: the greatest length and the stride.
pub uninterp spec fn truncation_of(tokenizer: Tokenizer) -> Option<(usize, usize)>;

/// Whether a decoder is steady: it is no BPE decoder, no Strip decoder that
/// strips at the end, and no sequence that holds a decoder that is not
/// steady. A steady decoder returns on every list of tokens. A BPE decoder
/// counts below zero on an empty list, and a Strip decoder that strips at
/// the end reads before the start of a short token.
pub uninterp spec fn steady(decoder: DecoderWrapper) -> bool;

/// How deep a decoder is nested: a sequence lies above each of its parts.
pub uninterp spec fn nesting(decoder: DecoderWrapper) -> nat;

/// Whether a tokenizer has no decoder or a steady one. Decoding then
/// returns for every sequence of ids.
pub uninterp spec fn decodes_steadily(tokenizer: Tokenizer) -> bool;

/// Whether every decoder of `parts` is steady.
pub open spec fn all_steady(parts: Seq<DecoderWrapper>) -> bool {
    forall|i: int| 0 <= i < parts.len() ==> steady(#[trigger] parts[i])
}

/// Whether cutting returns for every encoding: nothing is cut, or to no
/// length at all, or the stride is below the greatest length. With a
/// stride that is not, cutting an encoding that is too long does not return.
pub open spec fn cuts_safely(truncation: Option<(usize, usize)>) -> bool {
    match truncation {
        None => true,
        Some((max_length, stride)) => max_length == 0 || stride < max_length,
    }
}

/// The text by which a decoder that is not steady is refused.
pub open spec fn unsteady_decoder() -> Seq<char> {
    "the tokenizer's decoder may not return"@
}

/// The text by which a truncation that does not cut safely is refused.
pub open spec fn unsafe_truncation() -> Seq<char> {
    "the tokenizer's truncation stride is not below its maximum length"@
}

/// What can be decoded with a tokenizer: what it decodes if it decodes
/// steadily, and nothing else.
pub open spec fn decodable(tokenizer: Tokenizer) -> Map<Seq<u32>, Seq<char>> {
    if decodes_steadily(tokenizer) {
        decoding(tokenizer)
    } else {
        Map::empty()
    }
}

/// What cannot be decoded with a tokenizer, each id sequence with the
/// reason: the tokenizer's own error if it decodes steadily, else every
/// sequence, since its decoder is refused.
pub open spec fn undecodable(tokenizer: Tokenizer) -> Map<Seq<u32>, Seq<char>> {
    if decodes_steadily(tokenizer) {
        decode_errors(tokenizer)
    } else {
        Map::total(|ids: Seq<u32>| unsteady_decoder())
    }
}

/// Whether encoding with a tokenizer returns for every text, as far as its
/// truncation and its pre-tokenizer go.
pub open spec fn encodes_steadily(tokenizer: Tokenizer) -> bool {
    cuts_safely(truncation_of(tokenizer)) && splits_steadily(tokenizer)
}

/// What a tokenizer is taken to encode: its encoding if it encodes
/// steadily, else a refusal for every text.
pub open spec fn encodable(tokenizer: Tokenizer) -> Map<Seq<char>, Result<Seq<u32>, Seq<char>>> {
    if !cuts_safely(truncation_of(tokenizer)) {
        Map::total(|text: Seq<char>| Err::<Seq<u32>, Seq<char>>(unsafe_truncation()))
    } else if !splits_steadily(tokenizer) {
        Map::total(|text: Seq<char>| Err::<Seq<u32>, Seq<char>>(unsteady_splitter()))
    } else {
        encoding(tokenizer)
    }
}

/// What a tokenizer decodes, special tokens skipped: the id sequences that it
/// can decode, each with its text.
pub uninterp spec fn decoding(tokenizer: Tokenizer) -> Map<Seq<u32>, Seq<char>>;

/// What a tokenizer cannot decode, special tokens skipped: each such id
/// sequence with the message of the tokenizer's error.
pub uninterp spec fn decode_errors(tokenizer: Tokenizer) -> Map<Seq<u32>, Seq<char>>;

/// What a tokenizer encodes, special tokens not added, where it draws on
/// no chance: each such text with its ids, or with the message of the
/// tokenizer's error. A text is left out where the tokenizer's model
/// samples when it encodes (one that drops merges at random, or that
/// samples among segmentations): the same text then gives different ids.
pub uninterp spec fn encoding(tokenizer: Tokenizer) -> Map<
    Seq<char>,
    Result<Seq<u32>, Seq<char>>,
>;

/// The vocabulary of a tokenizer, added tokens included: token text to id.
pub uninterp spec fn vocabulary(tokenizer: Tokenizer) -> Map<Seq<char>, u32>;

/// Whether a character is alphabetic or numeric in Unicode's sense.
pub uninterp spec fn alphanumeric(c: char) -> bool;

/// The text that `table` gives for `ids`, if it has one.
pub open spec fn text_of(table: Map<Seq<u32>, Seq<char>>, ids: Seq<u32>) -> Option<Seq<char>> {
    if table.contains_key(ids) {
        Some(table[ids])
    } else {
        None
    }
}

/// What came back from encoding, as plain values.
pub open spec fn encoded(r: Result<Vec<u32>, String>) -> Result<Seq<u32>, Seq<char>> {
    match r {
        Ok(ids) => Ok(ids@),
        Err(message) => Err(message@),
    }
}

/// Whether `outcome` can be what the tokenizer gave for `text`: it is the
/// encoding of the text wherever that is fixed.
pub open spec fn is_encoding(
    codes: Map<Seq<char>, Result<Seq<u32>, Seq<char>>>,
    text: Seq<char>,
    outcome: Result<Seq<u32>, Seq<char>>,
) -> bool {
    codes.contains_key(text) ==> codes[text] == outcome
}

/// `Tokenizer::get_truncation`: the greatest length and the stride that
/// encodings are cut to, if they are cut.
#[verifier::external_body]
pub(crate) fn truncation(tokenizer: &Tokenizer) -> (r: Option<(usize, usize)>)
    ensures
        r == truncation_of(*tokenizer),
{
    match tokenizer.get_truncation() {
        Some(params) => Some((params.max_length, params.stride)),
        None => None,
    }
}

/// `Tokenizer::get_pre_tokenizer`: the pre-tokenizer of the tokenizer, if it
/// has one. The tokenizer splits steadily exactly when it has none or a
/// steady one.
#[verifier::external_body]
pub(crate) fn pre_tokenizer(tokenizer: &Tokenizer) -> (r: Option<&PreTokenizerWrapper>)
    ensures
        splits_steadily(*tokenizer) <==> (r matches Some(splitter) ==> steady_splitter(*splitter)),
{
    tokenizer.get_pre_tokenizer()
}

/// Tells the variants of `PreTokenizerWrapper` apart, with the parts of a
/// sequence. A pre-tokenizer of fixed length is steady exactly when the
/// length is not 0, a sequence is exactly when all its parts are, and every
/// other pre-tokenizer is.
#[verifier::external_body]
pub(crate) fn splitter_kind<'a>(splitter: &'a PreTokenizerWrapper) -> (r: SplitterKind<'a>)
    ensures
        match r {
            SplitterKind::FixedLength { length } => steady_splitter(*splitter) <==> length != 0,
            SplitterKind::Sequence { parts } => steady_splitter(*splitter)
                == all_steady_splitters(parts@) && forall|i: int|
                0 <= i < parts@.len() ==> splitter_nesting(#[trigger] parts@[i])
                    < splitter_nesting(*splitter),
            SplitterKind::Other => steady_splitter(*splitter),
        },
{
    match splitter {
        PreTokenizerWrapper::FixedLength(fixed) => SplitterKind::FixedLength {
            length: fixed.length,
        },
        PreTokenizerWrapper::Sequence(sequence) => SplitterKind::Sequence {
            parts: sequence.as_ref(),
        },
        _ => SplitterKind::Other,
    }
}

/// `Tokenizer::get_decoder`: the decoder of the tokenizer, if it has one.
/// The tokenizer decodes steadily exactly when it has none or a steady one.
#[verifier::external_body]
pub(crate) fn decoder(tokenizer: &Tokenizer) -> (r: Option<&DecoderWrapper>)
    ensures
        decodes_steadily(*tokenizer) <==> (r matches Some(decoder) ==> steady(*decoder)),
{
    tokenizer.get_decoder()
}

/// Tells the variants of `DecoderWrapper` apart, with `Sequence::get_decoders`
/// for the parts of a sequence. A Strip decoder is steady exactly when it
/// strips nothing at the end, a BPE decoder is not, a sequence is exactly
/// when all its parts are, and every other decoder is.
#[verifier::external_body]
pub(crate) fn decoder_kind<'a>(decoder: &'a DecoderWrapper) -> (r: DecoderKind<'a>)
    ensures
        match r {
            DecoderKind::Strip { stop } => steady(*decoder) <==> stop == 0,
            DecoderKind::Bpe => !steady(*decoder),
            DecoderKind::Sequence { parts } => steady(*decoder) == all_steady(parts@)
                && forall|i: int|
                0 <= i < parts@.len() ==> nesting(#[trigger] parts@[i]) < nesting(*decoder),
            DecoderKind::Other => steady(*decoder),
        },
{
    match decoder {
        DecoderWrapper::Strip(strip) => DecoderKind::Strip { stop: strip.stop },
        DecoderWrapper::BPE(_) => DecoderKind::Bpe,
        DecoderWrapper::Sequence(sequence) => DecoderKind::Sequence {
            parts: sequence.get_decoders(),
        },
        DecoderWrapper::ByteLevel(_) | DecoderWrapper::WordPiece(_) | DecoderWrapper::Metaspace(_)
        | DecoderWrapper::CTC(_) | DecoderWrapper::Replace(_) | DecoderWrapper::Fuse(_)
        | DecoderWrapper::ByteFallback(_) => DecoderKind::Other,
    }
}

/// `Tokenizer::decode` with `skip_special_tokens` set, on a tokenizer that
/// decodes steadily: the text that the tokenizer decodes from `ids`, or
/// the message of its error.
#[verifier::external_body]
pub(crate) fn decode(tokenizer: &Tokenizer, ids: &[u32]) -> (r: Result<String, String>)
    requires
        decodes_steadily(*tokenizer),
    ensures
        match r {
            Ok(text) => text_of(decoding(*tokenizer), ids@) == Some(text@),
            Err(message) => text_of(decoding(*tokenizer), ids@) is None && text_of(
                decode_errors(*tokenizer),
                ids@,
            ) == Some(message@),
        },
{
    tokenizer.decode(ids, true).map_err(|e| e.to_string())
}

/// `Tokenizer::encode` without special tokens, then `Encoding::get_ids`, on
/// a tokenizer that encodes steadily: the ids of the text, or the message of
/// the tokenizer's error. Where the tokenizer draws on no chance for the
/// text, this is its encoding; of ids that were sampled nothing is claimed.
#[verifier::external_body]
pub(crate) fn encode(tokenizer: &Tokenizer, text: &str) -> (r: Result<Vec<u32>, String>)
    requires
        encodes_steadily(*tokenizer),
    ensures
        is_encoding(encoding(*tokenizer), text@, encoded(r)),
{
    match tokenizer.encode(text, false) {
        Ok(encoding) => Ok(encoding.get_ids().to_vec()),
        Err(e) => Err(e.to_string()),
    }
}

/// `Tokenizer::token_to_id`: the id that the vocabulary gives to `token`.
#[verifier::external_body]
pub(crate) fn token_to_id(tokenizer: &Tokenizer, token: &str) -> (r: Option<u32>)
    ensures
        r == if vocabulary(*tokenizer).contains_key(token@) {
            Some(vocabulary(*tokenizer)[token@])
        } else {
            None
        },
{
    tokenizer.token_to_id(token)
}

/// `char::is_alphanumeric`.
#[verifier::external_body]
pub(crate) fn is_alphanumeric(c: char) -> (r: bool)
    ensures
        r == alphanumeric(c),
{
    c.is_alphanumeric()
}

} // verus!

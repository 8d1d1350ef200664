use chat_generation::text::{beyond, last_char};
use chat_generation::tokenizer::{is_safe_cut, is_steady, is_steady_splitter, TokenOutputStream};
use tokenizers::pre_tokenizers::fixed_length::FixedLength;
use tokenizers::pre_tokenizers::whitespace::Whitespace;
use tokenizers::PreTokenizerWrapper;
use tokenizers::decoders::bpe::BPEDecoder;
use tokenizers::decoders::fuse::Fuse;
use tokenizers::decoders::sequence::Sequence;
use tokenizers::decoders::strip::Strip;
use tokenizers::decoders::wordpiece::WordPiece;
use tokenizers::normalizers::replace::Replace;
use tokenizers::{DecoderWrapper, TruncationParams};
use tokenizers::decoders::byte_fallback::ByteFallback;
use tokenizers::models::wordlevel::WordLevel;
use tokenizers::pre_tokenizers::metaspace::Metaspace;
use tokenizers::{AddedToken, Tokenizer};

fn word_tokenizer(words: &[&str]) -> Tokenizer {
    let vocab = words
        .iter()
        .enumerate()
        .map(|(i, w)| (w.to_string(), i as u32))
        .collect();
    let model = WordLevel::builder()
        .vocab(vocab)
        .unk_token("[UNK]".to_string())
        .build()
        .unwrap();
    Tokenizer::new(model)
}

fn byte_tokenizer(words: &[&str]) -> Tokenizer {
    let mut tokenizer = word_tokenizer(words);
    tokenizer.with_decoder(Some(ByteFallback::new()));
    tokenizer
}

#[test]
fn words_come_out_one_by_one() {
    let mut stream = TokenOutputStream::new(word_tokenizer(&["[UNK]", "hello", "world", "again"]));
    assert_eq!(stream.next_token(1).unwrap(), Some("hello".to_string()));
    assert_eq!(stream.next_token(2).unwrap(), Some(" world".to_string()));
    assert_eq!(stream.next_token(3).unwrap(), Some(" again".to_string()));
    assert_eq!(stream.decode_rest().unwrap(), None);
}

#[test]
fn text_that_ends_unfinished_is_held_back() {
    let mut stream = TokenOutputStream::new(word_tokenizer(&["[UNK]", "hello", "!", "again"]));
    assert_eq!(stream.next_token(1).unwrap(), Some("hello".to_string()));
    assert_eq!(stream.next_token(2).unwrap(), None);
    assert_eq!(stream.decode_rest().unwrap(), Some(" !".to_string()));
    assert_eq!(stream.next_token(3).unwrap(), Some(" ! again".to_string()));
    assert_eq!(stream.decode_rest().unwrap(), None);
}

#[test]
fn decode_rest_leaves_the_state_alone() {
    let mut stream = TokenOutputStream::new(word_tokenizer(&["[UNK]", "hello", "!"]));
    stream.next_token(1).unwrap();
    stream.next_token(2).unwrap();
    assert_eq!(stream.decode_rest().unwrap(), Some(" !".to_string()));
    assert_eq!(stream.decode_rest().unwrap(), Some(" !".to_string()));
}

#[test]
fn a_character_split_over_two_tokens_waits_for_the_second() {
    let mut stream = TokenOutputStream::new(byte_tokenizer(&["[UNK]", "caf", "<0xC3>", "<0xA9>", "s"]));
    assert_eq!(stream.next_token(1).unwrap(), Some("caf".to_string()));
    assert_eq!(stream.next_token(2).unwrap(), None);
    assert_eq!(stream.next_token(3).unwrap(), Some("\u{e9}".to_string()));
    assert_eq!(stream.next_token(4).unwrap(), Some("s".to_string()));
    assert_eq!(stream.decode_all().unwrap(), "caf\u{e9}s");
}

#[test]
fn half_a_character_at_the_end_is_flushed_as_decoded() {
    let mut stream = TokenOutputStream::new(byte_tokenizer(&["[UNK]", "caf", "<0xC3>"]));
    assert_eq!(stream.next_token(1).unwrap(), Some("caf".to_string()));
    assert_eq!(stream.next_token(2).unwrap(), None);
    assert_eq!(stream.decode_rest().unwrap(), Some("\u{fffd}".to_string()));
}

#[test]
fn streaming_gives_the_text_of_decoding_at_once() {
    let words = ["[UNK]", "the", "quick", ",", "brown", "fox", "!", "?", "42"];
    let ids: Vec<u32> = vec![1, 2, 3, 4, 6, 7, 5, 8, 3, 3, 1, 6];
    let tokenizer = word_tokenizer(&words);
    let whole = tokenizer.decode(&ids, true).unwrap();
    assert_eq!(whole, "the quick , brown ! ? fox 42 , , the !");
    let mut stream = TokenOutputStream::new(tokenizer);
    let mut streamed = String::new();
    for id in ids.iter() {
        if let Some(text) = stream.next_token(*id).unwrap() {
            streamed.push_str(&text);
        }
    }
    if let Some(rest) = stream.decode_rest().unwrap() {
        streamed.push_str(&rest);
    }
    assert_eq!(streamed, whole);
    assert_eq!(stream.decode_all().unwrap(), whole);
}

#[test]
fn streaming_bytes_gives_the_text_of_decoding_at_once() {
    let words = ["[UNK]", "na", "<0xC3>", "<0xAF>", "ve", " ", "<0xE2>", "<0x82>", "<0xAC>"];
    let ids: Vec<u32> = vec![1, 2, 3, 4, 5, 6, 7, 8, 5, 1];
    let tokenizer = byte_tokenizer(&words);
    let whole = tokenizer.decode(&ids, true).unwrap();
    assert_eq!(whole, "na\u{ef}ve \u{20ac} na");
    let mut stream = TokenOutputStream::new(tokenizer);
    let mut streamed = String::new();
    for id in ids.iter() {
        if let Some(text) = stream.next_token(*id).unwrap() {
            assert!(!text.contains('\u{fffd}'));
            streamed.push_str(&text);
        }
    }
    if let Some(rest) = stream.decode_rest().unwrap() {
        streamed.push_str(&rest);
    }
    assert_eq!(streamed, whole);
}

#[test]
fn special_tokens_are_skipped() {
    let mut tokenizer = word_tokenizer(&["[UNK]", "hello"]);
    tokenizer
        .add_special_tokens([AddedToken::from("<|im_end|>", true)])
        .unwrap();
    let end = tokenizer.token_to_id("<|im_end|>").unwrap();
    let mut stream = TokenOutputStream::new(tokenizer);
    assert_eq!(stream.next_token(1).unwrap(), Some("hello".to_string()));
    assert_eq!(stream.next_token(end).unwrap(), None);
    assert_eq!(stream.decode_rest().unwrap(), None);
    assert_eq!(stream.decode_all().unwrap(), "hello");
}

#[test]
fn an_empty_stream_has_nothing_to_hand_out() {
    let stream = TokenOutputStream::new(word_tokenizer(&["[UNK]", "hello"]));
    assert_eq!(stream.decode_rest().unwrap(), None);
    assert_eq!(stream.decode_all().unwrap(), "");
}

#[test]
fn clear_starts_over() {
    let mut stream = TokenOutputStream::new(word_tokenizer(&["[UNK]", "hello", "world"]));
    assert_eq!(stream.next_token(1).unwrap(), Some("hello".to_string()));
    assert_eq!(stream.next_token(2).unwrap(), Some(" world".to_string()));
    stream.clear();
    assert_eq!(stream.decode_all().unwrap(), "");
    assert_eq!(stream.next_token(2).unwrap(), Some("world".to_string()));
    assert_eq!(stream.decode_all().unwrap(), "world");
}

#[test]
fn get_token_looks_the_vocabulary_up() {
    let stream = TokenOutputStream::new(word_tokenizer(&["[UNK]", "hello", "world"]));
    assert_eq!(stream.get_token("hello"), Some(1));
    assert_eq!(stream.get_token("world"), Some(2));
    assert_eq!(stream.get_token("absent"), None);
}

#[test]
fn tokenizer_and_into_inner_hand_the_tokenizer_out() {
    let stream = TokenOutputStream::new(word_tokenizer(&["[UNK]", "hello", "world"]));
    assert_eq!(stream.tokenizer().token_to_id("world"), Some(2));
    let tokenizer = stream.into_inner();
    assert_eq!(tokenizer.decode(&[1, 2], true).unwrap(), "hello world");
}

#[test]
fn beyond_cuts_behind_the_text_shown() {
    assert_eq!(beyond("hello", "hello world"), Some(" world"));
    assert_eq!(beyond("", "x"), Some("x"));
    assert_eq!(beyond("hello", "hello"), None);
    assert_eq!(beyond("hello", "hell"), None);
    assert_eq!(beyond("", ""), None);
    assert_eq!(beyond("ab", "xyz"), Some("z"));
}

#[test]
fn beyond_never_cuts_inside_a_character() {
    assert_eq!(beyond("a", "\u{e9}\u{e9}"), None);
    assert_eq!(beyond("ab", "\u{e9}\u{e9}"), Some("\u{e9}"));
    assert_eq!(beyond("\u{fffd}", "\u{e9}\u{e9}"), None);
    assert_eq!(beyond("caf\u{fffd}", "caf\u{e9}"), None);
}

#[test]
fn last_char_of_a_text() {
    assert_eq!(last_char("hello"), Some('o'));
    assert_eq!(last_char("caf\u{e9}"), Some('\u{e9}'));
    assert_eq!(last_char(""), None);
}

#[test]
fn a_first_token_written_differently_streams_the_same() {
    let words = ["[UNK]", "\u{2581}Hello", "\u{2581}world", "!", "\u{2581}again"];
    let ids: Vec<u32> = vec![1, 2, 3, 4, 2, 3];
    let mut tokenizer = word_tokenizer(&words);
    tokenizer.with_decoder(Some(Metaspace::default()));
    let whole = tokenizer.decode(&ids, true).unwrap();
    assert_eq!(whole, "Hello world! again world!");
    assert_eq!(tokenizer.decode(&ids[1..], true).unwrap(), "world! again world!");
    let mut stream = TokenOutputStream::new(tokenizer);
    let mut pieces = Vec::new();
    for id in ids.iter() {
        pieces.push(stream.next_token(*id).unwrap());
    }
    assert_eq!(
        pieces,
        vec![
            Some("Hello".to_string()),
            Some(" world".to_string()),
            None,
            Some("! again".to_string()),
            Some(" world".to_string()),
            None,
        ]
    );
    let rest = stream.decode_rest().unwrap();
    assert_eq!(rest, Some("!".to_string()));
    let streamed: String = pieces.into_iter().flatten().chain(rest).collect();
    assert_eq!(streamed, whole);
}

#[test]
fn a_number_completes_a_text_as_a_letter_does() {
    let mut stream = TokenOutputStream::new(word_tokenizer(&["[UNK]", "42", "\u{662f}", "-", "\u{b2}"]));
    assert_eq!(stream.next_token(1).unwrap(), Some("42".to_string()));
    assert_eq!(stream.next_token(3).unwrap(), None);
    assert_eq!(stream.next_token(2).unwrap(), Some(" - \u{662f}".to_string()));
    assert_eq!(stream.next_token(4).unwrap(), Some(" \u{b2}".to_string()));
}

#[test]
fn a_decoder_is_steady_unless_it_may_not_return() {
    assert!(is_steady(&DecoderWrapper::Strip(Strip::new(' ', 1, 0))));
    assert!(is_steady(&DecoderWrapper::Strip(Strip::new(' ', 0, 0))));
    assert!(!is_steady(&DecoderWrapper::Strip(Strip::new(' ', 0, 1))));
    assert!(!is_steady(&DecoderWrapper::Strip(Strip::new(' ', 1, 1))));
    assert!(!is_steady(&DecoderWrapper::BPE(BPEDecoder::default())));
    assert!(is_steady(&DecoderWrapper::ByteFallback(ByteFallback::new())));
    assert!(is_steady(&DecoderWrapper::Fuse(Fuse::new())));
    assert!(is_steady(&DecoderWrapper::WordPiece(WordPiece::default())));
    assert!(is_steady(&DecoderWrapper::Metaspace(Metaspace::default())));
    assert!(is_steady(&DecoderWrapper::Replace(Replace::new("a", "b").unwrap())));
}

#[test]
fn a_sequence_is_steady_when_all_its_parts_are() {
    let good = || DecoderWrapper::Strip(Strip::new(' ', 1, 0));
    let bad = || DecoderWrapper::Strip(Strip::new(' ', 0, 2));
    let sequence = |parts: Vec<DecoderWrapper>| DecoderWrapper::Sequence(Sequence::new(parts));
    assert!(is_steady(&sequence(vec![])));
    assert!(is_steady(&sequence(vec![good(), DecoderWrapper::Fuse(Fuse::new()), good()])));
    assert!(!is_steady(&sequence(vec![good(), bad(), good()])));
    assert!(!is_steady(&sequence(vec![good(), good(), bad()])));
    assert!(is_steady(&sequence(vec![good(), sequence(vec![good(), sequence(vec![])])])));
    assert!(!is_steady(&sequence(vec![good(), sequence(vec![good(), sequence(vec![bad()])])])));
    assert!(!is_steady(&sequence(vec![
        sequence(vec![DecoderWrapper::BPE(BPEDecoder::default())]),
        good(),
    ])));
}

#[test]
fn a_decoder_that_may_not_return_is_never_called() {
    for decoder in [
        DecoderWrapper::Strip(Strip::new('h', 0, 1)),
        DecoderWrapper::BPE(BPEDecoder::default()),
        DecoderWrapper::Sequence(Sequence::new(vec![DecoderWrapper::Strip(Strip::new('h', 1, 1))])),
    ] {
        let mut tokenizer = word_tokenizer(&["[UNK]", "h", "hello"]);
        tokenizer.with_decoder(Some(decoder));
        let mut stream = TokenOutputStream::new(tokenizer);
        let expected = "cannot decode: the tokenizer's decoder may not return";
        assert_eq!(stream.decode_all().unwrap_err().message, expected);
        assert_eq!(stream.next_token(1).unwrap_err().message, expected);
        assert_eq!(stream.next_token(2).unwrap_err().message, expected);
        assert_eq!(stream.decode_rest().unwrap_err().message, expected);
        assert_eq!(stream.get_token("hello"), Some(2));
    }
}

#[test]
fn a_sequence_that_strips_at_the_start_streams() {
    let words = ["[UNK]", "\u{2581}Hello", "\u{2581}world", "<0xC3>", "<0xA9>", "!"];
    let mut tokenizer = word_tokenizer(&words);
    tokenizer.with_decoder(Some(Sequence::new(vec![
        DecoderWrapper::Replace(Replace::new("\u{2581}", " ").unwrap()),
        DecoderWrapper::ByteFallback(ByteFallback::new()),
        DecoderWrapper::Fuse(Fuse::new()),
        DecoderWrapper::Strip(Strip::new(' ', 1, 0)),
    ])));
    let ids: Vec<u32> = vec![1, 2, 3, 4, 5, 1];
    let whole = tokenizer.decode(&ids, true).unwrap();
    assert_eq!(whole, "Hello world\u{e9}! Hello");
    let mut stream = TokenOutputStream::new(tokenizer);
    let mut streamed = String::new();
    for id in ids.iter() {
        if let Some(text) = stream.next_token(*id).unwrap() {
            streamed.push_str(&text);
        }
    }
    if let Some(rest) = stream.decode_rest().unwrap() {
        streamed.push_str(&rest);
    }
    assert_eq!(streamed, whole);
}

#[test]
fn a_cut_is_safe_when_the_stride_is_below_the_length() {
    assert!(is_safe_cut(None));
    assert!(is_safe_cut(Some((0, 0))));
    assert!(is_safe_cut(Some((0, 7))));
    assert!(is_safe_cut(Some((1, 0))));
    assert!(is_safe_cut(Some((8, 7))));
    assert!(!is_safe_cut(Some((8, 8))));
    assert!(!is_safe_cut(Some((1, 1))));
    assert!(!is_safe_cut(Some((2, 9))));
}

#[test]
fn a_truncation_that_may_not_return_is_never_called() {
    let mut tokenizer = word_tokenizer(&["[UNK]", "hello"]);
    tokenizer
        .with_truncation(Some(TruncationParams { max_length: 1, stride: 1, ..Default::default() }))
        .unwrap();
    let stream = TokenOutputStream::new(tokenizer);
    assert_eq!(
        stream.encode("hello").unwrap_err(),
        "the tokenizer's truncation stride is not below its maximum length"
    );
}

#[test]
fn a_safe_truncation_cuts_the_ids() {
    let words = ["[UNK]", "a", "b", "c", "d"];
    let mut tokenizer = word_tokenizer(&words);
    tokenizer.with_pre_tokenizer(Some(Whitespace {}));
    assert_eq!(TokenOutputStream::new(tokenizer.clone()).encode("a b c d").unwrap(), vec![1, 2, 3, 4]);
    tokenizer
        .with_truncation(Some(TruncationParams { max_length: 3, stride: 1, ..Default::default() }))
        .unwrap();
    assert_eq!(TokenOutputStream::new(tokenizer).encode("a b c d").unwrap(), vec![1, 2, 3]);
}

#[test]
fn a_pre_tokenizer_is_steady_unless_it_splits_into_nothing() {
    let sequence = |parts: Vec<PreTokenizerWrapper>| {
        PreTokenizerWrapper::Sequence(tokenizers::pre_tokenizers::sequence::Sequence::new(parts))
    };
    let fixed = |length: usize| PreTokenizerWrapper::FixedLength(FixedLength::new(length));
    assert!(is_steady_splitter(&fixed(1)));
    assert!(is_steady_splitter(&fixed(5)));
    assert!(!is_steady_splitter(&fixed(0)));
    assert!(is_steady_splitter(&PreTokenizerWrapper::Whitespace(Whitespace {})));
    assert!(is_steady_splitter(&sequence(vec![])));
    assert!(is_steady_splitter(&sequence(vec![fixed(2), sequence(vec![fixed(3)])])));
    assert!(!is_steady_splitter(&sequence(vec![fixed(2), sequence(vec![fixed(0)])])));
    assert!(!is_steady_splitter(&sequence(vec![fixed(0), fixed(2)])));
}

#[test]
fn a_pre_tokenizer_that_may_not_return_is_never_called() {
    let mut tokenizer = word_tokenizer(&["[UNK]", "he", "ll", "o"]);
    tokenizer.with_pre_tokenizer(Some(FixedLength::new(0)));
    let stream = TokenOutputStream::new(tokenizer);
    assert_eq!(
        stream.encode("hello").unwrap_err(),
        "the tokenizer's pre-tokenizer may not return"
    );
    let mut tokenizer = word_tokenizer(&["[UNK]", "he", "ll", "o"]);
    tokenizer.with_pre_tokenizer(Some(FixedLength::new(2)));
    let stream = TokenOutputStream::new(tokenizer);
    assert_eq!(stream.encode("hello").unwrap(), vec![1, 2, 3]);
}

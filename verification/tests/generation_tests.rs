use std::sync::atomic::{AtomicBool, Ordering};
use std::sync::Arc;

use chat_generation::generation::{
    build_prompt, resolve_eos, system_message, GenerationError, TextGeneration,
    DEFAULT_EOS_TOKEN,
};
use chat_generation::chat_template::ChatTemplateError;
use chat_generation::session::{Phase, Step};
use chat_generation::signal;
use chat_generation::tokenizer::DecodeError;
use chat_generation::ModelArgs;
use tokenizers::models::bpe::BPE;
use tokenizers::models::wordlevel::WordLevel;
use tokenizers::pre_tokenizers::whitespace::Whitespace;
use tokenizers::{AddedToken, Tokenizer};

fn word_tokenizer(words: &[&str], special: &[&str]) -> Tokenizer {
    let vocab = words
        .iter()
        .enumerate()
        .map(|(i, w)| (w.to_string(), i as u32))
        .collect();
    let model = WordLevel::builder()
        .vocab(vocab)
        .unk_token("[UNK]".to_string())
        .build()
        .unwrap();
    let mut tokenizer = Tokenizer::new(model);
    tokenizer.with_pre_tokenizer(Some(Whitespace {}));
    for s in special {
        tokenizer
            .add_special_tokens([AddedToken::from(*s, true)])
            .unwrap();
    }
    tokenizer
}

fn flag() -> Arc<AtomicBool> {
    Arc::new(AtomicBool::new(false))
}

fn pipeline(special: &[&str], sample_len: Option<usize>, signal: Arc<AtomicBool>) -> TextGeneration {
    let tokenizer = word_tokenizer(&["[UNK]", "hello", "world", "Hello", "!"], special);
    TextGeneration::new(tokenizer, None, sample_len, None, None, signal)
}

#[test]
fn model_args_keep_what_they_are_given() {
    let signal = flag();
    let args = ModelArgs::new(
        "model/llm.gguf".to_string(),
        Some("Be brief.".to_string()),
        Some(true),
        signal.clone(),
    );
    assert_eq!(args.model_path, "model/llm.gguf");
    assert_eq!(args.system_prompt, Some("Be brief.".to_string()));
    assert_eq!(args.enable_thinking, Some(true));
    assert!(Arc::ptr_eq(&args.interrupt_signal, &signal));
}

#[test]
fn the_signal_is_read_and_cleared() {
    let signal = flag();
    assert!(!signal::is_set(&signal));
    signal.store(true, Ordering::Relaxed);
    assert!(signal::is_set(&signal));
    signal::clear(&signal);
    assert!(!signal::is_set(&signal));
    assert!(!signal.load(Ordering::Relaxed));
}

#[test]
fn end_of_sequence_resolution_goes_in_order() {
    assert_eq!(resolve_eos(Some(7), Some(8), 9), 7);
    assert_eq!(resolve_eos(Some(7), None, 9), 7);
    assert_eq!(resolve_eos(None, Some(8), 9), 8);
    assert_eq!(resolve_eos(None, None, 9), 9);
    assert_eq!(DEFAULT_EOS_TOKEN, 128012);
}

#[test]
fn end_of_sequence_comes_from_the_vocabulary() {
    let g = pipeline(&["<|endoftext|>", "<|im_end|>"], None, flag());
    assert_eq!(g.get_eos_token(), 6);
    let g = pipeline(&["<|endoftext|>"], None, flag());
    assert_eq!(g.get_eos_token(), 5);
    let g = pipeline(&[], None, flag());
    assert_eq!(g.get_eos_token(), 128012);
}

#[test]
fn defaults_fill_what_is_not_given() {
    let g = pipeline(&[], None, flag());
    assert_eq!(g.repeat_last_n, 64);
    assert_eq!(g.sample_len, 1000);
    assert_eq!(g.system_prompt, "You are a helpful assistant");
    assert!(!g.enable_thinking);
    assert_eq!(g.phase(), Phase::Idle);

    let tokenizer = word_tokenizer(&["[UNK]"], &[]);
    let g = TextGeneration::new(
        tokenizer,
        Some(8),
        Some(20),
        Some("Be brief.".to_string()),
        Some(true),
        flag(),
    );
    assert_eq!(g.repeat_last_n, 8);
    assert_eq!(g.sample_len, 20);
    assert_eq!(g.system_prompt, "Be brief.");
    assert!(g.enable_thinking);
}

#[test]
fn system_message_holds_date_mode_and_instructions() {
    assert_eq!(
        system_message("28 October 2026", false, "You are helpful."),
        "## Metadata\n\nKnowledge Cutoff Date: February 2026\nToday Date: 28 October 2026\nReasoning Mode: /no_think\n\n## Custom Instructions\n\nYou are helpful."
    );
    assert_eq!(
        system_message("01 January 2027", true, ""),
        "## Metadata\n\nKnowledge Cutoff Date: February 2026\nToday Date: 01 January 2027\nReasoning Mode: /think\n\n## Custom Instructions\n\n"
    );
}

#[test]
fn build_prompt_renders_system_then_user_then_open_turn() {
    let text = build_prompt("28 October 2026", false, "You are helpful.", "Hello!").unwrap();
    assert_eq!(
        text,
        "<|im_start|>system\n## Metadata\n\nKnowledge Cutoff Date: February 2026\nToday Date: 28 October 2026\nReasoning Mode: /no_think\n\n## Custom Instructions\n\nYou are helpful.<|im_end|>\n<|im_start|>user\nHello!<|im_end|>\n<|im_start|>assistant\n"
    );
    assert!(text.ends_with("<|im_start|>assistant\n"));
}

#[test]
fn format_prompt_uses_today() {
    let g = pipeline(&[], None, flag());
    let text = g.format_prompt("Hello!").unwrap();
    assert!(text.starts_with(
        "<|im_start|>system\n## Metadata\n\nKnowledge Cutoff Date: February 2026\nToday Date: "
    ));
    assert!(text.ends_with(
        "\nReasoning Mode: /no_think\n\n## Custom Instructions\n\nYou are a helpful assistant<|im_end|>\n<|im_start|>user\nHello!<|im_end|>\n<|im_start|>assistant\n"
    ));
    let date_line = text.lines().find(|l| l.starts_with("Today Date: ")).unwrap();
    let parts: Vec<&str> = date_line["Today Date: ".len()..].split(' ').collect();
    assert_eq!(parts.len(), 3);
    assert_eq!(parts[0].len(), 2);
    assert!(parts[0].chars().all(|c| c.is_ascii_digit()));
    assert!(parts[1].chars().all(|c| c.is_ascii_alphabetic()));
    assert_eq!(parts[2].len(), 4);
}

#[test]
fn no_token_at_all_is_an_empty_prompt() {
    let mut g = pipeline(&[], None, flag());
    assert!(matches!(g.admit_prompt(vec![]), Err(GenerationError::EmptyPrompt)));
    assert_eq!(g.phase(), Phase::Failed);
    assert!(!g.in_round());
    assert_eq!(g.session.position(), 0);
}

#[test]
fn a_tokenizer_that_yields_nothing_fails_the_session() {
    let tokenizer = Tokenizer::new(BPE::default());
    assert_eq!(tokenizer.encode("", false).unwrap().get_ids().len(), 0);
    let mut g = TextGeneration::new(tokenizer, None, None, None, None, flag());
    assert!(matches!(g.begin("Hello!"), Err(GenerationError::EmptyPrompt)));
    assert_eq!(g.phase(), Phase::Failed);
    assert_eq!(g.prompt_tokens(), &[] as &[u32]);
}

#[test]
fn begin_encodes_the_prompt_and_clears_the_signal() {
    let signal = flag();
    signal.store(true, Ordering::Relaxed);
    let mut g = pipeline(&["<|im_end|>"], None, signal.clone());
    g.begin("Hello !").unwrap();
    assert!(!signal.load(Ordering::Relaxed));
    assert_eq!(g.phase(), Phase::Prefill);
    assert!(!g.prompt_tokens().is_empty());
    assert!(g.prompt_tokens().contains(&5));
    assert!(g.prompt_tokens().contains(&3));
    assert_eq!(g.session.config().eos_token, 5);
    assert_eq!(g.session.config().sample_len, 1000);
    assert_eq!(g.session.config().repeat_last_n, 64);
    let again = g.tokenizer.tokenizer().encode(g.format_prompt("Hello !").unwrap(), false).unwrap();
    assert_eq!(g.prompt_tokens(), again.get_ids());
}

#[test]
fn a_session_streams_text_until_the_end_of_sequence() {
    let mut g = pipeline(&["<|im_end|>"], Some(10), flag());
    g.begin("Hello !").unwrap();
    let prompt_len = g.prompt_tokens().len();
    assert_eq!(g.accept_first(1).unwrap(), Some("hello".to_string()));
    assert_eq!(g.phase(), Phase::Decoding);
    assert!(g.in_round());
    assert_eq!(g.next_step(), Step::Decode { token: 1, position: prompt_len });
    assert_eq!(g.recent_tokens(), &[1]);
    assert_eq!(g.accept(4).unwrap(), None);
    assert_eq!(g.next_step(), Step::Decode { token: 4, position: prompt_len + 1 });
    assert_eq!(g.accept(2).unwrap(), Some(" ! world".to_string()));
    assert_eq!(g.next_step(), Step::Decode { token: 2, position: prompt_len + 2 });
    assert_eq!(g.accept(5).unwrap(), None);
    assert_eq!(g.phase(), Phase::Completed);
    assert!(!g.in_round());
    assert_eq!(g.finish().unwrap(), None);
    assert_eq!(g.session.emitted(), &[1, 4, 2, 5]);
}

#[test]
fn what_is_held_back_comes_out_at_the_end() {
    let mut g = pipeline(&[], Some(2), flag());
    g.begin("Hello !").unwrap();
    assert_eq!(g.accept_first(1).unwrap(), Some("hello".to_string()));
    assert!(matches!(g.next_step(), Step::Decode { token: 1, .. }));
    assert_eq!(g.accept(4).unwrap(), None);
    assert_eq!(g.next_step(), Step::Finish);
    assert_eq!(g.phase(), Phase::Completed);
    assert_eq!(g.finish().unwrap(), Some(" !".to_string()));
}

#[test]
fn a_set_signal_interrupts_the_next_round() {
    let signal = flag();
    let mut g = pipeline(&[], Some(10), signal.clone());
    g.begin("Hello !").unwrap();
    g.accept_first(1).unwrap();
    assert!(matches!(g.next_step(), Step::Decode { .. }));
    g.accept(4).unwrap();
    signal.store(true, Ordering::Relaxed);
    assert_eq!(g.next_step(), Step::Interrupt);
    assert_eq!(g.phase(), Phase::Interrupted);
    assert_eq!(g.session.position(), 0);
    assert_eq!(g.session.emitted(), &[] as &[u32]);
    assert_eq!(g.finish().unwrap(), Some(" !".to_string()));
}

#[test]
fn a_second_session_starts_from_an_empty_decoder() {
    let mut g = pipeline(&[], Some(10), flag());
    g.begin("Hello !").unwrap();
    assert_eq!(g.accept_first(1).unwrap(), Some("hello".to_string()));
    g.begin("Hello !").unwrap();
    assert_eq!(g.phase(), Phase::Prefill);
    assert_eq!(g.tokenizer.decode_all().unwrap(), "");
    assert_eq!(g.accept_first(2).unwrap(), Some("world".to_string()));
}

#[test]
fn fail_and_reset() {
    let mut g = pipeline(&[], Some(10), flag());
    g.begin("Hello !").unwrap();
    g.accept_first(1).unwrap();
    g.fail();
    assert_eq!(g.phase(), Phase::Failed);
    g.reset();
    assert_eq!(g.phase(), Phase::Idle);
    assert_eq!(g.session.position(), 0);
    assert_eq!(g.tokenizer.decode_all().unwrap(), "");
}

#[test]
fn a_tokenizer_that_cannot_encode_fails_the_session() {
    let vocab = [("hello".to_string(), 0u32)].into_iter().collect();
    let model = WordLevel::builder()
        .vocab(vocab)
        .unk_token("[UNK]".to_string())
        .build()
        .unwrap();
    let mut g = TextGeneration::new(Tokenizer::new(model), None, None, None, None, flag());
    match g.begin("Hello!") {
        Err(GenerationError::Encode(message)) => assert!(!message.is_empty()),
        _ => panic!("expected an encode error"),
    }
    assert_eq!(g.phase(), Phase::Failed);
    assert_eq!(g.prompt_tokens(), &[] as &[u32]);
}

#[test]
fn generation_errors_in_words() {
    assert_eq!(
        GenerationError::EmptyPrompt.message(),
        "Empty prompt: encoding yields no token"
    );
    assert_eq!(
        GenerationError::Template(ChatTemplateError::RenderError("boom".to_string())).message(),
        "Render error: boom"
    );
    assert_eq!(
        GenerationError::Encode("no such token".to_string()).message(),
        "Encode error: no such token"
    );
    assert_eq!(
        GenerationError::Decode(DecodeError { message: "cannot decode: x".to_string() }).message(),
        "Decode error: cannot decode: x"
    );
}

#[test]
fn an_encode_error_carries_the_tokenizers_message() {
    let vocab = [("hello".to_string(), 0u32)].into_iter().collect();
    let model = WordLevel::builder()
        .vocab(vocab)
        .unk_token("[UNK]".to_string())
        .build()
        .unwrap();
    let tokenizer = Tokenizer::new(model);
    let expected = tokenizer.encode("x", false).unwrap_err().to_string();
    let mut g = TextGeneration::new(tokenizer, None, None, None, None, flag());
    match g.begin("Hello!") {
        Err(GenerationError::Encode(message)) => assert_eq!(message, expected),
        _ => panic!("expected an encode error"),
    }
}

#[test]
fn the_prompt_holds_the_date_as_chrono_writes_it() {
    let g = pipeline(&[], None, flag());
    let before = chrono::Local::now().format("%d %B %Y").to_string();
    let text = g.format_prompt("Hello!").unwrap();
    let after = chrono::Local::now().format("%d %B %Y").to_string();
    let date_line = text.lines().find(|l| l.starts_with("Today Date: ")).unwrap();
    let date = &date_line["Today Date: ".len()..];
    assert!(date == before || date == after);
    assert_eq!(
        chrono::NaiveDate::from_ymd_opt(2026, 2, 3).unwrap().format("%d %B %Y").to_string(),
        "03 February 2026"
    );
}

#[test]
fn begin_gives_the_session_the_ids_of_the_prompt() {
    let mut g = pipeline(&["<|im_end|>"], None, flag());
    let before = g.format_prompt("Hello !").unwrap();
    g.begin("Hello !").unwrap();
    let after = g.format_prompt("Hello !").unwrap();
    let ids = g.prompt_tokens().to_vec();
    let of_before = g.tokenizer.tokenizer().encode(before, false).unwrap();
    let of_after = g.tokenizer.tokenizer().encode(after, false).unwrap();
    assert!(ids == of_before.get_ids() || ids == of_after.get_ids());
    assert_eq!(g.phase(), Phase::Prefill);
    assert_eq!(g.session.position(), 0);
}

#[test]
fn a_tokenizer_that_cuts_unsafely_fails_the_session() {
    let mut tokenizer = word_tokenizer(&["[UNK]", "hello"], &[]);
    tokenizer
        .with_truncation(Some(tokenizers::TruncationParams {
            max_length: 2,
            stride: 2,
            ..Default::default()
        }))
        .unwrap();
    let mut g = TextGeneration::new(tokenizer, None, None, None, None, flag());
    match g.begin("Hello !") {
        Err(GenerationError::Encode(message)) => assert_eq!(
            message,
            "the tokenizer's truncation stride is not below its maximum length"
        ),
        _ => panic!("expected an encode error"),
    }
    assert_eq!(g.phase(), Phase::Failed);
    assert_eq!(g.prompt_tokens(), &[] as &[u32]);
}

#[test]
fn a_new_pipeline_has_its_settings_and_the_default_end_of_sequence() {
    let g = pipeline(&["<|im_end|>"], Some(7), flag());
    let c = g.session.config();
    assert_eq!((c.sample_len, c.repeat_last_n, c.eos_token), (7, 64, DEFAULT_EOS_TOKEN));
}

//! One generation session from the library's side: the prompt is built and
//! encoded, each sampled token is recorded and decoded, and every round
//! begins with a look at the cancellation signal. The caller owns the model
//! and does the sampling.

use vstd::prelude::*;
use vstd::string::*;
use std::sync::atomic::AtomicBool;
use std::sync::Arc;
use chrono::NaiveDate;
use tokenizers::Tokenizer;

use crate::chat_template::{
    applied, chatml_source, turns, ChatTemplate, ChatTemplateError, ChatTemplateOptions, Message,
};
use crate::clock::{date_pattern, format_date, formatted_date, today};
use crate::codec::{decodable, encodable, encoded, is_encoding, undecodable, vocabulary};
use crate::jinja::syntax_error;
use crate::session::{
    accepted, after_first, decided, failed, idle, recent, rounds, started, GenerationLoop,
    LoopConfig, LoopState, Phase, Step,
};
use crate::signal;
use crate::tokenizer::{
    empty_stream, failure_text, push_output, push_state, rest_output, DecodeError,
    TokenOutputStream,
};

verus! {

/// The end-of-sequence id of the SmolLM3 family. It stands in when the
/// vocabulary has neither marker; for another family it may be wrong.
pub const DEFAULT_EOS_TOKEN: u32 = 128012;

/// The penalty window where none is given.
pub const DEFAULT_REPEAT_LAST_N: usize = 64;

/// The token budget where none is given.
pub const DEFAULT_SAMPLE_LEN: usize = 1000;

/// Why a session failed.
#[derive(Debug)]
pub enum GenerationError {
    /// Encoding the prompt gave no token.
    EmptyPrompt,
    /// The prompt could not be rendered.
    Template(ChatTemplateError),
    /// The tokenizer could not encode the prompt.
    Encode(String),
    /// The tokenizer could not decode the tokens produced.
    Decode(DecodeError),
}

impl GenerationError {
    /// The error in words.
    pub open spec fn text(&self) -> Seq<char> {
        match *self {
            GenerationError::EmptyPrompt => "Empty prompt: encoding yields no token"@,
            GenerationError::Template(e) => e.text(),
            GenerationError::Encode(e) => "Encode error: "@ + e@,
            GenerationError::Decode(e) => "Decode error: "@ + e.message@,
        }
    }

    /// The error as a line of text.
    pub fn message(&self) -> (text: String)
        ensures
            text@ == self.text(),
    {
        match self {
            GenerationError::EmptyPrompt => String::from_str(
                "Empty prompt: encoding yields no token",
            ),
            GenerationError::Template(e) => e.message(),
            GenerationError::Encode(e) => String::from_str("Encode error: ").concat(e.as_str()),
            GenerationError::Decode(e) => String::from_str("Decode error: ").concat(
                e.message.as_str(),
            ),
        }
    }
}

/// The end-of-sequence policy: the id of the turn-end marker if the
/// vocabulary has it, else the id of the end-of-text marker, else the fallback.
pub open spec fn resolved_eos(
    turn_end: Option<u32>,
    end_of_text: Option<u32>,
    fallback: u32,
) -> u32 {
    match turn_end {
        Some(id) => id,
        None => match end_of_text {
            Some(id) => id,
            None => fallback,
        },
    }
}

/// What a vocabulary has for a marker.
pub open spec fn lookup(vocab: Map<Seq<char>, u32>, marker: Seq<char>) -> Option<u32> {
    if vocab.contains_key(marker) {
        Some(vocab[marker])
    } else {
        None
    }
}

/// The end-of-sequence id for a vocabulary, with the default as fallback.
pub open spec fn eos_for(vocab: Map<Seq<char>, u32>) -> u32 {
    resolved_eos(lookup(vocab, "<|im_end|>"@), lookup(vocab, "<|endoftext|>"@), DEFAULT_EOS_TOKEN)
}

/// Picks the end-of-sequence id from the two vocabulary lookups, in order,
/// and falls back to `fallback` when both are absent.
pub fn resolve_eos(turn_end: Option<u32>, end_of_text: Option<u32>, fallback: u32) -> (id: u32)
    ensures
        id == resolved_eos(turn_end, end_of_text, fallback),
{
    match turn_end {
        Some(id) => id,
        None => match end_of_text {
            Some(id) => id,
            None => fallback,
        },
    }
}

/// The marker of the reasoning mode.
pub open spec fn reasoning_mode(enable_thinking: bool) -> Seq<char> {
    if enable_thinking {
        "/think"@
    } else {
        "/no_think"@
    }
}

/// The content of the system message: a metadata block with the date and
/// the reasoning mode, then the custom instructions.
pub open spec fn system_content(
    today_date: Seq<char>,
    enable_thinking: bool,
    system_prompt: Seq<char>,
) -> Seq<char> {
    "## Metadata\n\nKnowledge Cutoff Date: February 2026\nToday Date: "@ + today_date
        + "\nReasoning Mode: "@ + reasoning_mode(enable_thinking)
        + "\n\n## Custom Instructions\n\n"@ + system_prompt
}

/// Builds the content of the system message.
pub fn system_message(today_date: &str, enable_thinking: bool, system_prompt: &str) -> (text:
    String)
    ensures
        text@ == system_content(today_date@, enable_thinking, system_prompt@),
{
    let mode = if enable_thinking {
        "/think"
    } else {
        "/no_think"
    };
    let mut text = String::from_str(
        "## Metadata\n\nKnowledge Cutoff Date: February 2026\nToday Date: ",
    );
    text.append(today_date);
    text.append("\nReasoning Mode: ");
    text.append(mode);
    text.append("\n\n## Custom Instructions\n\n");
    text.append(system_prompt);
    text
}

/// The options that a prompt is rendered with.
pub open spec fn generation_options() -> ChatTemplateOptions {
    ChatTemplateOptions {
        add_generation_prompt: true,
        continue_final_message: false,
        enable_thinking: false,
    }
}

/// The conversation of a prompt: the system message, then the user's text.
pub open spec fn conversation(
    today_date: Seq<char>,
    enable_thinking: bool,
    system_prompt: Seq<char>,
    user_text: Seq<char>,
) -> Seq<(Seq<char>, Seq<char>)> {
    seq![
        ("system"@, system_content(today_date, enable_thinking, system_prompt)),
        ("user"@, user_text),
    ]
}

/// The preset applied to the conversation of a prompt.
pub open spec fn rendered_prompt(
    today_date: Seq<char>,
    enable_thinking: bool,
    system_prompt: Seq<char>,
    user_text: Seq<char>,
) -> Result<Seq<char>, Seq<char>> {
    applied(
        chatml_source(),
        ""@,
        "<|im_end|>"@,
        conversation(today_date, enable_thinking, system_prompt, user_text),
        generation_options(),
    )
}

/// The text of the prompt for a date, where it can be built: the engine
/// accepts the preset and renders the conversation.
pub open spec fn prompt_text(
    today_date: Seq<char>,
    enable_thinking: bool,
    system_prompt: Seq<char>,
    user_text: Seq<char>,
) -> Option<Seq<char>> {
    if syntax_error(chatml_source()) is Some {
        None
    } else {
        match rendered_prompt(today_date, enable_thinking, system_prompt, user_text) {
            Ok(text) => Some(text),
            Err(_) => None,
        }
    }
}

/// Whether `r` is what building a prompt on the given date gives: the
/// text of the prompt where it can be built; else a template error with
/// the engine's objection to the preset, or a render error with the
/// engine's error for the conversation.
pub open spec fn is_prompt(
    r: Result<String, ChatTemplateError>,
    today_date: Seq<char>,
    enable_thinking: bool,
    system_prompt: Seq<char>,
    user_text: Seq<char>,
) -> bool {
    match syntax_error(chatml_source()) {
        Some(message) => r matches Err(ChatTemplateError::TemplateError(m)) && m@ == message,
        None => match rendered_prompt(today_date, enable_thinking, system_prompt, user_text) {
            Ok(text) => r matches Ok(s) && s@ == text,
            Err(message) => r matches Err(ChatTemplateError::RenderError(m)) && m@ == message,
        },
    }
}

/// Whether a session has begun as it must, given the date that the prompt
/// was built for and what the tokenizer gave for the prompt. Where the
/// prompt cannot be built, the session fails with the template's error.
/// Else `outcome` is the tokenizer's encoding of the prompt, wherever that
/// is fixed: an error of the tokenizer fails the session with its message,
/// no id at all fails it as an empty prompt, and on ids the session
/// stands before prefill with these ids as its prompt.
pub open spec fn begun(
    r: Result<(), GenerationError>,
    session: LoopState,
    codes: Map<Seq<char>, Result<Seq<u32>, Seq<char>>>,
    today_date: Seq<char>,
    enable_thinking: bool,
    system_prompt: Seq<char>,
    user_text: Seq<char>,
    outcome: Result<Seq<u32>, Seq<char>>,
) -> bool {
    match prompt_text(today_date, enable_thinking, system_prompt, user_text) {
        None => {
            &&& r matches Err(GenerationError::Template(e)) && is_prompt(
                Err(e),
                today_date,
                enable_thinking,
                system_prompt,
                user_text,
            )
            &&& session == started(Seq::empty())
        },
        Some(text) => {
            &&& is_encoding(codes, text, outcome)
            &&& match outcome {
                Err(message) => {
                    &&& r matches Err(GenerationError::Encode(m)) && m@ == message
                    &&& session == started(Seq::empty())
                },
                Ok(ids) => {
                    &&& session == started(ids)
                    &&& r is Err <==> ids.len() == 0
                    &&& r matches Err(e) ==> e is EmptyPrompt
                },
            }
        },
    }
}

/// Builds the prompt for a user's text on a given date: the system message,
/// the user message, and the opening of the assistant's turn.
pub fn build_prompt(
    today_date: &str,
    enable_thinking: bool,
    system_prompt: &str,
    user_text: &str,
) -> (r: Result<String, ChatTemplateError>)
    ensures
        is_prompt(r, today_date@, enable_thinking, system_prompt@, user_text@),
{
    let template = match ChatTemplate::chatml() {
        Ok(template) => template,
        Err(e) => {
            return Err(e);
        },
    };
    let content = system_message(today_date, enable_thinking, system_prompt);
    let mut messages: Vec<Message> = Vec::new();
    messages.push(Message::system(content.as_str()));
    messages.push(Message::user(user_text));
    let options = ChatTemplateOptions::for_generation();
    assert(turns(messages@) =~= conversation(
        today_date@,
        enable_thinking,
        system_prompt@,
        user_text@,
    ));
    template.apply(messages.as_slice(), &options)
}

/// The library's side of a text generation pipeline.
pub struct TextGeneration {
    pub tokenizer: TokenOutputStream,
    pub repeat_last_n: usize,
    pub enable_thinking: bool,
    pub sample_len: usize,
    pub system_prompt: String,
    pub interrupt_signal: Arc<AtomicBool>,
    pub session: GenerationLoop,
}

impl TextGeneration {
    /// Decoder and session are well formed.
    pub open spec fn wf(&self) -> bool {
        self.tokenizer.wf() && self.session.wf()
    }

    /// The settings that a session gets from the public fields and the vocabulary.
    pub open spec fn configured(&self) -> LoopConfig {
        LoopConfig {
            sample_len: self.sample_len,
            repeat_last_n: self.repeat_last_n,
            eos_token: eos_for(self.tokenizer.vocab()),
        }
    }

    /// Whether everything but the session and the decoder's state is as in `other`.
    pub open spec fn same_setup(&self, other: &Self) -> bool {
        &&& self.tokenizer.table() == other.tokenizer.table()
        &&& self.tokenizer.vocab() == other.tokenizer.vocab()
        &&& self.tokenizer.codes() == other.tokenizer.codes()
        &&& self.tokenizer.failures() == other.tokenizer.failures()
        &&& self.repeat_last_n == other.repeat_last_n
        &&& self.enable_thinking == other.enable_thinking
        &&& self.sample_len == other.sample_len
        &&& self.system_prompt@ == other.system_prompt@
        &&& self.interrupt_signal == other.interrupt_signal
    }

    /// A pipeline around `tokenizer`. What is not given gets its default: a
    /// penalty window of 64 tokens, a budget of 1000 tokens, the system
    /// prompt `You are a helpful assistant`, no thinking.
    pub fn new(
        tokenizer: Tokenizer,
        repeat_last_n: Option<usize>,
        sample_len: Option<usize>,
        system_prompt: Option<String>,
        enable_thinking: Option<bool>,
        interrupt_signal: Arc<AtomicBool>,
    ) -> (r: Self)
        ensures
            r.wf(),
            r.session@ == idle(),
            r.tokenizer@ == empty_stream(),
            r.tokenizer.table() == decodable(tokenizer),
            r.tokenizer.vocab() == vocabulary(tokenizer),
            r.tokenizer.codes() == encodable(tokenizer),
            r.tokenizer.failures() == undecodable(tokenizer),
            r.session.settings() == (LoopConfig {
                sample_len: r.sample_len,
                repeat_last_n: r.repeat_last_n,
                eos_token: DEFAULT_EOS_TOKEN,
            }),
            r.repeat_last_n == match repeat_last_n {
                Some(n) => n,
                None => DEFAULT_REPEAT_LAST_N,
            },
            r.sample_len == match sample_len {
                Some(n) => n,
                None => DEFAULT_SAMPLE_LEN,
            },
            r.system_prompt@ == match system_prompt {
                Some(text) => text@,
                None => "You are a helpful assistant"@,
            },
            r.enable_thinking == match enable_thinking {
                Some(b) => b,
                None => false,
            },
            r.interrupt_signal == interrupt_signal,
    {
        let repeat_last_n = match repeat_last_n {
            Some(n) => n,
            None => DEFAULT_REPEAT_LAST_N,
        };
        let sample_len = match sample_len {
            Some(n) => n,
            None => DEFAULT_SAMPLE_LEN,
        };
        let system_prompt = match system_prompt {
            Some(text) => text,
            None => String::from_str("You are a helpful assistant"),
        };
        let enable_thinking = match enable_thinking {
            Some(b) => b,
            None => false,
        };
        let config = LoopConfig { sample_len, repeat_last_n, eos_token: DEFAULT_EOS_TOKEN };
        TextGeneration {
            tokenizer: TokenOutputStream::new(tokenizer),
            repeat_last_n,
            enable_thinking,
            sample_len,
            system_prompt,
            interrupt_signal,
            session: GenerationLoop::new(config),
        }
    }

    /// The token that ends a session, by the end-of-sequence policy.
    pub fn get_eos_token(&self) -> (id: u32)
        ensures
            id == eos_for(self.tokenizer.vocab()),
    {
        let turn_end = self.tokenizer.get_token("<|im_end|>");
        let end_of_text = self.tokenizer.get_token("<|endoftext|>");
        resolve_eos(turn_end, end_of_text, DEFAULT_EOS_TOKEN)
    }

    /// Builds the prompt for a user's text with today's date, written as
    /// day, month name and year. Which date today is, is not known here.
    pub fn format_prompt(&self, prompt: &str) -> (r: Result<String, ChatTemplateError>)
        ensures
            exists|today: NaiveDate|
                is_prompt(
                    r,
                    #[trigger] formatted_date(today, date_pattern()),
                    self.enable_thinking,
                    self.system_prompt@,
                    prompt@,
                ),
    {
        let today = today();
        let date = format_date(&today, "%d %B %Y");
        build_prompt(date.as_str(), self.enable_thinking, self.system_prompt.as_str(), prompt)
    }

    /// Takes the encoded prompt of a new session: the decoder starts from
    /// empty, the end-of-sequence id is resolved, and prefill is next. No
    /// token at all fails the session before any forward pass.
    pub fn admit_prompt(&mut self, ids: Vec<u32>) -> (r: Result<(), GenerationError>)
        requires
            old(self).wf(),
        ensures
            final(self).wf(),
            final(self).same_setup(old(self)),
            final(self).session.settings() == old(self).configured(),
            final(self).session@ == started(ids@),
            final(self).tokenizer@ == empty_stream(),
            ids@.len() == 0 <==> r is Err,
            r matches Err(e) ==> e is EmptyPrompt,
    {
        self.tokenizer.clear();
        let config = LoopConfig {
            sample_len: self.sample_len,
            repeat_last_n: self.repeat_last_n,
            eos_token: self.get_eos_token(),
        };
        self.session = GenerationLoop::new(config);
        if self.session.start(ids) {
            Ok(())
        } else {
            Err(GenerationError::EmptyPrompt)
        }
    }

    /// Begins a session on a user's text: clears the cancellation signal,
    /// builds the prompt for today and encodes it. The session succeeds
    /// exactly when the prompt can be built and the tokenizer gives at
    /// least one id for it; then prefill is next, on these ids. Else the
    /// session has failed before any forward pass, with the error of the
    /// step that failed. Which date today is, is not known here, nor what
    /// a tokenizer gives that draws on chance.
    pub fn begin(&mut self, prompt_str: &str) -> (r: Result<(), GenerationError>)
        requires
            old(self).wf(),
        ensures
            final(self).wf(),
            final(self).same_setup(old(self)),
            final(self).session.settings() == old(self).configured(),
            final(self).tokenizer@ == empty_stream(),
            exists|today: NaiveDate, outcome: Result<Seq<u32>, Seq<char>>|
                #[trigger] begun(
                    r,
                    final(self).session@,
                    old(self).tokenizer.codes(),
                    formatted_date(today, date_pattern()),
                    old(self).enable_thinking,
                    old(self).system_prompt@,
                    prompt_str@,
                    outcome,
                ),
    {
        signal::clear(&self.interrupt_signal);
        let built = self.format_prompt(prompt_str);
        let ghost today = choose|today: NaiveDate|
            is_prompt(
                built,
                #[trigger] formatted_date(today, date_pattern()),
                self.enable_thinking,
                self.system_prompt@,
                prompt_str@,
            );
        let ghost date = formatted_date(today, date_pattern());
        let formatted = match built {
            Ok(text) => text,
            Err(e) => {
                let _ = self.admit_prompt(Vec::new());
                let r = Err(GenerationError::Template(e));
                assert(begun(
                    r,
                    self.session@,
                    old(self).tokenizer.codes(),
                    date,
                    old(self).enable_thinking,
                    old(self).system_prompt@,
                    prompt_str@,
                    Ok(Seq::empty()),
                ));
                return r;
            },
        };
        let ids = self.tokenizer.encode(formatted.as_str());
        let ghost outcome = encoded(ids);
        let r = match ids {
            Ok(ids) => self.admit_prompt(ids),
            Err(message) => {
                let _ = self.admit_prompt(Vec::new());
                Err(GenerationError::Encode(message))
            },
        };
        assert(begun(
            r,
            self.session@,
            old(self).tokenizer.codes(),
            date,
            old(self).enable_thinking,
            old(self).system_prompt@,
            prompt_str@,
            outcome,
        ));
        r
    }

    /// Where the session stands.
    pub fn phase(&self) -> (p: Phase)
        ensures
            p == self.session@.phase,
    {
        self.session.phase()
    }

    /// The encoded prompt, for the forward pass of prefill at position 0.
    pub fn prompt_tokens(&self) -> (p: &[u32])
        requires
            self.wf(),
        ensures
            p@ == self.session@.prompt,
    {
        self.session.prompt()
    }

    /// The tokens that the repetition penalty looks at in the coming round.
    pub fn recent_tokens(&self) -> (p: &[u32])
        requires
            self.wf(),
        ensures
            p@ == recent(self.session@, self.session.settings()),
    {
        self.session.recent()
    }

    fn decoded(&mut self, token: u32) -> (r: Result<Option<String>, GenerationError>)
        requires
            old(self).wf(),
        ensures
            final(self).wf(),
            final(self).same_setup(old(self)),
            final(self).session.settings() == old(self).session.settings(),
            final(self).tokenizer@ == push_state(
                old(self).tokenizer.table(),
                old(self).tokenizer@,
                token,
            ),
            match push_output(old(self).tokenizer.table(), old(self).tokenizer@, token) {
                Ok(Some(text)) => r matches Ok(Some(s)) && s@ == text && final(self).session@
                    == old(self).session@,
                Ok(None) => r matches Ok(None) && final(self).session@ == old(self).session@,
                Err(ids) => r matches Err(GenerationError::Decode(e)) && e.message@ == failure_text(
                    old(self).tokenizer.failures(),
                    ids,
                ) && final(self).session@ == failed(
                    old(self).session@,
                ),
            },
    {
        match self.tokenizer.next_token(token) {
            Ok(text) => Ok(text),
            Err(e) => {
                self.session.fail();
                Err(GenerationError::Decode(e))
            },
        }
    }

    /// Takes the first token, sampled after prefill: decoding is next, and
    /// the text that the token completes is handed out.
    pub fn accept_first(&mut self, token: u32) -> (r: Result<Option<String>, GenerationError>)
        requires
            old(self).wf(),
            old(self).session@.phase == Phase::Prefill,
        ensures
            final(self).wf(),
            final(self).same_setup(old(self)),
            final(self).session.settings() == old(self).session.settings(),
            final(self).tokenizer@ == push_state(
                old(self).tokenizer.table(),
                old(self).tokenizer@,
                token,
            ),
            match push_output(old(self).tokenizer.table(), old(self).tokenizer@, token) {
                Ok(Some(text)) => r matches Ok(Some(s)) && s@ == text && final(self).session@
                    == after_first(old(self).session@, token),
                Ok(None) => r matches Ok(None) && final(self).session@ == after_first(
                    old(self).session@,
                    token,
                ),
                Err(ids) => r matches Err(GenerationError::Decode(e)) && e.message@ == failure_text(
                    old(self).tokenizer.failures(),
                    ids,
                ) && final(self).session@ == failed(
                    after_first(old(self).session@, token),
                ),
            },
    {
        self.session.first_token(token);
        self.decoded(token)
    }

    /// Opens a round: reads the cancellation signal and decides on it.
    /// Whatever the signal says, the outcome is the decision for one of its
    /// two values.
    pub fn next_step(&mut self) -> (step: Step)
        requires
            old(self).wf(),
            old(self).session@.phase == Phase::Decoding,
        ensures
            final(self).wf(),
            final(self).same_setup(old(self)),
            final(self).session.settings() == old(self).session.settings(),
            final(self).tokenizer@ == old(self).tokenizer@,
            exists|cancelled: bool|
                (final(self).session@, step) == decided(
                    old(self).session@,
                    old(self).session.settings(),
                    cancelled,
                ),
    {
        let cancelled = signal::is_set(&self.interrupt_signal);
        let step = self.session.next_step(cancelled);
        step
    }

    /// Takes the token sampled in a round: it joins the history, the cache
    /// position advances, the end-of-sequence token completes the session,
    /// and the text that the token completes is handed out.
    pub fn accept(&mut self, token: u32) -> (r: Result<Option<String>, GenerationError>)
        requires
            old(self).wf(),
            old(self).session@.phase == Phase::Decoding,
            old(self).session@.emitted.len() <= rounds(old(self).session.settings()),
        ensures
            final(self).wf(),
            final(self).same_setup(old(self)),
            final(self).session.settings() == old(self).session.settings(),
            final(self).tokenizer@ == push_state(
                old(self).tokenizer.table(),
                old(self).tokenizer@,
                token,
            ),
            match push_output(old(self).tokenizer.table(), old(self).tokenizer@, token) {
                Ok(Some(text)) => r matches Ok(Some(s)) && s@ == text && final(self).session@
                    == accepted(old(self).session@, old(self).session.settings(), token),
                Ok(None) => r matches Ok(None) && final(self).session@ == accepted(
                    old(self).session@,
                    old(self).session.settings(),
                    token,
                ),
                Err(ids) => r matches Err(GenerationError::Decode(e)) && e.message@ == failure_text(
                    old(self).tokenizer.failures(),
                    ids,
                ) && final(self).session@ == failed(
                    accepted(old(self).session@, old(self).session.settings(), token),
                ),
            },
    {
        let _ = self.session.accept(token);
        self.decoded(token)
    }

    /// Whether the coming round may run: the session is decoding and the
    /// budget is not used up.
    pub fn in_round(&self) -> (b: bool)
        requires
            self.wf(),
        ensures
            b <==> self.session@.phase == Phase::Decoding && self.session@.emitted.len()
                <= rounds(self.session.settings()),
    {
        let config = self.session.config();
        let rounds = if config.sample_len == 0 {
            0
        } else {
            config.sample_len - 1
        };
        self.session.phase() == Phase::Decoding && self.session.emitted().len() <= rounds
    }

    /// The text that the decoder still holds back, at the end of a session.
    pub fn finish(&self) -> (r: Result<Option<String>, GenerationError>)
        requires
            self.wf(),
        ensures
            match rest_output(self.tokenizer.table(), self.tokenizer@) {
                Ok(Some(text)) => r matches Ok(Some(s)) && s@ == text,
                Ok(None) => r matches Ok(None),
                Err(ids) => r matches Err(GenerationError::Decode(e)) && e.message@
                    == failure_text(self.tokenizer.failures(), ids),
            },
    {
        match self.tokenizer.decode_rest() {
            Ok(text) => Ok(text),
            Err(e) => Err(GenerationError::Decode(e)),
        }
    }

    /// Records that the model failed.
    pub fn fail(&mut self)
        requires
            old(self).wf(),
        ensures
            final(self).wf(),
            final(self).same_setup(old(self)),
            final(self).session.settings() == old(self).session.settings(),
            final(self).tokenizer@ == old(self).tokenizer@,
            final(self).session@ == failed(old(self).session@),
    {
        self.session.fail();
    }

    /// Forgets the session and the decoder's state. For the caller that
    /// clears the model's cache: cache and history are cleared together.
    pub fn reset(&mut self)
        requires
            old(self).wf(),
        ensures
            final(self).wf(),
            final(self).same_setup(old(self)),
            final(self).session.settings() == old(self).session.settings(),
            final(self).tokenizer@ == empty_stream(),
            final(self).session@ == idle(),
    {
        self.session.reset();
        self.tokenizer.clear();
    }
}

} // verus!

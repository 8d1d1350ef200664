//! Chat templates: a conversation is rendered into the exact text that a
//! model expects, by a Jinja template with two marker strings.

use vstd::prelude::*;
use vstd::string::*;
use minijinja::value::Value;
use minijinja::Environment;

use crate::jinja::{
    add_chat_template, add_raise_exception, added_globals, chat_globals, chat_name, error_text,
    get_chat_template,
    message_value, new_environment, record_fields, records_of, render_chat, rendering,
    syntax_error, template_sources,
};
use crate::text::{is_white_space, lemma_leading_white_space, trim_leading, trim_start};

verus! {

/// One turn of a conversation.
#[derive(Debug, Clone)]
pub struct Message {
    pub role: String,
    pub content: String,
}

impl View for Message {
    type V = (Seq<char>, Seq<char>);

    /// A message as the pair of its role and its content.
    open spec fn view(&self) -> (Seq<char>, Seq<char>) {
        (self.role@, self.content@)
    }
}

/// A conversation as the sequence of its turns, each a pair of role and content.
pub open spec fn turns(messages: Seq<Message>) -> Seq<(Seq<char>, Seq<char>)> {
    Seq::new(messages.len(), |i: int| messages[i]@)
}

/// A turn as a template sees it: a record with the fields `role` and `content`.
pub open spec fn record(turn: (Seq<char>, Seq<char>)) -> Map<Seq<char>, Seq<char>> {
    map!["role"@ => turn.0, "content"@ => turn.1]
}

/// A conversation as a template sees it: the records of its turns, in order.
pub open spec fn records(turns: Seq<(Seq<char>, Seq<char>)>) -> Seq<Map<Seq<char>, Seq<char>>> {
    Seq::new(turns.len(), |i: int| record(turns[i]))
}

impl Message {
    /// A message of any role.
    pub fn new(role: &str, content: &str) -> (message: Self)
        ensures
            message@ == (role@, content@),
    {
        Message { role: String::from_str(role), content: String::from_str(content) }
    }

    /// A message of the role `system`.
    pub fn system(content: &str) -> (message: Self)
        ensures
            message@ == ("system"@, content@),
    {
        Self::new("system", content)
    }

    /// A message of the role `user`.
    pub fn user(content: &str) -> (message: Self)
        ensures
            message@ == ("user"@, content@),
    {
        Self::new("user", content)
    }
}

/// Options for applying a chat template.
#[derive(Debug, Clone)]
pub struct ChatTemplateOptions {
    /// Add the tokens that prompt the model to generate an assistant response.
    pub add_generation_prompt: bool,
    /// Continue the final message instead of starting a new one.
    pub continue_final_message: bool,
    /// Enable the reasoning mode of templates that have one.
    pub enable_thinking: bool,
}

impl Default for ChatTemplateOptions {
    /// No option set.
    fn default() -> (options: Self)
        ensures
            !options.add_generation_prompt,
            !options.continue_final_message,
            !options.enable_thinking,
    {
        ChatTemplateOptions {
            add_generation_prompt: false,
            continue_final_message: false,
            enable_thinking: false,
        }
    }
}

impl ChatTemplateOptions {
    /// The options for a prompt that the model is to answer: the opening of
    /// the assistant's turn is added, nothing else.
    pub fn for_generation() -> (options: Self)
        ensures
            options.add_generation_prompt,
            !options.continue_final_message,
            !options.enable_thinking,
    {
        ChatTemplateOptions {
            add_generation_prompt: true,
            continue_final_message: false,
            enable_thinking: false,
        }
    }
}

/// Errors that can occur with chat templates. Each carries the engine's message.
#[derive(Debug)]
pub enum ChatTemplateError {
    /// The template's control syntax is malformed.
    TemplateError(String),
    /// Rendering failed, which includes a template that aborted it on purpose.
    RenderError(String),
}

impl ChatTemplateError {
    /// The error in words: its kind, then the engine's message.
    pub open spec fn text(&self) -> Seq<char> {
        match *self {
            ChatTemplateError::TemplateError(e) => "Template error: "@ + e@,
            ChatTemplateError::RenderError(e) => "Render error: "@ + e@,
        }
    }

    /// The error as a line of text.
    pub fn message(&self) -> (text: String)
        ensures
            text@ == self.text(),
    {
        match self {
            ChatTemplateError::TemplateError(e) => String::from_str("Template error: ").concat(
                e.as_str(),
            ),
            ChatTemplateError::RenderError(e) => String::from_str("Render error: ").concat(
                e.as_str(),
            ),
        }
    }
}

/// A compiled chat template with its begin-of-sequence and end-of-sequence markers.
pub struct ChatTemplate {
    env: Environment<'static>,
    bos_token: String,
    eos_token: String,
}

/// The source of the preset template for the ChatML format.
pub open spec fn chatml_source() -> Seq<char> {
    "\n{%- for message in messages %}\n{{- '<|im_start|>' + message.role + '\\n' + message.content | trim + '<|im_end|>\\n' }}\n{%- endfor %}\n{%- if add_generation_prompt %}\n{{- '<|im_start|>assistant\\n' }}\n{%- endif %}\n"@
}

/// What applying a template yields: the engine's rendering without its
/// leading white space, or the engine's error, written out, when it fails.
pub open spec fn applied(
    source: Seq<char>,
    bos_token: Seq<char>,
    eos_token: Seq<char>,
    messages: Seq<(Seq<char>, Seq<char>)>,
    options: ChatTemplateOptions,
) -> Result<Seq<char>, Seq<char>> {
    match rendering(
        source,
        records(messages),
        options.add_generation_prompt,
        options.continue_final_message,
        options.enable_thinking,
        bos_token,
        eos_token,
    ) {
        Ok(text) => Ok(trim_leading(text)),
        Err(message) => Err(message),
    }
}

/// What applying a template yields is the engine's rendering from its first
/// character that is not white space on: it does not begin with white
/// space, what was dropped is white space only, and the rest, trailing
/// white space included, is kept as it is.
pub proof fn lemma_applied_drops_leading_white_space(
    source: Seq<char>,
    bos_token: Seq<char>,
    eos_token: Seq<char>,
    messages: Seq<(Seq<char>, Seq<char>)>,
    options: ChatTemplateOptions,
)
    requires
        applied(source, bos_token, eos_token, messages, options) is Ok,
    ensures
        ({
            let text = applied(source, bos_token, eos_token, messages, options)->Ok_0;
            let raw = rendering(
                source,
                records(messages),
                options.add_generation_prompt,
                options.continue_final_message,
                options.enable_thinking,
                bos_token,
                eos_token,
            )->Ok_0;
            let dropped = raw.len() - text.len();
            &&& text.len() > 0 ==> !is_white_space(text[0])
            &&& 0 <= dropped
            &&& forall|i: int| 0 <= i < dropped ==> is_white_space(#[trigger] raw[i])
            &&& forall|i: int| 0 <= i < text.len() ==> #[trigger] text[i] == raw[dropped + i]
        }),
{
    let raw = rendering(
        source,
        records(messages),
        options.add_generation_prompt,
        options.continue_final_message,
        options.enable_thinking,
        bos_token,
        eos_token,
    )->Ok_0;
    lemma_leading_white_space(raw);
}

impl ChatTemplate {
    #[verifier::type_invariant]
    spec fn holds_chat(self) -> bool {
        &&& template_sources(self.env).contains_key(chat_name())
        &&& added_globals(self.env) == chat_globals()
    }

    /// The Jinja source that the template was compiled from.
    pub closed spec fn source(&self) -> Seq<char> {
        template_sources(self.env)[chat_name()]
    }

    /// The begin-of-sequence marker.
    pub closed spec fn bos(&self) -> Seq<char> {
        self.bos_token@
    }

    /// The end-of-sequence marker.
    pub closed spec fn eos(&self) -> Seq<char> {
        self.eos_token@
    }

    /// Compiles a Jinja template. Fails exactly when the engine does not
    /// accept the source, with a `TemplateError` that carries the engine's
    /// error, written out.
    pub fn new(template: &str, bos_token: &str, eos_token: &str) -> (r: Result<
        Self,
        ChatTemplateError,
    >)
        ensures
            match syntax_error(template@) {
                None => r matches Ok(t) && t.source() == template@ && t.bos() == bos_token@
                    && t.eos() == eos_token@,
                Some(message) => r matches Err(ChatTemplateError::TemplateError(m)) && m@
                    == message,
            },
    {
        let mut env = new_environment();
        add_raise_exception(&mut env);
        match add_chat_template(&mut env, String::from_str(template)) {
            Ok(()) => Ok(
                ChatTemplate {
                    env,
                    bos_token: String::from_str(bos_token),
                    eos_token: String::from_str(eos_token),
                },
            ),
            Err(e) => Err(ChatTemplateError::TemplateError(error_text(&e))),
        }
    }

    /// The ChatML template used by SmolLM, Qwen and many other models, with
    /// an empty begin marker and `<|im_end|>` as end marker.
    pub fn chatml() -> (r: Result<Self, ChatTemplateError>)
        ensures
            match syntax_error(chatml_source()) {
                None => r matches Ok(t) && t.source() == chatml_source() && t.bos() == ""@
                    && t.eos() == "<|im_end|>"@,
                Some(message) => r matches Err(ChatTemplateError::TemplateError(m)) && m@
                    == message,
            },
    {
        Self::new(
            "\n{%- for message in messages %}\n{{- '<|im_start|>' + message.role + '\\n' + message.content | trim + '<|im_end|>\\n' }}\n{%- endfor %}\n{%- if add_generation_prompt %}\n{{- '<|im_start|>assistant\\n' }}\n{%- endif %}\n",
            "",
            "<|im_end|>",
        )
    }

    /// The conversation as values of the template language, one record for
    /// each message, in order.
    fn values(messages: &[Message]) -> (values: Vec<Value>)
        ensures
            records_of(values@) == records(turns(messages@)),
    {
        let mut values: Vec<Value> = Vec::new();
        let mut i: usize = 0;
        while i < messages.len()
            invariant
                i <= messages.len(),
                values.len() == i,
                forall|k: int|
                    0 <= k < i ==> record_fields(#[trigger] values[k]) == record(messages[k]@),
            decreases messages.len() - i,
        {
            values.push(message_value(&messages[i]));
            i = i + 1;
        }
        assert(records_of(values@) =~= records(turns(messages@)));
        values
    }

    /// Renders the conversation and drops the leading white space of the
    /// result. Fails exactly when the engine fails, with a `RenderError`
    /// that carries the engine's error, written out.
    pub fn apply(&self, messages: &[Message], options: &ChatTemplateOptions) -> (r: Result<
        String,
        ChatTemplateError,
    >)
        ensures
            match applied(self.source(), self.bos(), self.eos(), turns(messages@), *options) {
                Ok(text) => r matches Ok(s) && s@ == text,
                Err(message) => r matches Err(ChatTemplateError::RenderError(m)) && m@
                    == message,
            },
    {
        proof {
            use_type_invariant(self);
        }
        let values = Self::values(messages);
        match get_chat_template(&self.env) {
            Ok(template) => {
                match render_chat(
                    &template,
                    values,
                    options,
                    self.bos_token.as_str(),
                    self.eos_token.as_str(),
                ) {
                    Ok(text) => Ok(String::from_str(trim_start(text.as_str()))),
                    Err(e) => Err(ChatTemplateError::RenderError(error_text(&e))),
                }
            },
            Err(e) => Err(ChatTemplateError::TemplateError(error_text(&e))),
        }
    }
}

} // verus!

//! The boundary to the `minijinja` template engine. The functions marked
//! `external_body` and the names without a body are taken on trust: each
//! states what the engine is relied on to do.

use vstd::prelude::*;
use minijinja::value::Value;
use minijinja::{Environment, Error, ErrorKind, Template};

use crate::chat_template::{record, ChatTemplateOptions, Message};

verus! {

/// `minijinja::Environment`, the engine's configuration and its store of
/// compiled templates.
#[verifier::external_type_specification]
#[verifier::external_body]
pub struct ExEnvironment<'source>(Environment<'source>);

/// `minijinja::Template`, a handle to one compiled template of an environment.
#[verifier::external_type_specification]
#[verifier::external_body]
pub struct ExTemplate<'env: 'source, 'source>(Template<'env, 'source>);

/// `minijinja::Value`, a value of the template language.
#[verifier::external_type_specification]
#[verifier::external_body]
pub struct ExValue(Value);

/// `minijinja::Error`, what the engine reports when compiling or rendering fails.
#[verifier::external_type_specification]
#[verifier::external_body]
pub struct ExError(Error);

/// The templates that an environment holds: name to source text.
pub uninterp spec fn template_sources(env: Environment<'static>) -> Map<Seq<char>, Seq<char>>;

/// The globals that an environment holds beyond the engine's defaults, by name.
pub uninterp spec fn added_globals(env: Environment<'static>) -> Set<Seq<char>>;

/// The source text that a template handle of a chat environment was
/// compiled from.
pub uninterp spec fn template_source(template: Template<'_, '_>) -> Seq<char>;

/// What a value holds that is a record of texts: field name to text.
pub uninterp spec fn record_fields(value: Value) -> Map<Seq<char>, Seq<char>>;

/// The detail that an error carries: the message that it was made with,
/// and no text where it has none.
pub uninterp spec fn error_detail(error: Error) -> Seq<char>;

/// The text that an error reads as when it is written out.
pub uninterp spec fn written_out(error: Error) -> Seq<char>;

/// What the engine objects to when it compiles `source` under the name of
/// a chat template: its error, written out, and `None` where it accepts
/// the source, that is, where the control syntax is well formed.
pub uninterp spec fn syntax_error(source: Seq<char>) -> Option<Seq<char>>;

/// What the engine renders from a template with this source, in an
/// environment with the engine's defaults and the globals of a chat
/// environment, that is, this library's `raise_exception`, when the
/// context holds the conversation under the name `messages` (a sequence of
/// records of texts), the three options under `add_generation_prompt`,
/// `continue_final_message` and `enable_thinking`, and the two marker
/// strings under `bos_token` and `eos_token`. Where rendering fails, which
/// includes a call of `raise_exception` by the template, it is the
/// engine's error, written out.
pub uninterp spec fn rendering(
    source: Seq<char>,
    messages: Seq<Map<Seq<char>, Seq<char>>>,
    add_generation_prompt: bool,
    continue_final_message: bool,
    enable_thinking: bool,
    bos_token: Seq<char>,
    eos_token: Seq<char>,
) -> Result<Seq<char>, Seq<char>>;

/// The records that a sequence of values holds.
pub open spec fn records_of(values: Seq<Value>) -> Seq<Map<Seq<char>, Seq<char>>> {
    Seq::new(values.len(), |i: int| record_fields(values[i]))
}

/// An empty store of templates.
pub open spec fn no_templates() -> Map<Seq<char>, Seq<char>> {
    Map::empty()
}

/// The globals of an environment to which none was added.
pub open spec fn no_globals() -> Set<Seq<char>> {
    Set::empty()
}

/// The globals of a chat environment: `raise_exception`, and no other.
pub open spec fn chat_globals() -> Set<Seq<char>> {
    no_globals().insert("raise_exception"@)
}

/// The name under which the one template of a chat environment is stored.
pub open spec fn chat_name() -> Seq<char> {
    "chat"@
}

/// `Error::new` with the kind `InvalidOperation`: an error whose detail is `msg`.
#[verifier::external_body]
fn invalid_operation(msg: String) -> (error: Error)
    ensures
        error_detail(error) == msg@,
{
    Error::new(ErrorKind::InvalidOperation, msg)
}

/// What a template calls to abort rendering with a message of its own: the
/// call fails, whatever the message, with an error that carries the message.
pub(crate) fn raise_exception(msg: String) -> (r: Result<String, Error>)
    ensures
        r matches Err(error) && error_detail(error) == msg@,
{
    Err(invalid_operation(msg))
}

/// `Environment::new`: an environment with the engine's default filters,
/// tests and globals and no other, which holds no template yet.
#[verifier::external_body]
pub(crate) fn new_environment() -> (r: Environment<'static>)
    ensures
        template_sources(r) == no_templates(),
        added_globals(r) == no_globals(),
{
    Environment::new()
}

/// `Environment::add_function` for `raise_exception`: templates can call it
/// under that name from now on; the templates held stay as they are.
#[verifier::external_body]
pub(crate) fn add_raise_exception(env: &mut Environment<'static>)
    ensures
        template_sources(*final(env)) == template_sources(*old(env)),
        added_globals(*final(env)) == added_globals(*old(env)).insert("raise_exception"@),
{
    env.add_function("raise_exception", raise_exception)
}

/// `Environment::add_template_owned` under the name `chat`: fails exactly
/// when the source does not compile, with the engine's error for that
/// source; on success the environment holds the source under that name,
/// and its other templates are unchanged. The globals stay as they are.
#[verifier::external_body]
pub(crate) fn add_chat_template(env: &mut Environment<'static>, source: String) -> (r: Result<
    (),
    Error,
>)
    ensures
        match r {
            Ok(_) => syntax_error(source@) is None,
            Err(error) => syntax_error(source@) == Some(written_out(error)),
        },
        r is Ok ==> template_sources(*final(env)) == template_sources(*old(env)).insert(
            chat_name(),
            source@,
        ),
        added_globals(*final(env)) == added_globals(*old(env)),
{
    env.add_template_owned("chat", source)
}

/// `Environment::get_template` for the name `chat`, on a chat environment:
/// succeeds exactly when the environment holds a template of that name,
/// and hands out that template.
#[verifier::external_body]
pub(crate) fn get_chat_template<'a>(env: &'a Environment<'static>) -> (r: Result<
    Template<'a, 'a>,
    Error,
>)
    requires
        added_globals(*env) == chat_globals(),
    ensures
        r is Ok <==> template_sources(*env).contains_key(chat_name()),
        r matches Ok(template) ==> template_source(template) == template_sources(*env)[chat_name()],
{
    env.get_template("chat")
}

/// `Value::from_iter` on the pairs of a message: a record with the fields
/// `role` and `content`.
#[verifier::external_body]
pub(crate) fn message_value(message: &Message) -> (value: Value)
    ensures
        record_fields(value) == record(message@),
{
    Value::from_iter([("role", message.role.as_str()), ("content", message.content.as_str())])
}

/// `Template::render` on a context built from the arguments: the values of
/// the conversation under `messages`, then the three options and the two
/// markers, each under its own name. The result is the engine's rendering
/// of the template's source on that context, or its error where it fails.
#[verifier::external_body]
pub(crate) fn render_chat(
    template: &Template<'_, '_>,
    messages: Vec<Value>,
    options: &ChatTemplateOptions,
    bos_token: &str,
    eos_token: &str,
) -> (r: Result<String, Error>)
    ensures
        match r {
            Ok(text) => rendering(
                template_source(*template),
                records_of(messages@),
                options.add_generation_prompt,
                options.continue_final_message,
                options.enable_thinking,
                bos_token@,
                eos_token@,
            ) == Ok::<Seq<char>, Seq<char>>(text@),
            Err(error) => rendering(
                template_source(*template),
                records_of(messages@),
                options.add_generation_prompt,
                options.continue_final_message,
                options.enable_thinking,
                bos_token@,
                eos_token@,
            ) == Err::<Seq<char>, Seq<char>>(written_out(error)),
        },
{
    template.render(Value::from_iter([
        ("messages", Value::from(messages)),
        ("add_generation_prompt", Value::from(options.add_generation_prompt)),
        ("continue_final_message", Value::from(options.continue_final_message)),
        ("enable_thinking", Value::from(options.enable_thinking)),
        ("bos_token", Value::from(bos_token)),
        ("eos_token", Value::from(eos_token)),
    ]))
}

/// `to_string` on an engine error: the error, written out.
#[verifier::external_body]
pub(crate) fn error_text(error: &Error) -> (text: String)
    ensures
        text@ == written_out(*error),
{
    error.to_string()
}

} // verus!

//! Token-by-token text generation for a chat model: prompt templating, the
//! decisions of the generation loop, and streaming detokenization.

use vstd::prelude::*;
use std::sync::atomic::AtomicBool;
use std::sync::Arc;

pub mod chat_template;
pub mod clock;
pub mod codec;
pub mod generation;
pub mod jinja;
pub mod session;
pub mod signal;
pub mod text;
pub mod tokenizer;

verus! {

/// What a pipeline is set up from.
pub struct ModelArgs {
    pub model_path: String,
    pub system_prompt: Option<String>,
    pub enable_thinking: Option<bool>,
    pub interrupt_signal: Arc<AtomicBool>,
}

impl ModelArgs {
    /// The arguments as given.
    pub fn new(
        model_path: String,
        system_prompt: Option<String>,
        enable_thinking: Option<bool>,
        interrupt_signal: Arc<AtomicBool>,
    ) -> (args: Self)
        ensures
            args.model_path == model_path,
            args.system_prompt == system_prompt,
            args.enable_thinking == enable_thinking,
            args.interrupt_signal == interrupt_signal,
    {
        ModelArgs { model_path, system_prompt, enable_thinking, interrupt_signal }
    }
}

} // verus!

//! A local inference engine: a prompt goes in, optionally preceded by what the
//! memory store holds; a model backend runs it under token and time budgets;
//! one response shape comes out, whatever happened.

pub mod config;
pub mod error;
pub mod generation;
pub mod memory;
pub mod memory_laws;
pub mod runtime;
pub mod service;
pub mod text;

use vstd::prelude::*;
use vstd::string::*;
use crate::config::EngineConfig;
use crate::error::EngineError;
use crate::memory::{MemoryData, MemoryManager};
use crate::runtime::{InferenceOptions, InferenceResult, ModelLoadConfig, ModelRuntime, Usage};

verus! {

/// The text of a response.
#[derive(Debug, Clone)]
pub struct OutputContent {
    pub text: String,
}

/// The one shape in which every request is answered, failures included.
#[derive(Debug, Clone)]
pub struct EngineResponse {
    /// `"success"`, `"truncated"` or `"error"`.
    pub status: String,
    /// Reserved; always absent.
    pub intent: Option<String>,
    pub output: OutputContent,
    pub usage: Usage,
    /// The failure, where the status is `"error"` because something failed.
    pub error: Option<String>,
}

/// A response as the contracts see it.
pub struct ResponseView {
    pub status: Seq<char>,
    pub intent: Option<Seq<char>>,
    pub text: Seq<char>,
    pub usage: Usage,
    pub error: Option<Seq<char>>,
}

/// An optional string as the contracts see it.
pub open spec fn optional_text(text: Option<String>) -> Option<Seq<char>> {
    match text {
        Some(s) => Some(s@),
        None => None,
    }
}

impl View for EngineResponse {
    type V = ResponseView;

    open spec fn view(&self) -> ResponseView {
        ResponseView {
            status: self.status@,
            intent: optional_text(self.intent),
            text: self.output.text@,
            usage: self.usage,
            error: optional_text(self.error),
        }
    }
}

/// The response to a request that failed with `message`: status `"error"`, no
/// text, zero usage, and the message.
pub open spec fn failure_view(message: Seq<char>) -> ResponseView {
    ResponseView {
        status: "error"@,
        intent: None,
        text: Seq::empty(),
        usage: Usage::zero(),
        error: Some(message),
    }
}

/// The response to a backend outcome. A result is reported under the name of
/// its status, with its text and usage and without an error. A failure is
/// never passed on: it becomes the failure response that carries its message.
pub open spec fn response_of(outcome: Result<InferenceResult, EngineError>) -> ResponseView {
    match outcome {
        Ok(result) => ResponseView {
            status: result.status.text(),
            intent: None,
            text: result.text@,
            usage: result.usage,
            error: None,
        },
        Err(e) => failure_view(e.message_text()),
    }
}

/// The prompt that the backend receives: the injection text, then the
/// caller's prompt, with nothing in between.
pub open spec fn final_prompt(injection: Seq<char>, prompt: Seq<char>) -> Seq<char> {
    injection + prompt
}

/// The load request that a configuration asks for.
pub open spec fn load_request(config: EngineConfig) -> ModelLoadConfig {
    ModelLoadConfig {
        model_path: config.model.default_path,
        context_size: config.model.default_context_size,
        gpu_layers: config.model.default_gpu_layers,
    }
}

impl EngineResponse {
    /// The response to a request that failed with `message`.
    pub fn failure(message: String) -> (response: EngineResponse)
        ensures
            response@ == failure_view(message@),
    {
        EngineResponse {
            status: String::from_str("error"),
            intent: None,
            output: OutputContent { text: String::new() },
            usage: Usage::default(),
            error: Some(message),
        }
    }

    /// Maps a backend outcome to its response.
    pub fn from_outcome(outcome: Result<InferenceResult, EngineError>) -> (response:
        EngineResponse)
        ensures
            response@ == response_of(outcome),
    {
        match outcome {
            Ok(result) => EngineResponse {
                status: String::from_str(result.status.as_str()),
                intent: None,
                output: OutputContent { text: result.text },
                usage: result.usage,
                error: None,
            },
            Err(e) => EngineResponse::failure(e.message()),
        }
    }
}

/// The load request that `config` asks for.
pub fn model_load_request(config: &EngineConfig) -> (request: ModelLoadConfig)
    ensures
        request == load_request(*config),
{
    ModelLoadConfig {
        model_path: config.model.default_path.clone(),
        context_size: config.model.default_context_size,
        gpu_layers: config.model.default_gpu_layers,
    }
}

/// Puts the injection text in front of the prompt.
pub fn compose_prompt(injection: &str, prompt: &str) -> (composed: String)
    ensures
        composed@ == final_prompt(injection@, prompt@),
{
    String::from_str(injection).concat(prompt)
}

/// Asks `runtime` to load the model that `config` names. The backend is
/// handed the load request of `config`, and what it answers is handed back
/// as it is.
pub fn load_model<R: ModelRuntime>(runtime: &mut R, config: &EngineConfig) -> (outcome: Result<
    (),
    EngineError,
>)
    ensures
        old(runtime).load_answers(load_request(*config), outcome),
{
    let request = model_load_request(config);
    runtime.load(&request)
}

/// Runs `prompt`, preceded by `injection`, on `runtime`, and maps what comes
/// back. The backend is handed the composed prompt and `options` as they
/// are. Whatever it answers, result or failure, the response is that of
/// `response_of` to the answer, and its total is the sum of its input and
/// output tokens.
pub fn respond<R: ModelRuntime>(
    runtime: &mut R,
    injection: &str,
    prompt: &str,
    options: InferenceOptions,
) -> (response: EngineResponse)
    ensures
        exists|answer: Result<InferenceResult, EngineError>|
            #![trigger response_of(answer)]
            old(runtime).answers(final_prompt(injection@, prompt@), options, answer) && response@
                == response_of(answer),
        response@.usage.balanced(),
{
    let composed = compose_prompt(injection, prompt);
    let answer = runtime.infer(composed.as_str(), options);
    let response = EngineResponse::from_outcome(answer);
    assert(response@ == response_of(answer));
    response
}

/// The engine: the single entry point that turns a prompt into a response.
/// It owns the backend and the memory store.
pub struct Engine<R: ModelRuntime> {
    config: EngineConfig,
    runtime: R,
    pub memory: MemoryManager,
}

impl<R: ModelRuntime> Engine<R> {
    /// The configuration the engine was made with.
    pub closed spec fn config(&self) -> EngineConfig {
        self.config
    }

    /// The backend the engine owns.
    pub closed spec fn runtime(&self) -> R {
        self.runtime
    }

    /// The memory store the engine owns.
    pub closed spec fn store(&self) -> MemoryManager {
        self.memory
    }

    /// The prompt that the backend receives for the caller's `prompt`: what
    /// the memory store injects, then `prompt`.
    pub open spec fn prompt_for(&self, prompt: Seq<char>) -> Seq<char> {
        final_prompt(self.store().injection(), prompt)
    }

    /// Makes the engine around `runtime`. The memory store is made from the
    /// memory part of `config` and from `persisted`, the document found at
    /// its persistence location, if any.
    pub fn new(config: EngineConfig, runtime: R, persisted: Option<MemoryData>) -> (engine: Self)
        ensures
            engine.config() == config,
            engine.runtime() == runtime,
            engine.store().wf(),
            engine.store().config() == config.memory,
            engine.store().state() == crate::memory::initial_state(
                config.memory,
                match persisted {
                    Some(document) => Some(document@),
                    None => None,
                },
            ),
    {
        let memory = MemoryManager::new(config.memory.clone(), persisted);
        Engine { config, runtime, memory }
    }

    /// Loads the configured model. The backend is handed the request that
    /// the configuration asks for, and what it answers is handed back as it
    /// is: a failure here is the caller's to deal with, since nothing can be
    /// served without a model. Configuration and memory are untouched.
    pub fn init(&mut self) -> (outcome: Result<(), EngineError>)
        ensures
            old(self).runtime().load_answers(load_request(old(self).config()), outcome),
            final(self).config() == old(self).config(),
            final(self).store() == old(self).store(),
    {
        load_model(&mut self.runtime, &self.config)
    }

    /// The prompt that the backend is handed for the caller's `prompt`.
    pub fn prepare(&self, prompt: &str) -> (composed: String)
        ensures
            composed@ == self.prompt_for(prompt@),
    {
        let injection = self.memory.get_injection_text();
        compose_prompt(injection.as_str(), prompt)
    }

    /// Answers `prompt`. The backend is handed what the memory store injects
    /// followed by the prompt, and `options` as they are. Whatever it
    /// answers, result or failure, the response is that of `response_of` to
    /// the answer: this function never fails. The total of the response is
    /// the sum of its input and output tokens. Memory is read, not changed.
    pub fn process_request(&mut self, prompt: &str, options: InferenceOptions) -> (outcome: Result<
        EngineResponse,
        EngineError,
    >)
        ensures
            outcome is Ok,
            exists|answer: Result<InferenceResult, EngineError>|
                #![trigger response_of(answer)]
                old(self).runtime().answers(old(self).prompt_for(prompt@), options, answer)
                    && outcome->Ok_0@ == response_of(answer),
            outcome->Ok_0@.usage.balanced(),
            final(self).config() == old(self).config(),
            final(self).store() == old(self).store(),
    {
        let injection = self.memory.get_injection_text();
        Ok(respond(&mut self.runtime, injection.as_str(), prompt, options))
    }
}

} // verus!

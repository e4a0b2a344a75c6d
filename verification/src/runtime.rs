//! What a model backend is handed and what it hands back, and the capability
//! that every backend offers.

use vstd::prelude::*;
use vstd::string::*;
use crate::error::EngineError;

verus! {

/// Generated tokens allowed when a request names no limit.
pub const DEFAULT_MAX_TOKENS: u32 = 128;

/// Wall-clock budget, in milliseconds, when a request names none.
pub const DEFAULT_MAX_TIME_MS: u64 = 30000;

/// The bit pattern of the single-precision float `0.0`, the default
/// temperature.
pub const TEMPERATURE_ZERO: u32 = 0;

/// Caller-supplied ceilings for one inference call.
///
/// `temperature` holds the IEEE-754 single-precision bit pattern of the
/// requested temperature. It is carried through to the backend; the generation
/// policy itself is greedy and does not read it.
#[derive(Debug, Clone)]
pub struct InferenceOptions {
    pub max_tokens: Option<u32>,
    pub max_time_ms: Option<u64>,
    pub temperature: Option<u32>,
    pub stop_sequences: Vec<String>,
}

impl InferenceOptions {
    /// The token budget in force: the one named, or the default.
    pub open spec fn token_budget(&self) -> u32 {
        match self.max_tokens {
            Some(n) => n,
            None => DEFAULT_MAX_TOKENS,
        }
    }

    /// The time budget in force, in milliseconds: the one named, or the
    /// default.
    pub open spec fn time_budget_ms(&self) -> u64 {
        match self.max_time_ms {
            Some(ms) => ms,
            None => DEFAULT_MAX_TIME_MS,
        }
    }
}

impl Default for InferenceOptions {
    fn default() -> (options: Self)
        ensures
            options.max_tokens == Some(DEFAULT_MAX_TOKENS),
            options.max_time_ms == Some(DEFAULT_MAX_TIME_MS),
            options.temperature == Some(TEMPERATURE_ZERO),
            options.stop_sequences@.len() == 0,
    {
        InferenceOptions {
            max_tokens: Some(DEFAULT_MAX_TOKENS),
            max_time_ms: Some(DEFAULT_MAX_TIME_MS),
            temperature: Some(TEMPERATURE_ZERO),
            stop_sequences: Vec::new(),
        }
    }
}

/// What a backend needs to load a model.
#[derive(Debug, Clone)]
pub struct ModelLoadConfig {
    pub model_path: String,
    pub context_size: usize,
    pub gpu_layers: usize,
}

/// Token and time accounting of one inference call.
#[derive(Debug, Clone, Copy, PartialEq, Eq, Structural)]
pub struct Usage {
    pub input_tokens: u32,
    pub output_tokens: u32,
    pub total_tokens: u32,
    pub duration_ms: u64,
}

impl Usage {
    /// The accounting of a call that never ran: every counter zero.
    pub open spec fn zero() -> Usage {
        Usage { input_tokens: 0, output_tokens: 0, total_tokens: 0, duration_ms: 0 }
    }

    /// Whether the total is the sum of its two parts.
    pub open spec fn balanced(&self) -> bool {
        self.total_tokens == self.input_tokens + self.output_tokens
    }
}

impl Default for Usage {
    fn default() -> (usage: Self)
        ensures
            usage == Usage::zero(),
    {
        Usage { input_tokens: 0, output_tokens: 0, total_tokens: 0, duration_ms: 0 }
    }
}

/// How an inference attempt ended.
#[derive(Debug, Clone, Copy, PartialEq, Eq, Structural)]
pub enum InferenceStatus {
    /// The model produced its end-of-sequence token within every budget.
    Success,
    /// A budget or the context size stopped generation first.
    Truncated,
    /// The attempt failed.
    Error,
}

impl InferenceStatus {
    /// The lower-case name under which the status is reported.
    pub open spec fn text(&self) -> Seq<char> {
        match self {
            InferenceStatus::Success => "success"@,
            InferenceStatus::Truncated => "truncated"@,
            InferenceStatus::Error => "error"@,
        }
    }

    /// The lower-case name under which the status is reported.
    pub fn as_str(&self) -> (name: &'static str)
        ensures
            name@ == self.text(),
    {
        match self {
            InferenceStatus::Success => "success",
            InferenceStatus::Truncated => "truncated",
            InferenceStatus::Error => "error",
        }
    }
}

/// The outcome of one completed inference call.
#[derive(Debug, Clone)]
pub struct InferenceResult {
    pub text: String,
    pub usage: Usage,
    pub status: InferenceStatus,
}

/// The capability of a model backend: load a model, run inference on it,
/// release it.
///
/// The engine is written against this trait, so that the native backend and
/// deterministic test doubles are interchangeable. An implementation follows
/// the generation policy of `crate::generation`. The clauses on the three
/// methods are obligations that the implementor takes on: for an
/// implementation that is not verified they are assumed, and what is proved
/// of the engine rests on them.
pub trait ModelRuntime {
    /// Whether `outcome` is what this backend, in this state, may return to
    /// the load request `config`. An implementation that does not say
    /// leaves every outcome open.
    open spec fn load_answers(
        &self,
        config: ModelLoadConfig,
        outcome: Result<(), EngineError>,
    ) -> bool {
        true
    }

    /// Whether `outcome` is what this backend, in this state, may return for
    /// `prompt` under `options`. An implementation that does not say leaves
    /// every outcome open.
    open spec fn answers(
        &self,
        prompt: Seq<char>,
        options: InferenceOptions,
        outcome: Result<InferenceResult, EngineError>,
    ) -> bool {
        true
    }

    /// Prepares the model and a decoding context of `config.context_size`
    /// tokens. Fails on a path that cannot be used and on a model that cannot
    /// be loaded.
    fn load(&mut self, config: &ModelLoadConfig) -> (outcome: Result<(), EngineError>)
        ensures
            old(self).load_answers(*config, outcome),
    ;

    /// Runs one bounded generation on `prompt`. Fails with `ModelNotLoaded`
    /// while no model is loaded. A completed call reports a total that is the
    /// sum of its input and output tokens.
    fn infer(&mut self, prompt: &str, options: InferenceOptions) -> (outcome: Result<
        InferenceResult,
        EngineError,
    >)
        ensures
            old(self).answers(prompt@, options, outcome),
            outcome matches Ok(result) ==> result.usage.balanced(),
    ;

    /// Releases the model. Always succeeds. Inference then fails with
    /// `ModelNotLoaded` until the next successful load.
    fn unload(&mut self) -> (outcome: Result<(), EngineError>)
        ensures
            outcome is Ok,
    ;
}

/// A loaded model and the size of its decoding context, in tokens.
pub struct LoadedModel<M> {
    pub model: M,
    pub context_size: u32,
}

/// The context size, in tokens, that a backend prepares for a load request
/// that asks for `requested` tokens: as many, up to the most that a token
/// position can count.
pub open spec fn context_tokens(requested: usize) -> u32 {
    if requested > u32::MAX {
        u32::MAX
    } else {
        requested as u32
    }
}

/// The place of a backend's model: empty until a load succeeds and again
/// after each unload. A backend keeps its model here, so that inference
/// without a model fails the same way in every backend.
pub struct ModelSlot<M> {
    held: Option<LoadedModel<M>>,
}

impl<M> ModelSlot<M> {
    /// What the slot holds.
    pub closed spec fn held(&self) -> Option<LoadedModel<M>> {
        self.held
    }

    /// The slot of a backend that has not loaded anything.
    pub fn new() -> (slot: Self)
        ensures
            slot.held() is None,
    {
        ModelSlot { held: None }
    }

    /// Puts a freshly loaded model in the slot, in place of what it held.
    pub fn install(&mut self, model: M, context_size: usize)
        ensures
            final(self).held() == Some(
                LoadedModel { model, context_size: context_tokens(context_size) },
            ),
    {
        let context_size: u32 = if context_size > u32::MAX as usize {
            u32::MAX
        } else {
            context_size as u32
        };
        self.held = Some(LoadedModel { model, context_size });
    }

    /// Empties the slot. There is nothing that can go wrong.
    pub fn release(&mut self)
        ensures
            final(self).held() is None,
    {
        self.held = None;
    }

    /// The model to run inference on. Fails with `ModelNotLoaded` exactly
    /// when the slot is empty.
    pub fn loaded(&self) -> (outcome: Result<&LoadedModel<M>, EngineError>)
        ensures
            match outcome {
                Ok(loaded) => self.held() == Some(*loaded),
                Err(e) => self.held() is None && e == EngineError::ModelNotLoaded,
            },
    {
        match &self.held {
            Some(loaded) => Ok(loaded),
            None => Err(EngineError::ModelNotLoaded),
        }
    }
}

} // verus!

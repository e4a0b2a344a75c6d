//! The failures that the engine and its collaborators report.

use vstd::prelude::*;
use vstd::string::*;
use crate::text::{decimal, push_decimal};

verus! {

/// Every failure the engine can report.
#[derive(Debug)]
pub enum EngineError {
    /// Bad settings, or a request that fails validation.
    Config(String),
    /// The backend failed while tokenizing, batching or decoding.
    Runtime(String),
    /// Inference was asked for while no model is loaded.
    ModelNotLoaded,
    /// The tokenized prompt does not fit the decoding context.
    ContextOverflow { input_tokens: u64, context_size: u64 },
    /// The fact map is full and the key is not one of its keys.
    CapacityExceeded,
    /// Persisting or reading state failed.
    Io(String),
    /// Serialization failures and anything unclassified.
    Unknown(String),
}

impl EngineError {
    /// The text that `message` renders for this error.
    pub open spec fn message_text(&self) -> Seq<char> {
        match self {
            EngineError::Config(detail) => "Configuration error: "@ + detail@,
            EngineError::Runtime(detail) => "Runtime error: "@ + detail@,
            EngineError::ModelNotLoaded => "Model not loaded"@,
            EngineError::ContextOverflow { input_tokens, context_size } => {
                "Context overflow: input length ("@ + decimal(*input_tokens as nat)
                    + ") exceeds context size ("@ + decimal(*context_size as nat) + ")"@
            },
            EngineError::CapacityExceeded => "Capacity exceeded: memory KV limit reached"@,
            EngineError::Io(detail) => "IO error: "@ + detail@,
            EngineError::Unknown(detail) => "Unknown error: "@ + detail@,
        }
    }

    /// Renders the error for people and for the `error` field of a response.
    pub fn message(&self) -> (text: String)
        ensures
            text@ == self.message_text(),
    {
        match self {
            EngineError::Config(detail) => String::from_str("Configuration error: ").concat(
                detail.as_str(),
            ),
            EngineError::Runtime(detail) => String::from_str("Runtime error: ").concat(
                detail.as_str(),
            ),
            EngineError::ModelNotLoaded => String::from_str("Model not loaded"),
            EngineError::ContextOverflow { input_tokens, context_size } => {
                let mut text = String::from_str("Context overflow: input length (");
                push_decimal(&mut text, *input_tokens);
                text.append(") exceeds context size (");
                push_decimal(&mut text, *context_size);
                text.append(")");
                text
            },
            EngineError::CapacityExceeded => String::from_str(
                "Capacity exceeded: memory KV limit reached",
            ),
            EngineError::Io(detail) => String::from_str("IO error: ").concat(detail.as_str()),
            EngineError::Unknown(detail) => String::from_str("Unknown error: ").concat(
                detail.as_str(),
            ),
        }
    }
}

} // verus!

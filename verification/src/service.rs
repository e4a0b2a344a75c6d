//! The completion service as the transport sees it: the request shape, its
//! validation, and the handler that always answers with a response.

use vstd::prelude::*;
use vstd::string::*;
use crate::error::EngineError;
use crate::runtime::{
    InferenceOptions, InferenceResult, ModelRuntime, DEFAULT_MAX_TIME_MS, DEFAULT_MAX_TOKENS,
    TEMPERATURE_ZERO,
};
use crate::text::{is_blank, str_is_blank};
use crate::{failure_view, response_of, Engine, EngineResponse};

verus! {

/// The most tokens a request may ask for.
pub const MAX_TOKENS_LIMIT: u32 = 8192;

/// The longest time budget a request may ask for, in milliseconds.
pub const MAX_TIME_MS_LIMIT: u64 = 300000;

/// The bit pattern of the single-precision float `2.0`, the highest
/// temperature a request may ask for.
pub const TEMPERATURE_MAX: u32 = 0x4000_0000;

/// The bit pattern of the single-precision float `-0.0`, which is zero.
pub const TEMPERATURE_NEGATIVE_ZERO: u32 = 0x8000_0000;

/// What the health endpoint reports.
#[derive(Debug, Clone)]
pub struct HealthReport {
    pub status: String,
    pub service: String,
    pub version: String,
}

/// The health report: the service is up, and which service it is.
pub fn health_check() -> (report: HealthReport)
    ensures
        report.status@ == "ok"@,
        report.service@ == "lie-server"@,
        report.version@ == "1.0.0"@,
{
    HealthReport {
        status: String::from_str("ok"),
        service: String::from_str("lie-server"),
        version: String::from_str("1.0.0"),
    }
}

/// The limits a request may name. `temperature` is the IEEE-754
/// single-precision bit pattern of the requested temperature.
#[derive(Debug, Clone, Copy, PartialEq, Eq, Structural)]
pub struct RequestLimits {
    pub max_tokens: Option<u32>,
    pub max_time_ms: Option<u64>,
    pub temperature: Option<u32>,
}

/// The body of a completion request.
#[derive(Debug, Clone)]
pub struct CompletionRequest {
    pub prompt: String,
    pub limits: Option<RequestLimits>,
}

/// Whether the float with bit pattern `bits` lies in `[0.0, 2.0]`.
///
/// The floats from `0.0` up to `2.0` are exactly those whose bit pattern,
/// read as an integer, lies between that of `0.0`, which is zero, and that of
/// `2.0`: among non-negative floats, order of value is order of bit pattern.
/// Negative zero equals zero. Every other pattern with the sign bit set is
/// negative, and every pattern above that of `2.0` is larger, infinite or not
/// a number.
pub open spec fn temperature_in_range(bits: u32) -> bool {
    bits <= TEMPERATURE_MAX || bits == TEMPERATURE_NEGATIVE_ZERO
}

/// Whether `max_tokens` is one a request may name.
pub open spec fn max_tokens_in_range(max_tokens: u32) -> bool {
    1 <= max_tokens <= MAX_TOKENS_LIMIT
}

/// Whether `max_time_ms` is one a request may name.
pub open spec fn max_time_in_range(max_time_ms: u64) -> bool {
    max_time_ms <= MAX_TIME_MS_LIMIT
}

/// Why a request is rejected, if it is: the message of the first rule it
/// breaks, the prompt first, then the limits in the order of their fields.
pub open spec fn rejection(prompt: Seq<char>, limits: Option<RequestLimits>) -> Option<Seq<char>> {
    if is_blank(prompt) {
        Some("Validation Error: Prompt cannot be empty"@)
    } else {
        match limits {
            None => None,
            Some(limits) => {
                if limits.max_tokens matches Some(n) && !max_tokens_in_range(n) {
                    Some("Validation Error: max_tokens must be between 1 and 8192"@)
                } else if limits.max_time_ms matches Some(ms) && !max_time_in_range(ms) {
                    Some("Validation Error: max_time_ms cannot exceed 300000"@)
                } else if limits.temperature matches Some(bits) && !temperature_in_range(bits) {
                    Some("Validation Error: temperature must be between 0.0 and 2.0"@)
                } else {
                    None
                }
            },
        }
    }
}

/// Whether `options` are those of a valid request with `limits`: each limit
/// that the request names, and the default for each that it does not.
pub open spec fn options_for(limits: Option<RequestLimits>, options: InferenceOptions) -> bool {
    &&& options.max_tokens == Some(
        match limits {
            Some(RequestLimits { max_tokens: Some(n), .. }) => n,
            _ => DEFAULT_MAX_TOKENS,
        },
    )
    &&& options.max_time_ms == Some(
        match limits {
            Some(RequestLimits { max_time_ms: Some(ms), .. }) => ms,
            _ => DEFAULT_MAX_TIME_MS,
        },
    )
    &&& options.temperature == Some(
        match limits {
            Some(RequestLimits { temperature: Some(bits), .. }) => bits,
            _ => TEMPERATURE_ZERO,
        },
    )
    &&& options.stop_sequences@.len() == 0
}

/// Checks a request and turns its limits into inference options. A request
/// is rejected exactly when `rejection` names a reason, and with that reason.
pub fn validate_request(payload: &CompletionRequest) -> (outcome: Result<InferenceOptions, String>)
    ensures
        match outcome {
            Ok(options) => rejection(payload.prompt@, payload.limits) is None && options_for(
                payload.limits,
                options,
            ),
            Err(message) => rejection(payload.prompt@, payload.limits) == Some(message@),
        },
{
    if str_is_blank(payload.prompt.as_str()) {
        return Err(String::from_str("Validation Error: Prompt cannot be empty"));
    }
    let mut options = InferenceOptions::default();
    if let Some(limits) = &payload.limits {
        if let Some(n) = limits.max_tokens {
            if n == 0 || n > MAX_TOKENS_LIMIT {
                return Err(
                    String::from_str("Validation Error: max_tokens must be between 1 and 8192"),
                );
            }
            options.max_tokens = Some(n);
        }
        if let Some(ms) = limits.max_time_ms {
            if ms > MAX_TIME_MS_LIMIT {
                return Err(
                    String::from_str("Validation Error: max_time_ms cannot exceed 300000"),
                );
            }
            options.max_time_ms = Some(ms);
        }
        if let Some(bits) = limits.temperature {
            if !(bits <= TEMPERATURE_MAX || bits == TEMPERATURE_NEGATIVE_ZERO) {
                return Err(
                    String::from_str(
                        "Validation Error: temperature must be between 0.0 and 2.0",
                    ),
                );
            }
            options.temperature = Some(bits);
        }
    }
    Ok(options)
}

/// Decides whether a request is served. A request that fails validation is
/// turned away with the failure response that carries the reason; a valid
/// one is let in with its inference options.
pub fn screen(payload: &CompletionRequest) -> (outcome: Result<InferenceOptions, EngineResponse>)
    ensures
        match outcome {
            Ok(options) => rejection(payload.prompt@, payload.limits) is None && options_for(
                payload.limits,
                options,
            ),
            Err(response) => rejection(payload.prompt@, payload.limits) matches Some(message)
                && response@ == failure_view(message),
        },
{
    match validate_request(payload) {
        Ok(options) => Ok(options),
        Err(message) => Err(EngineResponse::failure(message)),
    }
}

/// Serves one completion request. A request that fails validation is
/// answered with the failure response that carries the reason, and the
/// backend is not called. A valid request is answered by the engine, with the
/// options that validation produced. Either way the caller gets a response,
/// never a failure.
pub fn handle_completion<R: ModelRuntime>(
    engine: &mut Engine<R>,
    payload: &CompletionRequest,
) -> (response: EngineResponse)
    ensures
        match rejection(payload.prompt@, payload.limits) {
            Some(message) => response@ == failure_view(message) && final(engine).runtime()
                == old(engine).runtime(),
            None => exists|options: InferenceOptions, answer: Result<InferenceResult, EngineError>|
                options_for(payload.limits, options) && #[trigger] old(engine).runtime().answers(
                    old(engine).prompt_for(payload.prompt@),
                    options,
                    answer,
                ) && response@ == response_of(answer),
        },
        response@.usage.balanced(),
        final(engine).config() == old(engine).config(),
        final(engine).store() == old(engine).store(),
{
    match screen(payload) {
        Err(response) => response,
        Ok(options) => {
            match engine.process_request(payload.prompt.as_str(), options) {
                Ok(response) => response,
                Err(e) => EngineResponse::failure(
                    String::from_str("Runtime Error: ").concat(e.message().as_str()),
                ),
            }
        },
    }
}

} // verus!

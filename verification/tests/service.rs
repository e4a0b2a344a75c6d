use lie_core::config::EngineConfig;
use lie_core::error::EngineError;
use lie_core::runtime::{
    InferenceOptions, InferenceResult, InferenceStatus, ModelLoadConfig, ModelRuntime, Usage,
};
use lie_core::service::{
    handle_completion, screen, validate_request, CompletionRequest, RequestLimits,
};
use lie_core::Engine;

/// A backend that counts its calls and echoes prompt and token budget.
struct CountingRuntime {
    calls: u32,
}

impl ModelRuntime for CountingRuntime {
    fn load(&mut self, _config: &ModelLoadConfig) -> Result<(), EngineError> {
        Ok(())
    }

    fn infer(
        &mut self,
        prompt: &str,
        options: InferenceOptions,
    ) -> Result<InferenceResult, EngineError> {
        self.calls += 1;
        Ok(InferenceResult {
            text: format!(
                "{}|{:?}|{:?}|{:?}|{}",
                prompt,
                options.max_tokens,
                options.max_time_ms,
                options.temperature,
                self.calls
            ),
            usage: Usage { input_tokens: 2, output_tokens: 3, total_tokens: 5, duration_ms: 1 },
            status: InferenceStatus::Success,
        })
    }

    fn unload(&mut self) -> Result<(), EngineError> {
        Ok(())
    }
}

fn request(prompt: &str, limits: Option<RequestLimits>) -> CompletionRequest {
    CompletionRequest { prompt: prompt.to_string(), limits }
}

fn limits(
    max_tokens: Option<u32>,
    max_time_ms: Option<u64>,
    temperature: Option<f32>,
) -> RequestLimits {
    RequestLimits { max_tokens, max_time_ms, temperature: temperature.map(f32::to_bits) }
}

#[test]
fn test_validation_empty_prompt() {
    let req = CompletionRequest { prompt: "   ".to_string(), limits: None };
    assert!(validate_request(&req).is_err());
}

#[test]
fn test_validation_invalid_limits() {
    let req = CompletionRequest {
        prompt: "Hi".to_string(),
        limits: Some(RequestLimits {
            max_tokens: Some(9000),
            max_time_ms: None,
            temperature: None,
        }),
    };
    assert!(validate_request(&req).is_err());
}

#[test]
fn test_validation_valid() {
    let req = CompletionRequest {
        prompt: "Hi".to_string(),
        limits: Some(RequestLimits {
            max_tokens: Some(10),
            max_time_ms: None,
            temperature: Some(0.5f32.to_bits()),
        }),
    };
    assert!(validate_request(&req).is_ok());
}

#[test]
fn blank_prompts_are_rejected() {
    for prompt in ["", " ", "\t\n", "\u{a0}\u{2003}\u{3000}", " \r\n \u{85}"] {
        assert_eq!(
            validate_request(&request(prompt, None)).unwrap_err(),
            "Validation Error: Prompt cannot be empty"
        );
    }
}

#[test]
fn prompts_with_any_text_are_accepted() {
    for prompt in ["a", "  a  ", "\n.\n", "\u{200b}"] {
        assert!(validate_request(&request(prompt, None)).is_ok());
    }
}

#[test]
fn valid_request_without_limits_gets_the_defaults() {
    let options = validate_request(&request("Hi", None)).unwrap();
    assert_eq!(options.max_tokens, Some(128));
    assert_eq!(options.max_time_ms, Some(30000));
    assert_eq!(options.temperature, Some(0.0f32.to_bits()));
    assert!(options.stop_sequences.is_empty());
}

#[test]
fn valid_request_keeps_the_limits_it_names() {
    let options =
        validate_request(&request("Hi", Some(limits(Some(10), None, Some(0.5))))).unwrap();
    assert_eq!(options.max_tokens, Some(10));
    assert_eq!(options.max_time_ms, Some(30000));
    assert_eq!(options.temperature.map(f32::from_bits), Some(0.5));

    let options =
        validate_request(&request("Hi", Some(limits(None, Some(1234), None)))).unwrap();
    assert_eq!(options.max_tokens, Some(128));
    assert_eq!(options.max_time_ms, Some(1234));
    assert_eq!(options.temperature.map(f32::from_bits), Some(0.0));
}

#[test]
fn max_tokens_bounds() {
    let message = "Validation Error: max_tokens must be between 1 and 8192";
    for bad in [0u32, 8193, 9000, u32::MAX] {
        assert_eq!(
            validate_request(&request("Hi", Some(limits(Some(bad), None, None)))).unwrap_err(),
            message
        );
    }
    for good in [1u32, 2, 128, 8191, 8192] {
        let options =
            validate_request(&request("Hi", Some(limits(Some(good), None, None)))).unwrap();
        assert_eq!(options.max_tokens, Some(good));
    }
}

#[test]
fn max_time_bounds() {
    let message = "Validation Error: max_time_ms cannot exceed 300000";
    for bad in [300_001u64, 1_000_000, u64::MAX] {
        assert_eq!(
            validate_request(&request("Hi", Some(limits(None, Some(bad), None)))).unwrap_err(),
            message
        );
    }
    for good in [0u64, 1, 30_000, 299_999, 300_000] {
        let options =
            validate_request(&request("Hi", Some(limits(None, Some(good), None)))).unwrap();
        assert_eq!(options.max_time_ms, Some(good));
    }
}

#[test]
fn temperature_bounds() {
    let message = "Validation Error: temperature must be between 0.0 and 2.0";
    for bad in [-0.1f32, -1.0, 2.0001, 2.5, 100.0, f32::INFINITY, f32::NEG_INFINITY, f32::NAN] {
        assert_eq!(
            validate_request(&request("Hi", Some(limits(None, None, Some(bad))))).unwrap_err(),
            message,
            "temperature {}",
            bad
        );
    }
    for good in [0.0f32, -0.0, f32::MIN_POSITIVE, 0.5, 0.7, 1.0, 1.9999999, 2.0] {
        let options =
            validate_request(&request("Hi", Some(limits(None, None, Some(good))))).unwrap();
        assert_eq!(options.temperature, Some(good.to_bits()), "temperature {}", good);
    }
}

#[test]
fn first_broken_rule_is_reported() {
    assert_eq!(
        validate_request(&request(" ", Some(limits(Some(0), Some(u64::MAX), Some(9.0)))))
            .unwrap_err(),
        "Validation Error: Prompt cannot be empty"
    );
    assert_eq!(
        validate_request(&request("x", Some(limits(Some(0), Some(u64::MAX), Some(9.0)))))
            .unwrap_err(),
        "Validation Error: max_tokens must be between 1 and 8192"
    );
    assert_eq!(
        validate_request(&request("x", Some(limits(Some(1), Some(u64::MAX), Some(9.0)))))
            .unwrap_err(),
        "Validation Error: max_time_ms cannot exceed 300000"
    );
    assert_eq!(
        validate_request(&request("x", Some(limits(Some(1), Some(1), Some(9.0))))).unwrap_err(),
        "Validation Error: temperature must be between 0.0 and 2.0"
    );
}

#[test]
fn request_over_the_token_limit_is_answered_with_an_error_response() {
    let mut engine = Engine::new(EngineConfig::default(), CountingRuntime { calls: 0 }, None);
    let payload = request("Hi", Some(limits(Some(9000), None, None)));

    let response = handle_completion(&mut engine, &payload);

    assert_eq!(response.status, "error");
    assert_eq!(response.output.text, "");
    assert_eq!(response.usage, Usage::default());
    assert_eq!(response.intent, None);
    let message = response.error.unwrap();
    assert_eq!(message, "Validation Error: max_tokens must be between 1 and 8192");
    assert!(message.contains("between 1 and 8192"));

    // The backend was not called: the next call is its first.
    let next = handle_completion(&mut engine, &request("Hi", None));
    assert!(next.output.text.ends_with("|1"));
}

#[test]
fn valid_request_is_answered_by_the_engine() {
    let mut config = EngineConfig::default();
    config.memory.enabled = true;
    let mut engine = Engine::new(config, CountingRuntime { calls: 0 }, None);
    engine.memory.update_summary("s").unwrap();
    let payload = request("Hi", Some(limits(Some(5), Some(100), Some(1.0))));

    let response = handle_completion(&mut engine, &payload);

    assert_eq!(response.status, "success");
    assert_eq!(
        response.output.text,
        format!("[Summary: s]\n\nHi|Some(5)|Some(100)|Some({})|1", 1.0f32.to_bits())
    );
    assert_eq!(response.usage.total_tokens, 5);
    assert_eq!(response.error, None);
}

#[test]
fn screening_turns_an_invalid_request_into_its_response() {
    let response = screen(&request("  ", None)).unwrap_err();
    assert_eq!(response.status, "error");
    assert_eq!(response.output.text, "");
    assert_eq!(response.usage, Usage::default());
    assert_eq!(response.error, Some("Validation Error: Prompt cannot be empty".to_string()));

    let response = screen(&request("Hi", Some(limits(None, Some(300_001), None)))).unwrap_err();
    assert_eq!(
        response.error,
        Some("Validation Error: max_time_ms cannot exceed 300000".to_string())
    );
}

#[test]
fn screening_lets_a_valid_request_in_with_its_options() {
    let options = screen(&request("Hi", Some(limits(Some(64), None, Some(2.0))))).unwrap();
    assert_eq!(options.max_tokens, Some(64));
    assert_eq!(options.max_time_ms, Some(30000));
    assert_eq!(options.temperature, Some(2.0f32.to_bits()));
    assert!(options.stop_sequences.is_empty());
}

use lie_core::config::{EngineConfig, MemoryConfig};
use lie_core::error::EngineError;
use lie_core::runtime::{InferenceOptions, InferenceStatus, Usage};
use lie_core::text::{char_is_whitespace, push_decimal, str_is_blank};

fn decimal(n: u64) -> String {
    let mut out = String::new();
    push_decimal(&mut out, n);
    out
}

#[test]
fn decimal_numerals() {
    assert_eq!(decimal(0), "0");
    assert_eq!(decimal(7), "7");
    assert_eq!(decimal(10), "10");
    assert_eq!(decimal(2048), "2048");
    assert_eq!(decimal(1_000_000), "1000000");
    assert_eq!(decimal(u64::MAX), "18446744073709551615");
}

#[test]
fn decimal_is_appended() {
    let mut out = "n=".to_string();
    push_decimal(&mut out, 305);
    assert_eq!(out, "n=305");
}

#[test]
fn whitespace_is_what_trimming_removes() {
    for code in 0u32..=0x3100 {
        if let Some(c) = char::from_u32(code) {
            assert_eq!(char_is_whitespace(c), c.is_whitespace(), "U+{:04X}", code);
        }
    }
    assert!(!char_is_whitespace('\u{feff}'));
    assert!(!char_is_whitespace(char::MAX));
}

#[test]
fn blank_is_empty_after_trimming() {
    for s in ["", " ", "   ", "\t\r\n", " a", "a ", " \u{3000}\u{2028}", "\u{200b}", "x"] {
        assert_eq!(str_is_blank(s), s.trim().is_empty(), "{:?}", s);
    }
}

#[test]
fn error_messages() {
    assert_eq!(
        EngineError::Config("Invalid model path".to_string()).message(),
        "Configuration error: Invalid model path"
    );
    assert_eq!(
        EngineError::Runtime("Decode failed: -1".to_string()).message(),
        "Runtime error: Decode failed: -1"
    );
    assert_eq!(EngineError::ModelNotLoaded.message(), "Model not loaded");
    assert_eq!(
        EngineError::ContextOverflow { input_tokens: 3000, context_size: 2048 }.message(),
        "Context overflow: input length (3000) exceeds context size (2048)"
    );
    assert_eq!(
        EngineError::CapacityExceeded.message(),
        "Capacity exceeded: memory KV limit reached"
    );
    assert_eq!(EngineError::Io("disk full".to_string()).message(), "IO error: disk full");
    assert_eq!(EngineError::Unknown("?".to_string()).message(), "Unknown error: ?");
    assert_eq!(EngineError::Unknown(String::new()).message(), "Unknown error: ");
}

#[test]
fn default_configuration() {
    let config = EngineConfig::default();
    assert_eq!(config.model.default_path, "models/default.gguf");
    assert_eq!(config.model.default_context_size, 2048);
    assert_eq!(config.model.default_gpu_layers, 0);
    assert_eq!(config.server.host, "127.0.0.1");
    assert_eq!(config.server.port, 8080);
    assert!(!config.memory.enabled);
    assert_eq!(config.memory.max_summary_chars, 1000);
    assert_eq!(config.memory.max_kv_entries, 50);
    assert_eq!(config.memory.persistence_path, "memory.json");

    let memory = MemoryConfig::default();
    assert!(!memory.enabled);
    assert_eq!(memory.max_summary_chars, 1000);
    assert_eq!(memory.max_kv_entries, 50);
    assert_eq!(memory.persistence_path, "memory.json");

    let copy = memory.clone();
    assert_eq!(copy.enabled, memory.enabled);
    assert_eq!(copy.max_summary_chars, memory.max_summary_chars);
    assert_eq!(copy.max_kv_entries, memory.max_kv_entries);
    assert_eq!(copy.persistence_path, memory.persistence_path);
}

#[test]
fn default_options_and_usage() {
    let options = InferenceOptions::default();
    assert_eq!(options.max_tokens, Some(128));
    assert_eq!(options.max_time_ms, Some(30000));
    assert_eq!(options.temperature.map(f32::from_bits), Some(0.0));
    assert!(options.stop_sequences.is_empty());

    let usage = Usage::default();
    assert_eq!(usage.input_tokens, 0);
    assert_eq!(usage.output_tokens, 0);
    assert_eq!(usage.total_tokens, 0);
    assert_eq!(usage.duration_ms, 0);
}

#[test]
fn status_names() {
    assert_eq!(InferenceStatus::Success.as_str(), "success");
    assert_eq!(InferenceStatus::Truncated.as_str(), "truncated");
    assert_eq!(InferenceStatus::Error.as_str(), "error");
}

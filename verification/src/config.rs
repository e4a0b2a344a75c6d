//! Settings read once at startup. Nothing here changes after construction.

use vstd::prelude::*;
use vstd::string::*;

verus! {

/// Everything the engine is configured with.
#[derive(Debug, Clone)]
pub struct EngineConfig {
    pub model: ModelConfig,
    pub server: ServerConfig,
    pub memory: MemoryConfig,
}

/// Which model to load, and how.
#[derive(Debug, Clone)]
pub struct ModelConfig {
    pub default_path: String,
    pub default_context_size: usize,
    pub default_gpu_layers: usize,
}

/// Where the service listens.
#[derive(Debug, Clone)]
pub struct ServerConfig {
    pub host: String,
    pub port: u16,
}

/// Whether contextual memory is kept, how much of it, and where it persists.
#[derive(Debug)]
pub struct MemoryConfig {
    pub enabled: bool,
    /// The longest summary kept, in characters.
    pub max_summary_chars: usize,
    /// The largest number of facts kept.
    pub max_kv_entries: usize,
    pub persistence_path: String,
}

impl Default for EngineConfig {
    fn default() -> (config: Self)
        ensures
            config.model.default_path@ == "models/default.gguf"@,
            config.model.default_context_size == 2048,
            config.model.default_gpu_layers == 0,
            config.server.host@ == "127.0.0.1"@,
            config.server.port == 8080,
            !config.memory.enabled,
            config.memory.max_summary_chars == 1000,
            config.memory.max_kv_entries == 50,
            config.memory.persistence_path@ == "memory.json"@,
    {
        EngineConfig {
            model: ModelConfig {
                default_path: String::from_str("models/default.gguf"),
                default_context_size: 2048,
                default_gpu_layers: 0,
            },
            server: ServerConfig { host: String::from_str("127.0.0.1"), port: 8080 },
            memory: MemoryConfig::default(),
        }
    }
}

impl Clone for MemoryConfig {
    fn clone(&self) -> (copy: Self)
        ensures
            copy == *self,
    {
        MemoryConfig {
            enabled: self.enabled,
            max_summary_chars: self.max_summary_chars,
            max_kv_entries: self.max_kv_entries,
            persistence_path: self.persistence_path.clone(),
        }
    }
}

impl Default for MemoryConfig {
    fn default() -> (config: Self)
        ensures
            !config.enabled,
            config.max_summary_chars == 1000,
            config.max_kv_entries == 50,
            config.persistence_path@ == "memory.json"@,
    {
        MemoryConfig {
            enabled: false,
            max_summary_chars: 1000,
            max_kv_entries: 50,
            persistence_path: String::from_str("memory.json"),
        }
    }
}

} // verus!

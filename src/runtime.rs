use vstd::prelude::*;

use crate::log::{LogError, log_error_text};
use crate::paths::{join, join_path};

verus! {

/// Failures of a runtime command.
#[derive(Debug, Clone)]
pub enum WasmRuntimeError {
    /// The engine failed: a trap, fuel exhaustion, a memory-limit breach or
    /// a failed instantiation, with the engine's message.
    WasmtimeError(String),
    LogError(LogError),
    /// The policy cannot be turned into engine limits.
    ConfigError(String),
    /// The run of the named task exceeded its deadline.
    Timeout(String),
}

/// The text of a runtime failure.
pub open spec fn runtime_error_text(e: WasmRuntimeError) -> Seq<char> {
    match e {
        WasmRuntimeError::WasmtimeError(m) => "Runtime error > Wasmtime error > "@ + m@,
        WasmRuntimeError::LogError(l) => "Runtime error > "@ + log_error_text(l),
        WasmRuntimeError::ConfigError(m) => "Runtime error > Config > "@ + m@,
        WasmRuntimeError::Timeout(t) => "Task '"@ + t@ + "' timed out"@,
    }
}

impl WasmRuntimeError {
    /// The text of the failure.
    pub fn message(&self) -> (r: String)
        ensures
            r@ == runtime_error_text(*self),
    {
        match self {
            WasmRuntimeError::WasmtimeError(m) => {
                let mut s = String::from_str("Runtime error > Wasmtime error > ");
                s.append(m.as_str());
                s
            },
            WasmRuntimeError::LogError(l) => {
                let mut s = String::from_str("Runtime error > ");
                let inner = l.message();
                s.append(inner.as_str());
                s
            },
            WasmRuntimeError::ConfigError(m) => {
                let mut s = String::from_str("Runtime error > Config > ");
                s.append(m.as_str());
                s
            },
            WasmRuntimeError::Timeout(t) => {
                let mut s = String::from_str("Task '");
                s.append(t.as_str());
                s.append("' timed out");
                s
            },
        }
    }
}

impl From<LogError> for WasmRuntimeError {
    fn from(err: LogError) -> (r: Self) {
        WasmRuntimeError::LogError(err)
    }
}

impl vstd::std_specs::convert::FromSpecImpl<LogError> for WasmRuntimeError {
    open spec fn obeys_from_spec() -> bool {
        true
    }

    open spec fn from_spec(v: LogError) -> Self {
        WasmRuntimeError::LogError(v)
    }
}

/// Where the runtime keeps its state, and whether it reports progress.
#[derive(Debug, Clone)]
pub struct RuntimeConfig {
    pub cache_dir: String,
    pub verbose: bool,
}

impl Default for RuntimeConfig {
    fn default() -> (r: Self)
        ensures
            r.cache_dir@ == ".capsule"@,
            !r.verbose,
    {
        RuntimeConfig { cache_dir: String::from_str(".capsule"), verbose: false }
    }
}

impl RuntimeConfig {
    /// The journal's database file inside the cache directory.
    pub fn state_db_path(&self) -> (r: String)
        ensures
            r@ == join_path(self.cache_dir@, "state.db"@),
    {
        join(self.cache_dir.as_str(), "state.db")
    }
}

} // verus!

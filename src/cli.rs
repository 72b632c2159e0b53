use vstd::prelude::*;

use crate::compiler::PythonWasmCompilerError;
use crate::runtime::{WasmRuntimeError, runtime_error_text};

verus! {

/// Failures of the `run` command.
#[derive(Debug, Clone)]
pub enum RunError {
    IoError(String),
    CompileFailed(String),
}

impl RunError {
    pub fn message(&self) -> (r: String)
        ensures
            r@ == match *self {
                RunError::IoError(m) => m@,
                RunError::CompileFailed(m) => "Mission aborted: "@ + m@,
            },
    {
        match self {
            RunError::IoError(m) => m.clone(),
            RunError::CompileFailed(m) => {
                let mut s = String::from_str("Mission aborted: ");
                s.append(m.as_str());
                s
            },
        }
    }

    /// A compile failure carrying the adapter's message.
    pub fn from_compiler_error(err: &PythonWasmCompilerError) -> (r: RunError)
        ensures
            r matches RunError::CompileFailed(m) && m@ == match *err {
                PythonWasmCompilerError::CompileFailed(x) => "Compilation failed > "@ + x@,
                PythonWasmCompilerError::FsError(x) => "File system error > "@ + x@,
            },
    {
        RunError::CompileFailed(err.message())
    }

    /// A failure of the runtime, carrying its message.
    pub fn from_runtime_error(err: &WasmRuntimeError) -> (r: RunError)
        ensures
            r matches RunError::CompileFailed(m) && m@ == runtime_error_text(*err),
    {
        RunError::CompileFailed(err.message())
    }
}

/// Failures of the command-line program.
#[derive(Debug, Clone)]
pub enum CliError {
    RunError(String),
}

impl CliError {
    pub fn message(&self) -> (r: String)
        ensures
            r@ == match *self {
                CliError::RunError(m) => m@,
            },
    {
        match self {
            CliError::RunError(m) => m.clone(),
        }
    }

    /// The failure of a `run`, carrying its message.
    pub fn from_run_error(err: &RunError) -> (r: CliError)
        ensures
            r matches CliError::RunError(m) && m@ == match *err {
                RunError::IoError(x) => x@,
                RunError::CompileFailed(x) => "Mission aborted: "@ + x@,
            },
    {
        CliError::RunError(err.message())
    }
}

} // verus!

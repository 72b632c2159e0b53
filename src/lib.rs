//! Execution engine for sandboxed WebAssembly tasks: execution policies,
//! the instance journal and its lifecycle rules, the command decisions that
//! drive creation, runs and nested retries, the compile cache, and the
//! host allow-list matcher.

pub mod bridge;
pub mod cli;
pub mod commands;
pub mod compiler;
pub mod host;
pub mod log;
pub mod manifest;
pub mod paths;
pub mod policy;
pub mod runtime;
pub mod text;

//! Invoking an operation: route it, run its handler (in process or as a
//! component process), and report a structured result, optionally recording
//! each stage in the invocation ledger.
pub mod handler;
pub mod result;
pub mod outputs;
pub mod process;
pub mod runtime;
pub mod session;

//! The dispatch core of an enclave: an operation request names one of a closed
//! set of pure operations, the dispatcher checks its arity, runs it, and answers
//! with a result and a status line.

pub mod dispatch;

pub use dispatch::{add, execute, process_operation, EnclaveInput, EnclaveOutput, OperationError};

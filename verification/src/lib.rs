//! Security assertions for a revenue-share contract: input validation,
//! authorization boundaries, state-consistency guards, overflow-checked
//! arithmetic and error classification, each stated as a contract over
//! mathematical integers; plus the operations and period schedules used to
//! exercise the contract in property tests.

pub mod error;
pub mod operations;
pub mod periods;
pub mod security_assertions;

pub use error::RevoraError;

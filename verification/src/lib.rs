//! Logging of failures at the call site of a fallible operation.
//!
//! A [`Result`] is handed to one of the operations of this crate together with
//! a [`LogSink`]. A failure is rendered and recorded in the sink exactly once;
//! a success leaves the sink untouched. The operations differ in what they
//! return: the result itself, its payload as an `Option`, or the payload alone.
//!
//! No operation keeps state of its own: what a call returns and what it
//! records depend on its arguments alone.

pub mod log_error;
pub mod operations;
pub mod sink;

pub use log_error::LogError;
pub use operations::{observe, to_optional_logged, unwrap_or_cause, unwrap_or_terminate};
pub use sink::{LogSink, MemorySink};

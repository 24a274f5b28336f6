//! Compiles structured descriptions of diagnostic events into the binary
//! metadata blocks, argument-binding plans and data-descriptor plans that a
//! TraceLogging-style event-tracing subsystem consumes.

pub mod catalog;
pub mod compile;
pub mod errors;
pub mod event;
pub mod expr;
pub mod guid;
pub mod layout;
pub mod order;
pub mod provider;
pub mod strings;
pub mod tag;


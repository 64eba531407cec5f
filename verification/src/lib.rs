//! Core logic of a small code-execution service.
//!
//! The service accepts source text, hands it to an external tool through a
//! temporary file, and reports the tool's captured output and exit status.
//! This crate holds the part of that service that can be stated and proved:
//! the data records exchanged with callers, the classification of what an
//! invocation can observe, and the exact mapping from an observed outcome to
//! the response record. The surrounding process — HTTP transport, file
//! writes, process spawning — lives outside the library and feeds its
//! observations in as plain values.

pub mod endpoint;
pub mod invoker;
pub mod model;

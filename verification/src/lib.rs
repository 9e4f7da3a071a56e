//! A safe model of the aggregate user-defined-function (UDF) execution
//! protocol that a database host uses to drive a function across a query:
//! one `init` call that validates the argument list and allocates per-query
//! state, one `process` call per input row that accumulates into that state,
//! and an optional `deinit`.
//!
//! The crate also provides a mock harness that builds argument lists and
//! phase-scoped configuration objects against the very same contract surface
//! as a live host, so that a function implementation can be exercised and
//! tested without one.

pub mod args;
pub mod cfg;
pub mod lifecycle;
pub mod mock;
pub mod running_total;
pub mod text;
pub mod value;

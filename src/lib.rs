//! Sandboxed, resource-bounded script execution.
//!
//! The executors accept untrusted script text, run it inside an embedded
//! interpreter with its dangerous symbols disabled and its limits installed,
//! and return either the canonical text of the result or a classified failure.

pub mod text;
pub mod outcome;
mod engine;
pub mod rhai_executor;
pub mod lua_executor;

//! Request-construction layer for a parenthesis-inference engine.
//!
//! The crate turns process arguments into a validated configuration,
//! resolves per-dialect syntax defaults from a filetype hint, and builds
//! the canonical request that the inference engine consumes, from one of
//! three input surfaces: plain text, editor environment variables, or a
//! decoded request document.

pub mod defaults;
pub mod flags;
pub mod request;
pub mod strutil;

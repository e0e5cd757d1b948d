//! Trust, approval, and sandbox-policy core of an autonomous coding agent.
//!
//! The crate covers the policy presets pairing approval modes with sandbox
//! restrictiveness, the one-time trust decision for a working directory, and
//! the fault taxonomies (with retry directives and user-facing messages) for
//! sandboxed command execution and streamed model responses.

pub mod classify;
pub mod decimal;
pub mod error;
pub mod policy;
pub mod presets;
pub mod slash_command;
pub mod trust;

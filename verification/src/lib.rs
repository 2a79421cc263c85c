//! Error translation layer for a native TLS library.
//!
//! The native library reports outcomes as integer codes. This crate turns
//! those codes into typed errors, distinguishes the non-fatal conditions that
//! only ask the caller to retry, and renders human-readable messages for
//! each error value.

pub mod decimal;
pub mod error;

//! Session coordination for development sessions opened from several
//! client platforms.
//!
//! The crate keeps a registry of session records, applies the lifecycle
//! operations (create, sync, deploy, status) to it, and delegates
//! platform-specific work to a uniform adapter. Every operation returns a
//! response envelope; unknown sessions are reported, never fatal.

pub mod categories;
mod clock;
pub mod ids;
pub mod manager;
pub mod model;
pub mod platform;
pub mod registry;
pub mod request;
pub mod security;
pub mod status;

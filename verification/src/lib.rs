//! Provisioning logic for the C3 language server.
//!
//! The library decides, step by step, how a language-server binary is
//! located, refreshed and launched: which release to fetch, whether the
//! locally stored version marker is stale, which platform-specific asset
//! to download, and which binary path to hand back to the host.  All
//! decisions are pure functions of explicit state and events; the thin
//! host shell performs the actual network and filesystem work.

pub mod laws;
pub mod platform;
pub mod provision;

//! Cursor sampling loop: configuration, key commands, run-time toggles and
//! the per-tick decisions of a fixed-period sampler. Acquisition, the
//! outbound stream and the terminal are driven by the caller.

pub mod config;
pub mod command;
pub mod session;

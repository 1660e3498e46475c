//! Core of a self-updating application launcher.
//!
//! The library decides and verifies everything the update pipeline does:
//! manifest caching with offline fallback, checksum gating of downloaded
//! archives, extraction with a path-traversal defence, the atomic
//! staging-then-swap install, the status state machine, and the launch gate.
//! All file, network and process work is left to the surrounding binary,
//! which hands plain values in and carries the decided actions out.

pub mod archive;
pub mod checksum;
pub mod config;
pub mod errors;
pub mod game;
pub mod install;
pub mod manifest;
pub mod paths;
pub mod progress;
pub mod state;

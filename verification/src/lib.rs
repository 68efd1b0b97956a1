//! Control plane for a single long-running video-processing engine: a
//! supervisor that owns the engine process's lifecycle, a reconciler that
//! keeps a cached status record in sync with the engine's status endpoint,
//! and the construction of the payloads and messages the control plane
//! exchanges with its callers and with the engine.
//!
//! All decisions are made here, over plain values; spawning the process,
//! sleeping, and the HTTP calls themselves are the embedding application's
//! business. Every function that makes a decision states it in a contract.

pub mod config;
pub mod digits;
pub mod payload;
pub mod state;

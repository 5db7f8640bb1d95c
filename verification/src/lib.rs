//! Core of a usage monitor: it plans and supervises one run of an external
//! collector program, decodes what the program printed, retries with backoff,
//! and schedules polls so that at most one run is in flight.
//!
//! Everything here is pure: the functions take plain values and return plain
//! values, and the caller performs the process, timer and file operations.

pub mod codec;
pub mod config;
pub mod error;
pub mod invoker;
pub mod json;
pub mod notifications;
pub mod poller;
pub mod resource;
pub mod retry;
pub mod settings;
pub mod state;
pub mod text;
pub mod tray;

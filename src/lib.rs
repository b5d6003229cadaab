//! Polling, deduplication and bounded history for a build-server tray monitor.
//!
//! The library decides what is new, what is remembered, what is forgotten and
//! what the user is told; the program around it performs the I/O.

pub mod client;
pub mod clock;
pub mod history;
pub mod option_u64_as_string;
pub mod persist;
pub mod poll;
pub mod record;
mod ring;
pub mod settings;
pub mod state;
pub mod store;
pub mod text;
pub mod tray;

//! Tail-and-trigger engine: watches append-only log files, tests newly
//! appended text against a pattern and prepares the notification to send
//! when it matches.
//!
//! The library decides; it performs no I/O. A driver opens files, waits for
//! change notifications, reads, and sends what the library hands it.

pub mod config;
pub mod event;
pub mod invariants;
pub mod monitor;
pub mod pattern;
pub mod publish;
pub mod supervisor;
pub mod target;
pub mod text;
pub mod transport;

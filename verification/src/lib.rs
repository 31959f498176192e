//! Core logic of a native performance-optimization layer for a desktop shell
//! that hosts a remote web application in an embedded browser engine.
//!
//! The crate models and verifies the decision logic of that layer:
//! process-ancestry resolution over a snapshot of the process table, the
//! tracking set of already-elevated child processes and its garbage
//! collection, the dual-mode (event-driven / polling) watcher state machine,
//! the GPU performance-counter sampling protocol and its aggregation policy,
//! and the telemetry counters exposed to the host.
//!
//! Everything that touches the operating system directly (process handles,
//! performance-counter queries, window attributes) lives outside this crate;
//! the functions here take the outcomes of those calls as plain values and
//! decide what happens next.

pub mod gpu;
pub mod host_info;
pub mod name_match;
pub mod process_table;
pub mod telemetry;
pub mod tracking;
pub mod vec_util;
pub mod watcher;
pub mod window_mode;

pub use window_mode::WindowMode;

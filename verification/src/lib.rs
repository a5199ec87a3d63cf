//! EchoKey: a keystroke and clipboard capture tool.
//!
//! The library holds the capture pipeline's logic: the raw-event filter that
//! drops injected and duplicated key notifications, the modifier tracker and
//! event classifier, and the logging engine that renders semantic events into
//! timestamped, date- and segment-partitioned log content.
//!
//! File and platform I/O stay outside the library: the logger keeps the
//! content of every file it has written this run in memory, and the caller
//! mirrors those appends to disk.

pub mod clipboard;
pub mod clock;
pub mod config;
pub mod gui;
pub mod keyboard;
pub mod laws;
pub mod logger;
pub mod logic;
pub mod render;
pub mod tray;

pub use gui::{EchoKeyApp, SharedGuiState};
pub use keyboard::KeyboardEvent;
pub use logger::Logger;

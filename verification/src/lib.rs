//! Core logic of a scrollable terminal log dashboard: bounded FIFO log
//! buffering, viewport scrolling math, colored-text decoding with a plain
//! fallback, and the input-line / event-loop state machine.

pub mod config;
pub mod render;
pub mod textline;
pub mod tui;
pub mod viewport;

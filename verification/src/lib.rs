//! Scrolling-text driver core for a 5x5 dot-matrix display.
//!
//! The crate turns a byte buffer of printable characters into a sequence of
//! 25-element frames, one per character, and steps through them on timer
//! ticks. Client requests, timer ticks and deferred completions all enter
//! one state machine, [`driver::LedMatrixText`]; whatever has to happen
//! outside of it (switching the elements, arming the timer, queueing the
//! deferred call, notifying the client) is handed back to the caller as a
//! plain value.

pub mod driver;
pub mod error;
pub mod glyph;
pub mod render;
pub mod scroll;
pub mod theorems;

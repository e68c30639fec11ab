//! Decision logic of a hotkey-toggled auto clicker.
//!
//! The crate holds the rules and nothing that touches the operating system:
//! the shared run state and its transitions, the bounded-retry policy that
//! turns random draws into a usable duration, and the click engine's cycle.
//! Every quantity is an integer: positions are whole pixels, durations are
//! whole nanoseconds.

pub mod config;
pub mod engine;
pub mod input;
pub mod run_state;
pub mod sampler;

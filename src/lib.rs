//! A pomodoro-style interval timer core.
//!
//! `span` holds the time quantities, `phase` the work/break cycle policy,
//! `timer` a single wall-clock countdown with pause support, and `engine`
//! the stateful timer that walks the cycle on top of a countdown.

pub mod engine;
pub mod phase;
pub mod span;
pub mod timer;

pub use engine::{Snapshot, TimerEngine};
pub use phase::{next_phase, Config, ConfigError, Phase};
pub use span::TimeSpan;
pub use timer::{Timer, TimerState};

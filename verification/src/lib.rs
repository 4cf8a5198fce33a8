//! A Pomodoro timer: work intervals alternate with short breaks, and every
//! fourth completed work interval earns a long break.
//!
//! The crate holds the timer's rules and nothing else. It never reads a
//! clock, draws a widget or touches a disk: the host hands in the current
//! time with every call, renders what comes back, and stores the
//! [`Settings`] record wherever it likes.

pub mod app;
pub mod display;
pub mod instant;
pub mod mode;
pub mod model;
pub mod settings;

pub use app::{EpomoApp, Tick, REPAINT_INTERVAL_MILLIS};
pub use display::format_duration;
pub use instant::{Timestamp, MAX_MILLIS, MILLIS_PER_MINUTE, MILLIS_PER_SECOND};
pub use mode::{get_mode, PomodoroMode, Rgb};
pub use model::TimerState;
pub use settings::{max_minutes, Settings};

//! A throbber for the terminal: a small animation next to a status message,
//! shown while the program does other work, and ended with a mark of success
//! or of failure.
//!
//! The crate performs no input or output. A [`Throbber`] is the handle that
//! the program holds: each of its operations returns the [`Action`]s that carry
//! it out. A [`Worker`] is the animation itself: each [`Worker::step`] takes
//! what polling the command queue gave and returns the text to write and what
//! to do next. Whoever runs the two supplies the thread, the queue, the clock
//! and the terminal.

pub mod command;
pub mod error;
pub mod frames;
pub mod handle;
pub mod text;
pub mod theorems;
pub mod time;
pub mod worker;

pub use command::Command;
pub use error::ThrobberError;
pub use frames::{
    CIRCLE_F, DEFAULT_F, MOVE_EQ_F, MOVE_EQ_LONG_F, MOVE_MIN_F, MOVE_MIN_LONG_F, ROTATE_F,
};
pub use handle::{Action, Throbber};
pub use worker::{Effect, Event, Next, Phase, Worker};

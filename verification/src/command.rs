//! The commands that a throbber sends to its worker.

use std::time::Duration;
use vstd::prelude::*;
use crate::frames::glyphs;

verus! {

/// What a throbber tells its worker. The worker takes the commands in the
/// order in which they were sent, each one once.
#[derive(Debug, PartialEq)]
pub enum Command {
    /// Play the animation.
    Start,
    /// Stop the animation and leave a blank line.
    StopBlank,
    /// Stop the animation and leave a status line of success with this message.
    Succeed(String),
    /// Stop the animation and leave a status line of failure with this message.
    Fail(String),
    /// Show this message next to the glyph from now on.
    SetMessage(String),
    /// Let this much time pass between two frames from now on.
    SetInterval(Duration),
    /// Cycle through this table from now on, starting at its first glyph.
    SetFrames(&'static [&'static str]),
    /// End the worker.
    Terminate,
}

/// A command as mathematics.
pub enum CommandView {
    Start,
    StopBlank,
    Succeed(Seq<char>),
    Fail(Seq<char>),
    SetMessage(Seq<char>),
    SetInterval(Duration),
    SetFrames(Seq<Seq<char>>),
    Terminate,
}

impl View for Command {
    type V = CommandView;

    open spec fn view(&self) -> CommandView {
        match *self {
            Command::Start => CommandView::Start,
            Command::StopBlank => CommandView::StopBlank,
            Command::Succeed(message) => CommandView::Succeed(message@),
            Command::Fail(message) => CommandView::Fail(message@),
            Command::SetMessage(message) => CommandView::SetMessage(message@),
            Command::SetInterval(interval) => CommandView::SetInterval(interval),
            Command::SetFrames(frames) => CommandView::SetFrames(glyphs(frames)),
            Command::Terminate => CommandView::Terminate,
        }
    }
}

impl Clone for Command {
    fn clone(&self) -> (copy: Command)
        ensures
            copy@ == self@,
    {
        match self {
            Command::Start => Command::Start,
            Command::StopBlank => Command::StopBlank,
            Command::Succeed(message) => Command::Succeed(message.clone()),
            Command::Fail(message) => Command::Fail(message.clone()),
            Command::SetMessage(message) => Command::SetMessage(message.clone()),
            Command::SetInterval(interval) => Command::SetInterval(*interval),
            Command::SetFrames(frames) => Command::SetFrames(*frames),
            Command::Terminate => Command::Terminate,
        }
    }
}

} // verus!

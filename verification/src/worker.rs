//! The render worker: the one owner of the animation state.
//!
//! The worker is a state machine. Whoever runs it polls the command queue,
//! hands each outcome to [`Worker::step`], writes the text that comes back and
//! then does what the step asks for: poll again, sleep, park or stop.

use std::time::Duration;
use vstd::prelude::*;
use crate::command::{Command, CommandView};
use crate::frames::{glyph_at, glyphs};
use crate::text::{
    clear_line, fail_line, fail_text, frame_line, frame_text, success_line, success_text,
    CLEAR_LINE,
};

verus! {

/// Where a worker stands in its life.
#[derive(Clone, Copy, Debug, PartialEq, Eq, Structural)]
pub enum Phase {
    /// It renders a frame whenever no command is waiting.
    Running,
    /// It renders nothing and waits to be woken.
    Suspended,
    /// It has left its loop for good.
    Terminated,
}

/// What polling the command queue gave.
#[derive(Debug, PartialEq)]
pub enum Event {
    /// The command at the front of the queue.
    Received(Command),
    /// No command is waiting.
    Empty,
    /// No command is waiting and none can come: the sending end is gone.
    Disconnected,
}

/// An event as mathematics.
pub enum EventView {
    Received(CommandView),
    Empty,
    Disconnected,
}

impl View for Event {
    type V = EventView;

    open spec fn view(&self) -> EventView {
        match *self {
            Event::Received(command) => EventView::Received(command@),
            Event::Empty => EventView::Empty,
            Event::Disconnected => EventView::Disconnected,
        }
    }
}

/// What the worker does once the text of a step is written.
#[derive(Clone, Copy, Debug, PartialEq)]
pub enum Next {
    /// Poll the queue again at once.
    Poll,
    /// Sleep for this long, then poll the queue.
    Sleep(Duration),
    /// Block until woken, then poll the queue.
    Park,
    /// Leave the loop.
    Exit,
}

/// What one step of the worker asks of whoever runs it.
#[derive(Debug, PartialEq)]
pub struct Effect {
    /// The text to write to the terminal, and to flush.
    pub output: String,
    /// What to do after that.
    pub next: Next,
}

/// An effect as mathematics.
pub struct EffectView {
    pub output: Seq<char>,
    pub next: Next,
}

impl View for Effect {
    type V = EffectView;

    open spec fn view(&self) -> EffectView {
        EffectView { output: self.output@, next: self.next }
    }
}

/// The animation state.
#[derive(Debug, PartialEq)]
pub struct Worker {
    phase: Phase,
    frame_index: usize,
    message: String,
    interval: Duration,
    frames: &'static [&'static str],
}

/// The animation state as mathematics.
pub struct WorkerView {
    pub phase: Phase,
    /// The position in `frames` of the glyph that the next frame shows.
    pub frame_index: nat,
    pub message: Seq<char>,
    pub interval: Duration,
    pub frames: Seq<Seq<char>>,
}

impl WorkerView {
    /// The table holds a glyph, and the position is one of the table.
    pub open spec fn wf(self) -> bool {
        self.frame_index < self.frames.len()
    }

    /// The state that a worker starts its life in.
    pub open spec fn seeded(
        message: Seq<char>,
        interval: Duration,
        frames: Seq<Seq<char>>,
    ) -> WorkerView {
        WorkerView { phase: Phase::Running, frame_index: 0, message, interval, frames }
    }

    /// The glyph that the next frame shows.
    pub open spec fn glyph(self) -> Seq<char> {
        self.frames[self.frame_index as int]
    }

    /// The state after `command`, and the text that it writes.
    ///
    /// An empty frame table is passed over: the table in use stays.
    pub open spec fn apply(self, command: CommandView) -> (WorkerView, Seq<char>) {
        match command {
            CommandView::Start => (WorkerView { phase: Phase::Running, ..self }, Seq::empty()),
            CommandView::StopBlank => (
                WorkerView { phase: Phase::Suspended, ..self },
                CLEAR_LINE@,
            ),
            CommandView::Succeed(message) => (
                WorkerView { phase: Phase::Suspended, ..self },
                success_text(message),
            ),
            CommandView::Fail(message) => (
                WorkerView { phase: Phase::Suspended, ..self },
                fail_text(message),
            ),
            CommandView::SetMessage(message) => (WorkerView { message, ..self }, Seq::empty()),
            CommandView::SetInterval(interval) => (WorkerView { interval, ..self }, Seq::empty()),
            CommandView::SetFrames(frames) => if frames.len() > 0 {
                (WorkerView { frames, frame_index: 0, ..self }, Seq::empty())
            } else {
                (self, Seq::empty())
            },
            CommandView::Terminate => (
                WorkerView { phase: Phase::Terminated, ..self },
                CLEAR_LINE@,
            ),
        }
    }

    /// The state after one frame is shown: the position has moved on by one,
    /// and from the end of the table back to its start.
    pub open spec fn advance(self) -> WorkerView {
        WorkerView {
            frame_index: (self.frame_index + 1) % self.frames.len(),
            ..self
        }
    }

    /// The state after one step on `event`, and what the step asks for.
    ///
    /// A terminated worker stays as it is and asks to leave the loop. Any other
    /// worker takes a command whatever its phase and polls again, unless the
    /// command ends it; it ends when the queue is disconnected; and when the
    /// queue is empty it shows a frame and sleeps if it runs, and parks if not.
    pub open spec fn step(self, event: EventView) -> (WorkerView, EffectView) {
        if self.phase == Phase::Terminated {
            (self, EffectView { output: Seq::empty(), next: Next::Exit })
        } else {
            match event {
                EventView::Received(command) => {
                    let (after, output) = self.apply(command);
                    let next = if command is Terminate {
                        Next::Exit
                    } else {
                        Next::Poll
                    };
                    (after, EffectView { output, next })
                },
                EventView::Disconnected => (
                    WorkerView { phase: Phase::Terminated, ..self },
                    EffectView { output: CLEAR_LINE@, next: Next::Exit },
                ),
                EventView::Empty => if self.phase == Phase::Running {
                    (
                        self.advance(),
                        EffectView {
                            output: frame_text(self.glyph(), self.message),
                            next: Next::Sleep(self.interval),
                        },
                    )
                } else {
                    (self, EffectView { output: Seq::empty(), next: Next::Park })
                },
            }
        }
    }
}

impl View for Worker {
    type V = WorkerView;

    closed spec fn view(&self) -> WorkerView {
        WorkerView {
            phase: self.phase,
            frame_index: self.frame_index as nat,
            message: self.message@,
            interval: self.interval,
            frames: glyphs(self.frames),
        }
    }
}

impl Worker {
    #[verifier::type_invariant]
    spec fn inv(self) -> bool {
        self@.wf()
    }

    /// A worker at the start of its life: it runs, and its first frame shows
    /// the first glyph of `frames`.
    pub(crate) fn seeded(
        message: String,
        interval: Duration,
        frames: &'static [&'static str],
    ) -> (worker: Worker)
        requires
            glyphs(frames).len() > 0,
        ensures
            worker@ == WorkerView::seeded(message@, interval, glyphs(frames)),
    {
        Worker { phase: Phase::Running, frame_index: 0, message, interval, frames }
    }

    /// Where the worker stands in its life.
    pub fn phase(&self) -> (phase: Phase)
        ensures
            phase == self@.phase,
    {
        self.phase
    }

    /// The position in the table of the glyph that the next frame shows.
    pub fn frame_index(&self) -> (index: usize)
        ensures
            index == self@.frame_index,
            index < self@.frames.len(),
    {
        proof {
            use_type_invariant(self);
        }
        self.frame_index
    }

    /// The message shown next to the glyph.
    pub fn message(&self) -> (message: &str)
        ensures
            message@ == self@.message,
    {
        self.message.as_str()
    }

    /// The time between two frames.
    pub fn interval(&self) -> (interval: Duration)
        ensures
            interval == self@.interval,
    {
        self.interval
    }

    /// The table that the animation cycles through.
    pub fn frames(&self) -> (frames: &'static [&'static str])
        ensures
            glyphs(frames) == self@.frames,
    {
        self.frames
    }

    /// Takes one step: consumes what polling the queue gave, and returns the
    /// text to write and what to do next.
    pub fn step(&mut self, event: Event) -> (effect: Effect)
        ensures
            old(self)@.wf(),
            final(self)@.wf(),
            (final(self)@, effect@) == old(self)@.step(event@),
    {
        proof {
            use_type_invariant(&*self);
        }
        if self.phase == Phase::Terminated {
            return Effect { output: String::new(), next: Next::Exit };
        }
        match event {
            Event::Received(command) => self.apply(command),
            Event::Disconnected => {
                self.phase = Phase::Terminated;
                Effect { output: clear_line(), next: Next::Exit }
            },
            Event::Empty => {
                if self.phase == Phase::Running {
                    let output = frame_line(
                        glyph_at(self.frames, self.frame_index),
                        self.message.as_str(),
                    );
                    let len = self.frames.len();
                    self.frame_index = (self.frame_index + 1) % len;
                    Effect { output, next: Next::Sleep(self.interval) }
                } else {
                    Effect { output: String::new(), next: Next::Park }
                }
            },
        }
    }

    fn apply(&mut self, command: Command) -> (effect: Effect)
        requires
            old(self)@.phase != Phase::Terminated,
        ensures
            (final(self)@, effect@) == old(self)@.step(EventView::Received(command@)),
    {
        proof {
            use_type_invariant(&*self);
        }
        match command {
            Command::Start => {
                self.phase = Phase::Running;
                Effect { output: String::new(), next: Next::Poll }
            },
            Command::StopBlank => {
                self.phase = Phase::Suspended;
                Effect { output: clear_line(), next: Next::Poll }
            },
            Command::Succeed(message) => {
                self.phase = Phase::Suspended;
                Effect { output: success_line(message.as_str()), next: Next::Poll }
            },
            Command::Fail(message) => {
                self.phase = Phase::Suspended;
                Effect { output: fail_line(message.as_str()), next: Next::Poll }
            },
            Command::SetMessage(message) => {
                self.message = message;
                Effect { output: String::new(), next: Next::Poll }
            },
            Command::SetInterval(interval) => {
                self.interval = interval;
                Effect { output: String::new(), next: Next::Poll }
            },
            Command::SetFrames(frames) => {
                if frames.len() > 0 {
                    self.frame_index = 0;
                    self.frames = frames;
                }
                Effect { output: String::new(), next: Next::Poll }
            },
            Command::Terminate => {
                self.phase = Phase::Terminated;
                Effect { output: clear_line(), next: Next::Exit }
            },
        }
    }
}

impl Clone for Event {
    fn clone(&self) -> (copy: Event)
        ensures
            copy@ == self@,
    {
        match self {
            Event::Received(command) => Event::Received(command.clone()),
            Event::Empty => Event::Empty,
            Event::Disconnected => Event::Disconnected,
        }
    }
}

impl Clone for Effect {
    fn clone(&self) -> (copy: Effect)
        ensures
            copy@ == self@,
    {
        Effect { output: self.output.clone(), next: self.next }
    }
}

impl Clone for Worker {
    fn clone(&self) -> (copy: Worker)
        ensures
            copy@ == self@,
    {
        proof {
            use_type_invariant(self);
        }
        Worker {
            phase: self.phase,
            frame_index: self.frame_index,
            message: self.message.clone(),
            interval: self.interval,
            frames: self.frames,
        }
    }
}

} // verus!

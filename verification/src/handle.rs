//! The control handle: what the calling program holds.
//!
//! A throbber keeps the configuration that was last asked for and knows
//! whether its worker exists. It does no input or output of its own: each
//! operation returns the actions that carry it out, in order, and whoever
//! holds the throbber performs them.

use std::time::Duration;
use vstd::prelude::*;
use crate::command::{Command, CommandView};
use crate::error::ThrobberError;
use crate::frames::{glyphs, DEFAULT_F};
use crate::text::{fail_line, fail_text, success_line, success_text};
use crate::time::duration_of_millis;
use crate::worker::{Worker, WorkerView};

verus! {

/// One thing to do for a throbber.
#[derive(Debug, PartialEq)]
pub enum Action {
    /// Create the worker with this state, and the command queue that leads to it.
    Spawn(Worker),
    /// Put this command at the back of the queue and wake the worker.
    Send(Command),
    /// Write this text to the terminal on the caller's own thread.
    Print(String),
    /// Wait until the worker has left its loop, and let go of it.
    Join,
}

/// An action as mathematics.
pub enum ActionView {
    Spawn(WorkerView),
    Send(CommandView),
    Print(Seq<char>),
    Join,
}

impl View for Action {
    type V = ActionView;

    open spec fn view(&self) -> ActionView {
        match *self {
            Action::Spawn(worker) => ActionView::Spawn(worker@),
            Action::Send(command) => ActionView::Send(command@),
            Action::Print(text) => ActionView::Print(text@),
            Action::Join => ActionView::Join,
        }
    }
}

/// Whether `actions` are, one by one and in order, what `model` lists.
pub open spec fn listed(actions: Seq<Action>, model: Seq<ActionView>) -> bool {
    &&& actions.len() == model.len()
    &&& forall|i: int| 0 <= i < actions.len() ==> (#[trigger] actions[i])@ == model[i]
}

/// Representation of a throbber animation. It can start, succeed, fail or
/// finish at any point.
///
/// The worker is created by the first call to [`start`](Throbber::start) or
/// [`start_with_msg`](Throbber::start_with_msg). After that it is only ever
/// suspended and woken, until [`close`](Throbber::close) ends it.
#[derive(Debug)]
pub struct Throbber {
    started: bool,
    message: String,
    interval: Duration,
    frames: &'static [&'static str],
}

/// A throbber as mathematics.
pub struct ThrobberView {
    /// Whether the worker exists.
    pub started: bool,
    pub message: Seq<char>,
    pub interval: Duration,
    pub frames: Seq<Seq<char>>,
}

impl ThrobberView {
    /// The frame table holds a glyph.
    pub open spec fn wf(self) -> bool {
        self.frames.len() > 0
    }

    /// The throbber that `Throbber::default` makes.
    pub open spec fn initial() -> ThrobberView {
        ThrobberView {
            started: false,
            message: Seq::empty(),
            interval: duration_of_millis(200),
            frames: glyphs(&DEFAULT_F),
        }
    }

    /// The state that a worker made now would start its life in.
    pub open spec fn seed(self) -> WorkerView {
        WorkerView::seeded(self.message, self.interval, self.frames)
    }

    /// The actions that hand `command` to the worker: one if the worker
    /// exists, none if not.
    pub open spec fn send(self, command: CommandView) -> Seq<ActionView> {
        if self.started {
            seq![ActionView::Send(command)]
        } else {
            Seq::empty()
        }
    }

    /// The throbber after `set_message`, and the actions of that call.
    pub open spec fn set_message(self, message: Seq<char>) -> (ThrobberView, Seq<ActionView>) {
        (ThrobberView { message, ..self }, self.send(CommandView::SetMessage(message)))
    }

    /// The throbber after `set_interval`, and the actions of that call.
    pub open spec fn set_interval(self, interval: Duration) -> (ThrobberView, Seq<ActionView>) {
        (ThrobberView { interval, ..self }, self.send(CommandView::SetInterval(interval)))
    }

    /// The throbber after `set_frames` and the actions of that call, or the
    /// error that refuses an empty table.
    pub open spec fn set_frames(self, frames: Seq<Seq<char>>) -> Result<
        (ThrobberView, Seq<ActionView>),
        ThrobberError,
    > {
        if frames.len() == 0 {
            Err(ThrobberError::InvalidConfig)
        } else {
            Ok((ThrobberView { frames, ..self }, self.send(CommandView::SetFrames(frames))))
        }
    }

    /// The throbber after `start`, and the actions of that call: the first
    /// start makes the worker, every later one only wakes it.
    pub open spec fn start(self) -> (ThrobberView, Seq<ActionView>) {
        if self.started {
            (self, seq![ActionView::Send(CommandView::Start)])
        } else {
            (ThrobberView { started: true, ..self }, seq![ActionView::Spawn(self.seed())])
        }
    }

    /// The throbber after `start_with_msg`, and the actions of that call:
    /// those of `set_message`, then those of `start`.
    pub open spec fn start_with_msg(self, message: Seq<char>) -> (ThrobberView, Seq<ActionView>) {
        let (renamed, first) = self.set_message(message);
        let (after, second) = renamed.start();
        (after, first + second)
    }

    /// The actions of `finish`. The throbber stays as it is.
    pub open spec fn finish(self) -> Seq<ActionView> {
        self.send(CommandView::StopBlank)
    }

    /// The actions of `success`. The throbber stays as it is.
    pub open spec fn success(self, message: Seq<char>) -> Seq<ActionView> {
        if self.started {
            seq![ActionView::Send(CommandView::Succeed(message))]
        } else {
            seq![ActionView::Print(success_text(message))]
        }
    }

    /// The actions of `fail`. The throbber stays as it is.
    pub open spec fn fail(self, message: Seq<char>) -> Seq<ActionView> {
        if self.started {
            seq![ActionView::Send(CommandView::Fail(message))]
        } else {
            seq![ActionView::Print(fail_text(message))]
        }
    }

    /// The throbber after `close`, and the actions of that call.
    pub open spec fn close(self) -> (ThrobberView, Seq<ActionView>) {
        if self.started {
            (
                ThrobberView { started: false, ..self },
                seq![ActionView::Send(CommandView::Terminate), ActionView::Join],
            )
        } else {
            (self, Seq::empty())
        }
    }
}

impl View for Throbber {
    type V = ThrobberView;

    closed spec fn view(&self) -> ThrobberView {
        ThrobberView {
            started: self.started,
            message: self.message@,
            interval: self.interval,
            frames: glyphs(self.frames),
        }
    }
}

impl Default for Throbber {
    /// # Default Values
    ///
    /// - message: `""`
    /// - interval: 200 milliseconds
    /// - frames: `DEFAULT_F (⠋   ⠙   ⠹   ⠸   ⠼   ⠴   ⠦   ⠧   ⠇   ⠏)`
    fn default() -> (throbber: Throbber)
        ensures
            throbber@ == ThrobberView::initial(),
    {
        Throbber {
            started: false,
            message: String::new(),
            interval: Duration::from_millis(200),
            frames: &DEFAULT_F,
        }
    }
}

impl Throbber {
    #[verifier::type_invariant]
    spec fn inv(self) -> bool {
        self@.wf()
    }

    /// Creates a new throbber, without a worker. An empty frame table is refused.
    pub fn new(message: &str, interval: Duration, frames: &'static [&'static str]) -> (made: Result<
        Throbber,
        ThrobberError,
    >)
        ensures
            glyphs(frames).len() == 0 ==> made == Err::<Throbber, ThrobberError>(
                ThrobberError::InvalidConfig,
            ),
            glyphs(frames).len() > 0 ==> made is Ok && made->Ok_0@ == (ThrobberView {
                started: false,
                message: message@,
                interval,
                frames: glyphs(frames),
            }),
    {
        if frames.len() == 0 {
            return Err(ThrobberError::InvalidConfig);
        }
        Ok(Throbber { started: false, message: message.to_owned(), interval, frames })
    }

    /// Whether the worker exists.
    pub fn is_started(&self) -> (started: bool)
        ensures
            started == self@.started,
    {
        self.started
    }

    /// Sets the message displayed next to the throbber, in the throbber alone:
    /// a worker that already exists is told nothing.
    pub fn message(self, msg: &str) -> (throbber: Throbber)
        ensures
            throbber@ == (ThrobberView { message: msg@, ..self@ }),
    {
        proof {
            use_type_invariant(&self);
        }
        let mut throbber = self;
        throbber.message = msg.to_owned();
        throbber
    }

    /// Sets the message displayed next to the throbber, and tells the worker.
    pub fn set_message(&mut self, msg: &str) -> (actions: Vec<Action>)
        ensures
            final(self)@ == old(self)@.set_message(msg@).0,
            listed(actions@, old(self)@.set_message(msg@).1),
    {
        proof {
            use_type_invariant(&*self);
        }
        self.message = msg.to_owned();
        self.send(Command::SetMessage(msg.to_owned()))
    }

    /// Sets the animation frame interval, i.e. the time between frames, in the
    /// throbber alone: a worker that already exists is told nothing.
    pub fn interval(self, interval: Duration) -> (throbber: Throbber)
        ensures
            throbber@ == (ThrobberView { interval, ..self@ }),
    {
        proof {
            use_type_invariant(&self);
        }
        let mut throbber = self;
        throbber.interval = interval;
        throbber
    }

    /// Sets the animation frame interval, i.e. the time between frames, and
    /// tells the worker.
    pub fn set_interval(&mut self, interval: Duration) -> (actions: Vec<Action>)
        ensures
            final(self)@ == old(self)@.set_interval(interval).0,
            listed(actions@, old(self)@.set_interval(interval).1),
    {
        proof {
            use_type_invariant(&*self);
        }
        self.interval = interval;
        self.send(Command::SetInterval(interval))
    }

    /// Sets the animation frames, in the throbber alone: a worker that already
    /// exists is told nothing. An empty table is refused.
    pub fn frames(self, frames: &'static [&'static str]) -> (made: Result<
        Throbber,
        ThrobberError,
    >)
        ensures
            glyphs(frames).len() == 0 ==> made == Err::<Throbber, ThrobberError>(
                ThrobberError::InvalidConfig,
            ),
            glyphs(frames).len() > 0 ==> made is Ok && made->Ok_0@ == (ThrobberView {
                frames: glyphs(frames),
                ..self@
            }),
    {
        if frames.len() == 0 {
            return Err(ThrobberError::InvalidConfig);
        }
        let mut throbber = self;
        throbber.frames = frames;
        Ok(throbber)
    }

    /// Sets the animation frames, and tells the worker, which starts the new
    /// table at its first glyph. An empty table is refused, and the table in
    /// use stays.
    pub fn set_frames(&mut self, frames: &'static [&'static str]) -> (outcome: Result<
        Vec<Action>,
        ThrobberError,
    >)
        ensures
            match outcome {
                Ok(actions) => {
                    &&& old(self)@.set_frames(glyphs(frames)) is Ok
                    &&& final(self)@ == old(self)@.set_frames(glyphs(frames))->Ok_0.0
                    &&& listed(actions@, old(self)@.set_frames(glyphs(frames))->Ok_0.1)
                },
                Err(error) => {
                    &&& old(self)@.set_frames(glyphs(frames)) == Err::<
                        (ThrobberView, Seq<ActionView>),
                        ThrobberError,
                    >(error)
                    &&& final(self)@ == old(self)@
                },
            },
    {
        proof {
            use_type_invariant(&*self);
        }
        if frames.len() == 0 {
            return Err(ThrobberError::InvalidConfig);
        }
        self.frames = frames;
        Ok(self.send(Command::SetFrames(frames)))
    }

    /// Starts the animation.
    ///
    /// The first call asks for a worker that plays the animation with the
    /// configuration of this moment. Every later call wakes the worker that
    /// exists and has it play again.
    pub fn start(&mut self) -> (actions: Vec<Action>)
        ensures
            final(self)@ == old(self)@.start().0,
            listed(actions@, old(self)@.start().1),
    {
        proof {
            use_type_invariant(&*self);
        }
        if self.started {
            return self.send(Command::Start);
        }
        let worker = Worker::seeded(self.message.clone(), self.interval, self.frames);
        self.started = true;
        one(Action::Spawn(worker))
    }

    /// Starts the animation with the specified `msg`.
    ///
    /// Equivalent to `throbber.set_message(msg); throbber.start();`: the
    /// actions of the first, then those of the second.
    pub fn start_with_msg(&mut self, msg: &str) -> (actions: Vec<Action>)
        ensures
            final(self)@ == old(self)@.start_with_msg(msg@).0,
            listed(actions@, old(self)@.start_with_msg(msg@).1),
    {
        let mut actions = self.set_message(msg);
        let mut rest = self.start();
        actions.append(&mut rest);
        actions
    }

    /// Stops the current animation, leaving a blank line. Without a worker
    /// there is nothing to stop.
    pub fn finish(&mut self) -> (actions: Vec<Action>)
        ensures
            final(self)@ == old(self)@,
            listed(actions@, old(self)@.finish()),
    {
        self.send(Command::StopBlank)
    }

    /// Stops the current animation and prints `msg` as a *success message* (`✔`).
    ///
    /// Without a worker the status line is printed all the same, by the caller.
    pub fn success(&mut self, msg: &str) -> (actions: Vec<Action>)
        ensures
            final(self)@ == old(self)@,
            listed(actions@, old(self)@.success(msg@)),
    {
        if self.started {
            one(Action::Send(Command::Succeed(msg.to_owned())))
        } else {
            one(Action::Print(success_line(msg)))
        }
    }

    /// Stops the current animation and prints `msg` as a *fail message* (`✖`).
    ///
    /// Without a worker the status line is printed all the same, by the caller.
    pub fn fail(&mut self, msg: &str) -> (actions: Vec<Action>)
        ensures
            final(self)@ == old(self)@,
            listed(actions@, old(self)@.fail(msg@)),
    {
        if self.started {
            one(Action::Send(Command::Fail(msg.to_owned())))
        } else {
            one(Action::Print(fail_line(msg)))
        }
    }

    /// Ends the worker, if there is one: it is told to terminate and waited
    /// for. After that the throbber has no worker, so that a second call does
    /// nothing.
    pub fn close(&mut self) -> (actions: Vec<Action>)
        ensures
            final(self)@ == old(self)@.close().0,
            listed(actions@, old(self)@.close().1),
    {
        proof {
            use_type_invariant(&*self);
        }
        let mut actions = Vec::new();
        if self.started {
            self.started = false;
            actions.push(Action::Send(Command::Terminate));
            actions.push(Action::Join);
        }
        actions
    }

    fn send(&self, command: Command) -> (actions: Vec<Action>)
        ensures
            listed(actions@, self@.send(command@)),
    {
        let mut actions = Vec::new();
        if self.started {
            actions.push(Action::Send(command));
        }
        actions
    }
}

impl Clone for Action {
    fn clone(&self) -> (copy: Action)
        ensures
            copy@ == self@,
    {
        match self {
            Action::Spawn(worker) => Action::Spawn(worker.clone()),
            Action::Send(command) => Action::Send(command.clone()),
            Action::Print(text) => Action::Print(text.clone()),
            Action::Join => Action::Join,
        }
    }
}

fn one(action: Action) -> (actions: Vec<Action>)
    ensures
        listed(actions@, seq![action@]),
{
    let mut actions = Vec::new();
    actions.push(action);
    actions
}

} // verus!

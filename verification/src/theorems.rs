//! What holds of a throbber and its worker, proved over their models.
//!
//! The first part speaks of the worker alone. The second puts the throbber and
//! the worker side by side on a [`Stage`]: the worker, the number of workers
//! ever made and the text on the terminal, as they are once the actions of an
//! operation are performed and the worker has taken every command sent.

use std::time::Duration;
use vstd::arithmetic::div_mod::{lemma_add_mod_noop_right, lemma_small_mod};
use vstd::prelude::*;
use crate::command::CommandView;
use crate::text::{fail_text, frame_text, success_text, CLEAR_LINE};
use crate::handle::{ActionView, ThrobberView};
use crate::worker::{EffectView, EventView, Next, Phase, WorkerView};

verus! {

/// The state of a worker after `n` polls in a row that found the queue empty.
pub open spec fn after_ticks(worker: WorkerView, n: nat) -> WorkerView
    decreases n,
{
    if n == 0 {
        worker
    } else {
        after_ticks(worker, (n - 1) as nat).step(EventView::Empty).0
    }
}

/// The text written by the poll that follows `n` polls of an empty queue.
pub open spec fn tick_text(worker: WorkerView, n: nat) -> Seq<char> {
    after_ticks(worker, n).step(EventView::Empty).1.output
}

/// A step keeps a well-formed state well formed, whatever the event.
pub proof fn law_step_keeps_wf(worker: WorkerView, event: EventView)
    requires
        worker.wf(),
    ensures
        worker.step(event).0.wf(),
{
}

/// A running worker that finds the queue empty time after time walks through
/// its table in order and starts over at the end: after `n` frames it stands
/// `n` places further on, counted round the table, nothing else has changed,
/// and the frame it shows next holds the glyph at that place, then a space and
/// the message.
pub proof fn law_frames_cycle(worker: WorkerView, n: nat)
    requires
        worker.wf(),
        worker.phase == Phase::Running,
    ensures
        after_ticks(worker, n) == (WorkerView {
            frame_index: (worker.frame_index + n) % worker.frames.len(),
            ..worker
        }),
        tick_text(worker, n) == frame_text(
            worker.frames[((worker.frame_index + n) % worker.frames.len()) as int],
            worker.message,
        ),
    decreases n,
{
    let len = worker.frames.len() as int;
    let start = worker.frame_index as int;
    if n == 0 {
        lemma_small_mod(worker.frame_index, worker.frames.len());
    } else {
        law_frames_cycle(worker, (n - 1) as nat);
        lemma_add_mod_noop_right(1, start + n - 1, len);
    }
}

/// A worker fresh from its start shows, frame after frame, the glyphs of its
/// table from the first one on, and the first again after the last: frame
/// number `n`, counted from 0, holds the glyph at `n` modulo the length of the
/// table.
pub proof fn law_frames_cycle_from_start(
    message: Seq<char>,
    interval: Duration,
    frames: Seq<Seq<char>>,
    n: nat,
)
    requires
        frames.len() > 0,
    ensures
        tick_text(WorkerView::seeded(message, interval, frames), n) == frame_text(
            frames[(n % frames.len()) as int],
            message,
        ),
{
    law_frames_cycle(WorkerView::seeded(message, interval, frames), n);
}

/// A new frame table starts at its first glyph, wherever the worker stood in
/// the old one: the frame after the change shows the first glyph of the new
/// table.
pub proof fn law_new_table_starts_over(worker: WorkerView, frames: Seq<Seq<char>>)
    requires
        worker.wf(),
        worker.phase == Phase::Running,
        frames.len() > 0,
    ensures
        ({
            let (changed, effect) = worker.step(
                EventView::Received(CommandView::SetFrames(frames)),
            );
            &&& changed == (WorkerView { frames, frame_index: 0, ..worker })
            &&& effect == (EffectView { output: Seq::empty(), next: Next::Poll })
            &&& changed.step(EventView::Empty).1.output == frame_text(frames[0], worker.message)
        }),
{
}

/// An empty frame table changes nothing in a worker.
pub proof fn law_empty_table_is_passed_over(worker: WorkerView)
    ensures
        worker.step(EventView::Received(CommandView::SetFrames(Seq::empty()))).0 == worker,
{
}

/// Of several messages sent before the worker next finds its queue empty, the
/// frame it then shows holds the last one.
pub proof fn law_last_message_wins(worker: WorkerView, first: Seq<char>, second: Seq<char>)
    requires
        worker.wf(),
        worker.phase == Phase::Running,
    ensures
        ({
            let one = worker.step(EventView::Received(CommandView::SetMessage(first))).0;
            let two = one.step(EventView::Received(CommandView::SetMessage(second))).0;
            two.step(EventView::Empty).1.output == frame_text(worker.glyph(), second)
        }),
{
}

/// A command never shows a frame and never puts the worker to sleep: after
/// it the worker polls again, or leaves its loop. So every command that waits
/// is taken before the next frame is shown, and only a new frame table moves
/// the place in the table.
pub proof fn law_commands_come_before_frames(worker: WorkerView, command: CommandView)
    ensures
        ({
            let (after, effect) = worker.step(EventView::Received(command));
            &&& effect.next == Next::Poll || effect.next == Next::Exit
            &&& after.frame_index == worker.frame_index || command is SetFrames
            &&& after.frames == worker.frames || command is SetFrames
        }),
{
}

/// The command to terminate ends a worker at once, whatever its phase, and the
/// loss of the queue does the same. A worker that has ended stays so: whatever
/// it is handed afterwards, it writes nothing, changes nothing and asks to
/// leave its loop.
pub proof fn law_terminate_is_final(worker: WorkerView, later: EventView)
    requires
        worker.phase != Phase::Terminated,
    ensures
        ({
            let (ended, effect) = worker.step(EventView::Received(CommandView::Terminate));
            &&& ended.phase == Phase::Terminated
            &&& effect == (EffectView { output: CLEAR_LINE@, next: Next::Exit })
            &&& worker.step(EventView::Disconnected) == (ended, effect)
            &&& ended.step(later) == (ended, EffectView { output: Seq::empty(), next: Next::Exit })
        }),
{
}

/// What can be asked of a throbber once it is built.
pub enum Operation {
    SetMessage(Seq<char>),
    SetInterval(Duration),
    SetFrames(Seq<Seq<char>>),
    Start,
    StartWithMsg(Seq<char>),
    Finish,
    Success(Seq<char>),
    Fail(Seq<char>),
    Close,
}

/// The throbber after `operation`, and the actions of that call. A refused
/// frame table leaves the throbber as it is and asks for nothing.
pub open spec fn operate(throbber: ThrobberView, operation: Operation) -> (
    ThrobberView,
    Seq<ActionView>,
) {
    match operation {
        Operation::SetMessage(message) => throbber.set_message(message),
        Operation::SetInterval(interval) => throbber.set_interval(interval),
        Operation::SetFrames(frames) => match throbber.set_frames(frames) {
            Ok(accepted) => accepted,
            Err(_) => (throbber, Seq::empty()),
        },
        Operation::Start => throbber.start(),
        Operation::StartWithMsg(message) => throbber.start_with_msg(message),
        Operation::Finish => (throbber, throbber.finish()),
        Operation::Success(message) => (throbber, throbber.success(message)),
        Operation::Fail(message) => (throbber, throbber.fail(message)),
        Operation::Close => throbber.close(),
    }
}

/// What the actions of a throbber work on.
pub struct Stage {
    /// The worker, while there is one.
    pub worker: Option<WorkerView>,
    /// How many workers were made so far.
    pub spawned: nat,
    /// Everything written to the terminal so far.
    pub terminal: Seq<char>,
}

impl Stage {
    /// The stage once `action` is performed and, where it sends a command, the
    /// worker has taken that command.
    pub open spec fn perform(self, action: ActionView) -> Stage {
        match action {
            ActionView::Spawn(worker) => Stage {
                worker: Some(worker),
                spawned: self.spawned + 1,
                ..self
            },
            ActionView::Send(command) => match self.worker {
                Some(worker) => {
                    let (after, effect) = worker.step(EventView::Received(command));
                    Stage { worker: Some(after), terminal: self.terminal + effect.output, ..self }
                },
                None => self,
            },
            ActionView::Print(text) => Stage { terminal: self.terminal + text, ..self },
            ActionView::Join => Stage { worker: None, ..self },
        }
    }

    /// The stage once `actions` are performed one after the other.
    pub open spec fn perform_all(self, actions: Seq<ActionView>) -> Stage
        decreases actions.len(),
    {
        if actions.len() == 0 {
            self
        } else {
            self.perform(actions.first()).perform_all(actions.drop_first())
        }
    }

    /// The stage once the worker, if there is one, has found its queue empty.
    pub open spec fn tick(self) -> Stage {
        match self.worker {
            Some(worker) => {
                let (after, effect) = worker.step(EventView::Empty);
                Stage { worker: Some(after), terminal: self.terminal + effect.output, ..self }
            },
            None => self,
        }
    }
}

/// The throbber and the stage after `operation` is called and its actions are
/// performed.
pub open spec fn after(throbber: ThrobberView, stage: Stage, operation: Operation) -> (
    ThrobberView,
    Stage,
) {
    let (next, actions) = operate(throbber, operation);
    (next, stage.perform_all(actions))
}

/// Whether `throbber` and `stage` belong together: the throbber has a frame
/// table that holds a glyph; it counts itself started exactly when there is a
/// worker; and that worker is well formed, has not ended, and shows the
/// message, keeps the interval and cycles through the table that the throbber
/// holds.
pub open spec fn linked(throbber: ThrobberView, stage: Stage) -> bool {
    &&& throbber.wf()
    &&& throbber.started <==> stage.worker is Some
    &&& stage.worker matches Some(worker) ==> {
        &&& worker.wf()
        &&& worker.phase != Phase::Terminated
        &&& worker.message == throbber.message
        &&& worker.interval == throbber.interval
        &&& worker.frames == throbber.frames
    }
}

/// A throbber that was just built and a stage on which nothing has happened
/// belong together.
pub proof fn law_link_at_first(throbber: ThrobberView, terminal: Seq<char>)
    requires
        throbber.wf(),
        !throbber.started,
    ensures
        linked(throbber, Stage { worker: None, spawned: 0, terminal }),
{
}

/// Every operation keeps a throbber and its stage together, and so does every
/// frame that the worker shows in between.
pub proof fn law_link_is_kept(throbber: ThrobberView, stage: Stage, operation: Operation)
    requires
        linked(throbber, stage),
    ensures
        linked(after(throbber, stage, operation).0, after(throbber, stage, operation).1),
        linked(throbber, stage.tick()),
{
    lemma_after(throbber, stage, operation);
    if let Some(worker) = stage.worker {
        law_step_keeps_wf(worker, EventView::Empty);
    }
}

/// `success` and `fail` put exactly one status line on the terminal, which
/// holds the mark and the message as given, and nothing else happens: no
/// worker is made or lost, the throbber stays as it is, and the worker, if
/// there is one, is suspended where it stood and shows no frame when it next
/// finds its queue empty.
pub proof fn law_status_line(throbber: ThrobberView, stage: Stage, message: Seq<char>)
    requires
        linked(throbber, stage),
    ensures
        ({
            let (kept, done) = after(throbber, stage, Operation::Success(message));
            &&& kept == throbber
            &&& done.terminal == stage.terminal + success_text(message)
            &&& done.spawned == stage.spawned
            &&& done.worker == match stage.worker {
                Some(worker) => Some(WorkerView { phase: Phase::Suspended, ..worker }),
                None => None,
            }
            &&& done.tick() == done
        }),
        ({
            let (kept, done) = after(throbber, stage, Operation::Fail(message));
            &&& kept == throbber
            &&& done.terminal == stage.terminal + fail_text(message)
            &&& done.spawned == stage.spawned
            &&& done.worker == match stage.worker {
                Some(worker) => Some(WorkerView { phase: Phase::Suspended, ..worker }),
                None => None,
            }
            &&& done.tick() == done
        }),
{
    lemma_after(throbber, stage, Operation::Success(message));
    lemma_after(throbber, stage, Operation::Fail(message));
    let done = after(throbber, stage, Operation::Success(message)).1;
    assert(done.terminal + Seq::<char>::empty() =~= done.terminal);
    let done = after(throbber, stage, Operation::Fail(message)).1;
    assert(done.terminal + Seq::<char>::empty() =~= done.terminal);
}

/// Before the first start, `success` and `fail` ask the caller to print the
/// very status line that a worker would have written, and for nothing more:
/// there is no worker afterwards either.
pub proof fn law_status_line_without_worker(
    throbber: ThrobberView,
    message: Seq<char>,
    worker: WorkerView,
)
    requires
        !throbber.started,
        worker.phase != Phase::Terminated,
    ensures
        throbber.success(message) == seq![
            ActionView::Print(
                worker.step(EventView::Received(CommandView::Succeed(message))).1.output,
            ),
        ],
        throbber.fail(message) == seq![
            ActionView::Print(
                worker.step(EventView::Received(CommandView::Fail(message))).1.output,
            ),
        ],
{
}

/// The first start makes one worker, which runs from the first glyph with the
/// configuration of the throbber. A start that follows while the worker runs
/// changes nothing at all: no second worker is made, and the worker goes on
/// from where it stands.
pub proof fn law_start_twice(throbber: ThrobberView, stage: Stage, frames_shown: nat)
    requires
        linked(throbber, stage),
        !throbber.started,
    ensures
        ({
            let (started, first) = after(throbber, stage, Operation::Start);
            let playing = Stage {
                worker: Some(after_ticks(first.worker->Some_0, frames_shown)),
                ..first
            };
            &&& started == (ThrobberView { started: true, ..throbber })
            &&& first == (Stage {
                worker: Some(throbber.seed()),
                spawned: stage.spawned + 1,
                ..stage
            })
            &&& linked(started, playing)
            &&& after(started, playing, Operation::Start) == (started, playing)
        }),
{
    lemma_after(throbber, stage, Operation::Start);
    let (started, first) = after(throbber, stage, Operation::Start);
    law_frames_cycle(throbber.seed(), frames_shown);
    let playing = Stage { worker: Some(after_ticks(first.worker->Some_0, frames_shown)), ..first };
    lemma_after(started, playing, Operation::Start);
    assert(playing.terminal + Seq::<char>::empty() =~= playing.terminal);
}

/// A start while the worker runs changes nothing, wherever the worker stands:
/// nothing is written, no worker is made, and the place in the table stays.
pub proof fn law_start_while_running(throbber: ThrobberView, stage: Stage)
    requires
        linked(throbber, stage),
        stage.worker matches Some(worker) && worker.phase == Phase::Running,
    ensures
        after(throbber, stage, Operation::Start) == (throbber, stage),
{
    lemma_after(throbber, stage, Operation::Start);
    assert(stage.terminal + Seq::<char>::empty() =~= stage.terminal);
}

/// `start_with_msg` leaves a worker that runs and whose next frame shows the
/// new message, whether the call made that worker or woke it. Nothing is
/// written by the call itself.
pub proof fn law_start_with_msg(throbber: ThrobberView, stage: Stage, message: Seq<char>)
    requires
        linked(throbber, stage),
    ensures
        ({
            let (started, playing) = after(throbber, stage, Operation::StartWithMsg(message));
            &&& started == (ThrobberView { started: true, message, ..throbber })
            &&& playing.worker == Some(
                match stage.worker {
                    Some(worker) => WorkerView { phase: Phase::Running, message, ..worker },
                    None => started.seed(),
                },
            )
            &&& playing.spawned == stage.spawned + if throbber.started {
                0nat
            } else {
                1nat
            }
            &&& playing.terminal == stage.terminal
            &&& playing.tick().terminal == stage.terminal + frame_text(
                playing.worker->Some_0.glyph(),
                message,
            )
        }),
{
    lemma_after(throbber, stage, Operation::StartWithMsg(message));
    let playing = after(throbber, stage, Operation::StartWithMsg(message)).1;
    assert(playing.terminal =~= stage.terminal);
}

/// `finish` erases the line and suspends the worker where it stands, so that
/// it shows no frame when it next finds its queue empty. Without a worker
/// nothing happens at all.
pub proof fn law_finish(throbber: ThrobberView, stage: Stage)
    requires
        linked(throbber, stage),
    ensures
        ({
            let (kept, done) = after(throbber, stage, Operation::Finish);
            &&& kept == throbber
            &&& done == match stage.worker {
                Some(worker) => Stage {
                    worker: Some(WorkerView { phase: Phase::Suspended, ..worker }),
                    terminal: stage.terminal + CLEAR_LINE@,
                    ..stage
                },
                None => stage,
            }
            &&& done.tick() == done
        }),
{
    lemma_after(throbber, stage, Operation::Finish);
    let done = after(throbber, stage, Operation::Finish).1;
    assert(done.terminal + Seq::<char>::empty() =~= done.terminal);
}

/// `close` ends the worker, if there is one: the line is erased, the worker
/// is gone and the throbber knows it. A second `close` asks for nothing and
/// changes nothing.
pub proof fn law_close_twice(throbber: ThrobberView, stage: Stage)
    requires
        linked(throbber, stage),
    ensures
        ({
            let (closed, cleared) = after(throbber, stage, Operation::Close);
            &&& closed == (ThrobberView { started: false, ..throbber })
            &&& cleared == (Stage {
                worker: None,
                terminal: if throbber.started {
                    stage.terminal + CLEAR_LINE@
                } else {
                    stage.terminal
                },
                ..stage
            })
            &&& operate(closed, Operation::Close) == (closed, Seq::<ActionView>::empty())
            &&& after(closed, cleared, Operation::Close) == (closed, cleared)
        }),
{
    lemma_after(throbber, stage, Operation::Close);
    let (closed, cleared) = after(throbber, stage, Operation::Close);
    lemma_after(closed, cleared, Operation::Close);
}

/// What `after` comes to for each number of actions that an operation has.
proof fn lemma_after(throbber: ThrobberView, stage: Stage, operation: Operation)
    ensures
        ({
            let actions = operate(throbber, operation).1;
            let done = after(throbber, stage, operation).1;
            &&& actions.len() <= 2
            &&& actions.len() == 0 ==> done == stage
            &&& actions.len() == 1 ==> done == stage.perform(actions[0])
            &&& actions.len() == 2 ==> done == stage.perform(actions[0]).perform(actions[1])
        }),
{
    let actions = operate(throbber, operation).1;
    reveal_with_fuel(Stage::perform_all, 3);
    if actions.len() == 2 {
        assert(actions.drop_first().first() == actions[1]);
        assert(actions.drop_first().drop_first().len() == 0);
    } else if actions.len() == 1 {
        assert(actions.drop_first().len() == 0);
    }
}

} // verus!

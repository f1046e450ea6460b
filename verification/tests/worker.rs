use std::time::Duration;
use throbber::{
    Action, Command, Effect, Event, Next, Phase, Throbber, Worker, CIRCLE_F, DEFAULT_F, ROTATE_F,
};

fn worker(message: &str, millis: u64, frames: &'static [&'static str]) -> Worker {
    let mut throbber = Throbber::new(message, Duration::from_millis(millis), frames).unwrap();
    match throbber.start().remove(0) {
        Action::Spawn(worker) => worker,
        other => panic!("expected a worker, got {:?}", other),
    }
}

fn quiet(next: Next) -> Effect {
    Effect { output: String::new(), next }
}

#[test]
fn running_worker_renders_and_sleeps() {
    let mut worker = worker("work", 10, &ROTATE_F);
    let effect = worker.step(Event::Empty);
    assert_eq!(
        effect,
        Effect {
            output: "\x1B[2K\r| work".to_string(),
            next: Next::Sleep(Duration::from_millis(10)),
        }
    );
    assert_eq!(worker.frame_index(), 1);
    assert_eq!(worker.phase(), Phase::Running);
}

#[test]
fn frames_come_in_order_and_wrap_round() {
    let mut worker = worker("work", 10, &ROTATE_F);
    let mut shown = Vec::new();
    for _ in 0..10 {
        shown.push(worker.step(Event::Empty).output);
    }
    let expected: Vec<String> = ["|", "/", "-", "\\", "|", "/", "-", "\\", "|", "/"]
        .iter()
        .map(|glyph| format!("\x1B[2K\r{} work", glyph))
        .collect();
    assert_eq!(shown, expected);
    assert_eq!(worker.frame_index(), 2);
}

#[test]
fn every_table_cycles_by_its_own_length() {
    let tables: [&'static [&'static str]; 3] = [&DEFAULT_F, &CIRCLE_F, &ROTATE_F];
    for table in tables {
        let mut worker = worker("", 200, table);
        for tick in 0..(3 * table.len() + 1) {
            let effect = worker.step(Event::Empty);
            assert_eq!(effect.output, format!("\x1B[2K\r{} ", table[tick % table.len()]));
        }
    }
}

#[test]
fn single_glyph_table_repeats_its_glyph() {
    let mut worker = worker("work", 10, &["*"]);
    for _ in 0..3 {
        assert_eq!(worker.step(Event::Empty).output, "\x1B[2K\r* work");
        assert_eq!(worker.frame_index(), 0);
    }
}

#[test]
fn new_table_starts_at_its_first_glyph() {
    let mut worker = worker("work", 10, &ROTATE_F);
    for _ in 0..3 {
        worker.step(Event::Empty);
    }
    assert_eq!(worker.frame_index(), 3);
    let effect = worker.step(Event::Received(Command::SetFrames(&CIRCLE_F)));
    assert_eq!(effect, quiet(Next::Poll));
    assert_eq!(worker.frame_index(), 0);
    assert_eq!(worker.frames(), &CIRCLE_F);
    assert_eq!(worker.step(Event::Empty).output, "\x1B[2K\r◐ work");
}

#[test]
fn shorter_table_never_leaves_the_old_position() {
    let mut worker = worker("work", 10, &DEFAULT_F);
    for _ in 0..9 {
        worker.step(Event::Empty);
    }
    assert_eq!(worker.frame_index(), 9);
    worker.step(Event::Received(Command::SetFrames(&["a", "b"])));
    assert_eq!(worker.step(Event::Empty).output, "\x1B[2K\ra work");
    assert_eq!(worker.step(Event::Empty).output, "\x1B[2K\rb work");
    assert_eq!(worker.step(Event::Empty).output, "\x1B[2K\ra work");
}

#[test]
fn empty_table_is_passed_over() {
    let mut worker = worker("work", 10, &ROTATE_F);
    worker.step(Event::Empty);
    let before = worker.clone();
    assert_eq!(worker.step(Event::Received(Command::SetFrames(&[]))), quiet(Next::Poll));
    assert_eq!(worker, before);
    assert_eq!(worker.step(Event::Empty).output, "\x1B[2K\r/ work");
}

#[test]
fn succeed_writes_one_status_line_and_suspends() {
    let mut worker = worker("work", 10, &ROTATE_F);
    worker.step(Event::Empty);
    let effect = worker.step(Event::Received(Command::Succeed("Success".to_string())));
    assert_eq!(
        effect,
        Effect { output: "\x1B[2K\r✔ Success\n".to_string(), next: Next::Poll }
    );
    assert_eq!(effect.output.matches('\n').count(), 1);
    assert_eq!(worker.phase(), Phase::Suspended);
    assert_eq!(worker.step(Event::Empty), quiet(Next::Park));
    assert_eq!(worker.message(), "work");
}

#[test]
fn fail_writes_one_status_line_and_suspends() {
    let mut worker = worker("work", 10, &ROTATE_F);
    let effect = worker.step(Event::Received(Command::Fail("Fail".to_string())));
    assert_eq!(effect, Effect { output: "\x1B[2K\r✖ Fail\n".to_string(), next: Next::Poll });
    assert_eq!(worker.phase(), Phase::Suspended);
    assert_eq!(worker.step(Event::Empty), quiet(Next::Park));
}

#[test]
fn worker_writes_the_line_that_the_handle_prints() {
    let mut throbber = Throbber::default();
    let printed = throbber.success("done");
    let mut worker = worker("work", 10, &ROTATE_F);
    let written = worker.step(Event::Received(Command::Succeed("done".to_string()))).output;
    assert_eq!(printed, vec![Action::Print(written)]);
}

#[test]
fn stop_blank_erases_the_line_and_suspends() {
    let mut worker = worker("work", 10, &ROTATE_F);
    let effect = worker.step(Event::Received(Command::StopBlank));
    assert_eq!(effect, Effect { output: "\x1B[2K\r".to_string(), next: Next::Poll });
    assert_eq!(worker.phase(), Phase::Suspended);
    assert_eq!(worker.step(Event::Empty), quiet(Next::Park));
}

#[test]
fn start_resumes_where_the_worker_stood() {
    let mut worker = worker("work", 10, &ROTATE_F);
    worker.step(Event::Empty);
    worker.step(Event::Empty);
    worker.step(Event::Received(Command::StopBlank));
    assert_eq!(worker.step(Event::Received(Command::Start)), quiet(Next::Poll));
    assert_eq!(worker.phase(), Phase::Running);
    assert_eq!(worker.frame_index(), 2);
    assert_eq!(worker.step(Event::Empty).output, "\x1B[2K\r- work");
}

#[test]
fn start_while_running_changes_nothing() {
    let mut worker = worker("work", 10, &ROTATE_F);
    worker.step(Event::Empty);
    let before = worker.clone();
    assert_eq!(worker.step(Event::Received(Command::Start)), quiet(Next::Poll));
    assert_eq!(worker, before);
}

#[test]
fn set_message_shows_in_the_next_frame() {
    let mut worker = worker("Downloading file1 0%", 100, &ROTATE_F);
    worker.step(Event::Empty);
    let effect =
        worker.step(Event::Received(Command::SetMessage("Downloading file1 1%".to_string())));
    assert_eq!(effect, quiet(Next::Poll));
    assert_eq!(worker.frame_index(), 1);
    assert_eq!(worker.step(Event::Empty).output, "\x1B[2K\r/ Downloading file1 1%");
}

#[test]
fn burst_of_messages_collapses_to_the_last() {
    let mut worker = worker("work", 10, &ROTATE_F);
    for percent in 0..5 {
        worker.step(Event::Received(Command::SetMessage(format!("{}%", percent))));
    }
    assert_eq!(worker.step(Event::Empty).output, "\x1B[2K\r| 4%");
}

#[test]
fn set_interval_changes_the_sleep() {
    let mut worker = worker("work", 10, &ROTATE_F);
    let effect = worker.step(Event::Received(Command::SetInterval(Duration::from_millis(30))));
    assert_eq!(effect, quiet(Next::Poll));
    assert_eq!(worker.interval(), Duration::from_millis(30));
    assert_eq!(worker.step(Event::Empty).next, Next::Sleep(Duration::from_millis(30)));
}

#[test]
fn messages_reach_a_suspended_worker() {
    let mut worker = worker("work", 10, &ROTATE_F);
    worker.step(Event::Received(Command::StopBlank));
    worker.step(Event::Received(Command::SetMessage("next".to_string())));
    assert_eq!(worker.phase(), Phase::Suspended);
    assert_eq!(worker.step(Event::Empty), quiet(Next::Park));
    worker.step(Event::Received(Command::Start));
    assert_eq!(worker.step(Event::Empty).output, "\x1B[2K\r| next");
}

#[test]
fn terminate_erases_the_line_and_exits() {
    let mut worker = worker("work", 10, &ROTATE_F);
    worker.step(Event::Empty);
    let effect = worker.step(Event::Received(Command::Terminate));
    assert_eq!(effect, Effect { output: "\x1B[2K\r".to_string(), next: Next::Exit });
    assert_eq!(worker.phase(), Phase::Terminated);
}

#[test]
fn terminate_ends_a_suspended_worker_too() {
    let mut worker = worker("work", 10, &ROTATE_F);
    worker.step(Event::Received(Command::StopBlank));
    let effect = worker.step(Event::Received(Command::Terminate));
    assert_eq!(effect, Effect { output: "\x1B[2K\r".to_string(), next: Next::Exit });
    assert_eq!(worker.phase(), Phase::Terminated);
}

#[test]
fn disconnection_ends_the_worker_like_terminate() {
    let mut worker = worker("work", 10, &ROTATE_F);
    let effect = worker.step(Event::Disconnected);
    assert_eq!(effect, Effect { output: "\x1B[2K\r".to_string(), next: Next::Exit });
    assert_eq!(worker.phase(), Phase::Terminated);
}

#[test]
fn commands_after_terminate_are_discarded() {
    let mut worker = worker("work", 10, &ROTATE_F);
    worker.step(Event::Received(Command::Terminate));
    let ended = worker.clone();
    let later = vec![
        Event::Received(Command::SetMessage("late".to_string())),
        Event::Received(Command::Start),
        Event::Received(Command::Succeed("late".to_string())),
        Event::Empty,
        Event::Disconnected,
        Event::Received(Command::Terminate),
    ];
    for event in later {
        assert_eq!(worker.step(event), quiet(Next::Exit));
        assert_eq!(worker, ended);
    }
}

#[test]
fn cloned_worker_goes_its_own_way() {
    let mut worker = worker("work", 10, &ROTATE_F);
    let copy = worker.clone();
    assert_eq!(copy, worker);
    worker.step(Event::Empty);
    assert_ne!(copy, worker);
    assert_eq!(copy.frame_index(), 0);
    assert_eq!(copy.interval(), Duration::from_millis(10));
}

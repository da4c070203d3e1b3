//! Scenario tests driving the engine through whole runs, event by event.

use chase::{Action, ChaseError, Chaser, Control, Engine, Event, FileId, Line, Pos};

fn line_read(text: &str) -> Event {
    Event::LineRead { len: text.len() as u64, text: text.to_string() }
}

fn accepted(control: Control) -> Event {
    Event::Accepted { control }
}

/// Three lines tailed from line zero: records ("a",0,0), ("b",1,2), ("c",2,4).
#[test]
fn tail_from_line_zero() {
    let chaser = Chaser::new("test.log".to_string());
    let mut engine = Engine::new(&chaser);

    assert_eq!(engine.step(Event::Opened { id: FileId(7) }), Action::ReadLine);
    assert_eq!(
        engine.step(line_read("a\n")),
        Action::Deliver { text: "a".to_string(), line: Line(0), pos: Pos(0) }
    );
    assert_eq!(engine.step(accepted(Control::Continue)), Action::SeekThenRead { pos: Pos(2) });
    assert_eq!(
        engine.step(line_read("b\n")),
        Action::Deliver { text: "b".to_string(), line: Line(1), pos: Pos(2) }
    );
    assert_eq!(engine.step(accepted(Control::Continue)), Action::SeekThenRead { pos: Pos(4) });
    assert_eq!(
        engine.step(line_read("c\n")),
        Action::Deliver { text: "c".to_string(), line: Line(2), pos: Pos(4) }
    );
    assert_eq!(engine.step(accepted(Control::Stop)), Action::Finish);
}

/// Resuming at line 1 on a file holding "a\nb\nc\n": the first delivered
/// record is ("b",1,2).
#[test]
fn tail_from_line_one() {
    let mut chaser = Chaser::new("test.log".to_string());
    chaser.line = Line(1);
    let mut engine = Engine::new(&chaser);

    assert_eq!(engine.step(Event::Opened { id: FileId(7) }), Action::ReadLine);
    // the first line is skipped, not delivered; the reader is repositioned
    assert_eq!(engine.step(line_read("a\n")), Action::SeekThenRead { pos: Pos(2) });
    assert_eq!(
        engine.step(line_read("b\n")),
        Action::Deliver { text: "b".to_string(), line: Line(1), pos: Pos(2) }
    );
}

/// A rotation: after "x" and "y" are consumed the path holds a new file;
/// the old file's remainder is drained, then the engine switches and the
/// next record is ("z",0,0).
#[test]
fn rotation_drain_and_switch() {
    let chaser = Chaser::new("test.log".to_string());
    let mut engine = Engine::new(&chaser);

    assert_eq!(engine.step(Event::Opened { id: FileId(1) }), Action::ReadLine);
    assert_eq!(
        engine.step(line_read("x\n")),
        Action::Deliver { text: "x".to_string(), line: Line(0), pos: Pos(0) }
    );
    assert_eq!(engine.step(accepted(Control::Continue)), Action::SeekThenRead { pos: Pos(2) });
    assert_eq!(
        engine.step(line_read("y\n")),
        Action::Deliver { text: "y".to_string(), line: Line(1), pos: Pos(2) }
    );
    assert_eq!(engine.step(accepted(Control::Continue)), Action::SeekThenRead { pos: Pos(4) });
    // the old file is exhausted; the path now holds a different file
    assert_eq!(engine.step(Event::Eof), Action::CheckIdentity);
    assert_eq!(engine.step(Event::Checked { id: FileId(2) }), Action::StashAndDrain);
    // nothing more was appended to the old file before the rename
    assert_eq!(engine.step(Event::Eof), Action::SwitchToStashed);
    assert_eq!(
        engine.step(line_read("z\n")),
        Action::Deliver { text: "z".to_string(), line: Line(0), pos: Pos(0) }
    );
}

/// Lines appended to the old file between the last read and the rotation
/// are delivered, in order, before anything from the new file.
#[test]
fn rotation_delivers_old_remainder_first() {
    let chaser = Chaser::new("test.log".to_string());
    let mut engine = Engine::new(&chaser);

    assert_eq!(engine.step(Event::Opened { id: FileId(1) }), Action::ReadLine);
    assert_eq!(engine.step(Event::Eof), Action::CheckIdentity);
    assert_eq!(engine.step(Event::Checked { id: FileId(2) }), Action::StashAndDrain);
    // a straggler was appended to the old file just before it was renamed
    assert_eq!(
        engine.step(line_read("late\n")),
        Action::Deliver { text: "late".to_string(), line: Line(0), pos: Pos(0) }
    );
    assert_eq!(engine.step(accepted(Control::Continue)), Action::SeekThenRead { pos: Pos(5) });
    assert_eq!(engine.step(Event::Eof), Action::SwitchToStashed);
    assert_eq!(
        engine.step(line_read("new\n")),
        Action::Deliver { text: "new".to_string(), line: Line(0), pos: Pos(0) }
    );
}

/// With a rotation-check budget of one attempt, a path that cannot be read
/// during the check ends the run with the underlying error instead of
/// retrying indefinitely.
#[test]
fn exhausted_rotation_check_aborts() {
    let mut chaser = Chaser::new("test.log".to_string());
    chaser.rotation_check_attempts = Some(1);
    let mut engine = Engine::new(&chaser);

    assert_eq!(engine.step(Event::Opened { id: FileId(1) }), Action::ReadLine);
    assert_eq!(engine.step(Event::Eof), Action::CheckIdentity);
    assert_eq!(
        engine.step(Event::CheckFailed { message: "permission denied".to_string() }),
        Action::Abort { error: ChaseError::IoError { message: "permission denied".to_string() } }
    );
}

/// With an unbounded rotation-check budget, failed checks are waited out and
/// retried.
#[test]
fn unbounded_rotation_check_retries() {
    let chaser = Chaser::new("test.log".to_string());
    let mut engine = Engine::new(&chaser);

    assert_eq!(engine.step(Event::Opened { id: FileId(1) }), Action::ReadLine);
    assert_eq!(engine.step(Event::Eof), Action::CheckIdentity);
    for _ in 0..5 {
        assert_eq!(
            engine.step(Event::CheckFailed { message: "gone".to_string() }),
            Action::WaitThenCheck { millis: 100 }
        );
    }
    assert_eq!(
        engine.step(Event::Checked { id: FileId(1) }),
        Action::WaitThenRead { millis: 50 }
    );
}

/// An undecodable line is not delivered; the pass is treated as end-of-file
/// and a later valid line ("ok") is still delivered.
#[test]
fn invalid_line_recovers() {
    let chaser = Chaser::new("test.log".to_string());
    let mut engine = Engine::new(&chaser);

    assert_eq!(engine.step(Event::Opened { id: FileId(1) }), Action::ReadLine);
    assert_eq!(engine.step(Event::ReadFailed), Action::CheckIdentity);
    assert_eq!(
        engine.step(Event::Checked { id: FileId(1) }),
        Action::WaitThenRead { millis: 50 }
    );
    assert_eq!(
        engine.step(line_read("ok\n")),
        Action::Deliver { text: "ok".to_string(), line: Line(0), pos: Pos(0) }
    );
}

/// Consumer disengagement terminates the run with the delivery error.
#[test]
fn disengaged_consumer_aborts() {
    let chaser = Chaser::new("test.log".to_string());
    let mut engine = Engine::new(&chaser);

    assert_eq!(engine.step(Event::Opened { id: FileId(1) }), Action::ReadLine);
    assert_eq!(
        engine.step(line_read("hi\n")),
        Action::Deliver { text: "hi".to_string(), line: Line(0), pos: Pos(0) }
    );
    let gone = ChaseError::ChannelSendError {
        text: "hi".to_string(),
        line: Line(0),
        pos: Pos(0),
    };
    assert_eq!(
        engine.step(Event::DeliveryFailed { error: gone.clone() }),
        Action::Abort { error: gone }
    );
}

/// With a startup budget of two attempts, the first failure is waited out
/// and the second ends the run with the underlying error.
#[test]
fn exhausted_startup_open_aborts() {
    let mut chaser = Chaser::new("missing.log".to_string());
    chaser.initial_no_file_attempts = Some(2);
    chaser.initial_no_file_wait_millis = 25;
    let mut engine = Engine::new(&chaser);

    assert_eq!(
        engine.step(Event::OpenFailed { message: "no such file".to_string() }),
        Action::WaitThenOpen { millis: 25 }
    );
    assert_eq!(
        engine.step(Event::OpenFailed { message: "no such file".to_string() }),
        Action::Abort { error: ChaseError::IoError { message: "no such file".to_string() } }
    );
}

/// Without a startup attempt cap, an absent file is waited out indefinitely
/// and delivery starts once the file appears.
#[test]
fn unbounded_startup_open_retries() {
    let chaser = Chaser::new("late.log".to_string());
    let mut engine = Engine::new(&chaser);

    for _ in 0..4 {
        assert_eq!(
            engine.step(Event::OpenFailed { message: "no such file".to_string() }),
            Action::WaitThenOpen { millis: 100 }
        );
    }
    assert_eq!(engine.step(Event::Opened { id: FileId(3) }), Action::ReadLine);
}

/// The consumer's Stop ends the whole run at once, even while the remainder
/// of a rotated-away file is being drained: no rotation check, no switch.
#[test]
fn stop_during_drain_ends_run() {
    let chaser = Chaser::new("test.log".to_string());
    let mut engine = Engine::new(&chaser);

    assert_eq!(engine.step(Event::Opened { id: FileId(1) }), Action::ReadLine);
    assert_eq!(engine.step(Event::Eof), Action::CheckIdentity);
    assert_eq!(engine.step(Event::Checked { id: FileId(2) }), Action::StashAndDrain);
    assert_eq!(
        engine.step(line_read("tail\n")),
        Action::Deliver { text: "tail".to_string(), line: Line(0), pos: Pos(0) }
    );
    assert_eq!(engine.step(accepted(Control::Stop)), Action::Finish);
}

/// A skip cut short by an undecodable line stops skipping and moves straight
/// to reading, without a reposition.
#[test]
fn skip_stops_early_on_undecodable_line() {
    let mut chaser = Chaser::new("binary.log".to_string());
    chaser.line = Line(3);
    let mut engine = Engine::new(&chaser);

    assert_eq!(engine.step(Event::Opened { id: FileId(1) }), Action::ReadLine);
    assert_eq!(engine.step(line_read("good\n")), Action::SeekThenRead { pos: Pos(5) });
    assert_eq!(engine.step(Event::ReadFailed), Action::ReadLine);
    assert_eq!(
        engine.step(line_read("after\n")),
        Action::Deliver { text: "after".to_string(), line: Line(1), pos: Pos(5) }
    );
}

/// A skip cut short by end-of-file leaves the cursor where skipping stopped;
/// delivery then starts from there, not from the configured line.
#[test]
fn skip_stops_early_at_eof() {
    let mut chaser = Chaser::new("short.log".to_string());
    chaser.line = Line(5);
    let mut engine = Engine::new(&chaser);

    assert_eq!(engine.step(Event::Opened { id: FileId(1) }), Action::ReadLine);
    assert_eq!(engine.step(line_read("only\n")), Action::SeekThenRead { pos: Pos(5) });
    assert_eq!(engine.step(Event::Eof), Action::ReadLine);
    assert_eq!(
        engine.step(line_read("next\n")),
        Action::Deliver { text: "next".to_string(), line: Line(1), pos: Pos(5) }
    );
}

//! The mathematical model of the follow protocol.
//!
//! A run of the engine is a dialogue: the engine asks the driver to perform
//! one operation (open the path, read a line, hand a record to the consumer,
//! check the file identity, wait), the driver reports what happened, and the
//! engine moves to its next state and asks for the next operation. This
//! module states that dialogue over unbounded integers and sequences:
//! [`step_model`] is the whole protocol, and the folds [`run_model`],
//! [`valid_trace`] and [`outputs`] describe entire runs. The executable
//! [`crate::engine::Engine`] is proved to follow `step_model` exactly, and
//! the laws in [`crate::laws`] hold of every run of it.

use vstd::prelude::*;

use crate::control::Control;
use crate::errors::ErrorModel;
use crate::retry::{failures_ok, retries_left};
use crate::text::trim_newlines;

verus! {

/// The engine's tunables: the resume line and the wait/retry parameters,
/// in the order they are consulted. Waits are in milliseconds.
pub struct Config {
    /// Lines read before this index are discarded rather than delivered.
    pub start_line: nat,
    /// Wait between attempts to open an absent file at startup.
    pub open_wait: nat,
    /// Cap on those attempts; `None` means no limit.
    pub open_attempts: Option<nat>,
    /// Wait between attempts to re-open the path for a rotation check.
    pub check_wait: nat,
    /// Cap on those attempts; `None` means no limit.
    pub check_attempts: Option<nat>,
    /// Wait before polling again when the file is at end-of-file, unrotated.
    pub poll_wait: nat,
}

/// Which part of the protocol the engine is in.
pub enum Phase {
    /// Waiting for the outcome of an attempt to open the target path.
    Opening { failures: nat },
    /// Discarding lines until the configured start line is reached.
    Skipping,
    /// Waiting for the outcome of reading the next line.
    Reading,
    /// A record has been handed to the consumer; waiting for its verdict.
    AwaitingVerdict { len: nat },
    /// Waiting for the outcome of a rotation check.
    Checking { failures: nat },
    /// The consumer asked to stop; the run is over.
    Done,
    /// The run ended with this error.
    Failed { error: ErrorModel },
}

/// The full state of the engine between two events.
pub struct State {
    pub cfg: Config,
    pub phase: Phase,
    /// While draining the remainder of a rotated-away file: the identity of
    /// the replacement file waiting to be switched to.
    pub drain: Option<nat>,
    /// Identity of the file currently being read.
    pub file_id: nat,
    /// Zero-based index of the next line to be read.
    pub line: nat,
    /// Byte offset, from the start of the file, of the next line to be read.
    pub pos: nat,
    /// How many switches to a replacement file have happened: 0 while the
    /// file first opened is still being read.
    pub generation: nat,
}

/// What the driver reports back after performing the operation it was asked
/// to perform.
pub enum EventModel {
    /// The path was opened; this is the identity of the file found there.
    Opened { id: nat },
    /// The open (or the identity read) failed, with this description.
    OpenFailed { message: Seq<char> },
    /// A line of `len` raw bytes (delimiter included) was read and decoded
    /// to `text`.
    LineRead { len: nat, text: Seq<char> },
    /// Zero bytes were read: the file is at end-of-file.
    Eof,
    /// The read failed, or the bytes read were not valid text.
    ReadFailed,
    /// The consumer took the record and answered with this verdict.
    Accepted { control: Control },
    /// The record could not be handed over: the consumer is gone.
    DeliveryFailed { error: ErrorModel },
    /// The rotation check opened the path and found this file identity.
    Checked { id: nat },
    /// The rotation check could not open the path, with this description.
    CheckFailed { message: Seq<char> },
}

/// What the engine asks the driver to do next.
pub enum ActionModel {
    /// Open the target path and read its file identity.
    Open,
    /// Wait `millis`, then open the target path again.
    WaitThenOpen { millis: nat },
    /// Read the next newline-delimited line from the open file.
    ReadLine,
    /// Reposition the reader to byte offset `pos`, then read the next line.
    SeekThenRead { pos: nat },
    /// Hand this record to the consumer and report its verdict.
    Deliver { text: Seq<char>, line: nat, pos: nat },
    /// Open the target path afresh and report the identity found there.
    CheckIdentity,
    /// Wait `millis`, then run the rotation check again.
    WaitThenCheck { millis: nat },
    /// A rotation: keep the freshly opened file aside and keep reading the
    /// old one until its remainder is drained.
    StashAndDrain,
    /// The old file is drained: switch reading over to the kept file, then
    /// read from its start.
    SwitchToStashed,
    /// Wait `millis`, then read again: the file was merely at end-of-file.
    WaitThenRead { millis: nat },
    /// The consumer asked to stop: end the run successfully.
    Finish,
    /// End the run with this error.
    Abort { error: ErrorModel },
}

/// A record as delivered to the consumer, together with how it advanced the
/// engine's accounting.
pub struct Record {
    /// The delivered text: the raw line with its trailing newline stripped.
    pub text: Seq<char>,
    /// The line index the record was delivered under.
    pub line: nat,
    /// The byte offset at which the raw line started.
    pub pos: nat,
    /// Raw byte length of the line as stored, delimiter included.
    pub len: nat,
    /// Which file the record came from: 0 for the file first opened, one
    /// more for each switch to a replacement file since.
    pub generation: nat,
}

/// The state a run starts from. The first operation the driver performs is
/// [`ActionModel::Open`]; everything after that is decided by [`step_model`].
pub open spec fn init(cfg: Config) -> State {
    State {
        cfg,
        phase: Phase::Opening { failures: 0 },
        drain: Option::None,
        file_id: 0,
        line: 0,
        pos: 0,
        generation: 0,
    }
}

/// Which events can answer the operation the engine asked for in state `s`.
/// A driver that performs the operation it was asked to perform only ever
/// reports enabled events.
pub open spec fn enabled(s: State, ev: EventModel) -> bool {
    match s.phase {
        Phase::Opening { .. } => ev is Opened || ev is OpenFailed,
        Phase::Skipping => (ev matches EventModel::LineRead { len, .. } && len >= 1) || ev is Eof
            || ev is ReadFailed,
        Phase::Reading => (ev matches EventModel::LineRead { len, .. } && len >= 1) || ev is Eof
            || ev is ReadFailed,
        Phase::AwaitingVerdict { .. } => ev is Accepted || ev is DeliveryFailed,
        Phase::Checking { .. } => ev is Checked || ev is CheckFailed,
        Phase::Done => false,
        Phase::Failed { .. } => false,
    }
}

/// End-of-file handling while reading: if the remainder of a rotated-away
/// file has just been drained, switch to the kept replacement and start it
/// as a fresh generation; otherwise start a rotation check.
pub open spec fn end_of_file(s: State) -> (State, ActionModel) {
    match s.drain {
        Option::Some(next_id) => (
            State {
                phase: Phase::Reading,
                drain: Option::None,
                file_id: next_id,
                line: 0,
                pos: 0,
                generation: s.generation + 1,
                ..s
            },
            ActionModel::SwitchToStashed,
        ),
        Option::None => (
            State { phase: Phase::Checking { failures: 0 }, ..s },
            ActionModel::CheckIdentity,
        ),
    }
}

/// The whole protocol: from the state and the event just reported, the next
/// state and the next operation the driver is asked to perform. Undecodable
/// reads are treated as end-of-file for the pass, never delivered; a failed
/// retried operation is retried while its budget lasts and aborts the run
/// with the last failure once the budget is exhausted.
pub open spec fn step_model(s: State, ev: EventModel) -> (State, ActionModel) {
    match (s.phase, ev) {
        (Phase::Opening { .. }, EventModel::Opened { id }) => {
            let phase = if s.cfg.start_line > 0 {
                Phase::Skipping
            } else {
                Phase::Reading
            };
            (State { phase, file_id: id, line: 0, pos: 0, ..s }, ActionModel::ReadLine)
        },
        (Phase::Opening { failures }, EventModel::OpenFailed { message }) => {
            if s.cfg.open_attempts is None {
                (s, ActionModel::WaitThenOpen { millis: s.cfg.open_wait })
            } else if retries_left(failures, s.cfg.open_attempts) {
                (
                    State { phase: Phase::Opening { failures: failures + 1 }, ..s },
                    ActionModel::WaitThenOpen { millis: s.cfg.open_wait },
                )
            } else {
                (
                    State { phase: Phase::Failed { error: ErrorModel::Io { message } }, ..s },
                    ActionModel::Abort { error: ErrorModel::Io { message } },
                )
            }
        },
        (Phase::Skipping, EventModel::LineRead { len, .. }) => {
            let phase = if s.line + 1 < s.cfg.start_line {
                Phase::Skipping
            } else {
                Phase::Reading
            };
            (
                State { phase, line: s.line + 1, pos: s.pos + len, ..s },
                ActionModel::SeekThenRead { pos: s.pos + len },
            )
        },
        (Phase::Skipping, EventModel::Eof) => (
            State { phase: Phase::Reading, ..s },
            ActionModel::ReadLine,
        ),
        (Phase::Skipping, EventModel::ReadFailed) => (
            State { phase: Phase::Reading, ..s },
            ActionModel::ReadLine,
        ),
        (Phase::Reading, EventModel::LineRead { len, text }) => (
            State { phase: Phase::AwaitingVerdict { len }, ..s },
            ActionModel::Deliver { text: trim_newlines(text), line: s.line, pos: s.pos },
        ),
        (Phase::Reading, EventModel::Eof) => end_of_file(s),
        (Phase::Reading, EventModel::ReadFailed) => end_of_file(s),
        (Phase::AwaitingVerdict { len }, EventModel::Accepted { control }) => {
            match control {
                Control::Continue => (
                    State { phase: Phase::Reading, line: s.line + 1, pos: s.pos + len, ..s },
                    ActionModel::SeekThenRead { pos: s.pos + len },
                ),
                Control::Stop => (State { phase: Phase::Done, ..s }, ActionModel::Finish),
            }
        },
        (Phase::AwaitingVerdict { .. }, EventModel::DeliveryFailed { error }) => (
            State { phase: Phase::Failed { error }, ..s },
            ActionModel::Abort { error },
        ),
        (Phase::Checking { .. }, EventModel::Checked { id }) => {
            if id != s.file_id {
                (
                    State { phase: Phase::Reading, drain: Option::Some(id), ..s },
                    ActionModel::StashAndDrain,
                )
            } else {
                (
                    State { phase: Phase::Reading, ..s },
                    ActionModel::WaitThenRead { millis: s.cfg.poll_wait },
                )
            }
        },
        (Phase::Checking { failures }, EventModel::CheckFailed { message }) => {
            if s.cfg.check_attempts is None {
                (s, ActionModel::WaitThenCheck { millis: s.cfg.check_wait })
            } else if retries_left(failures, s.cfg.check_attempts) {
                (
                    State { phase: Phase::Checking { failures: failures + 1 }, ..s },
                    ActionModel::WaitThenCheck { millis: s.cfg.check_wait },
                )
            } else {
                (
                    State { phase: Phase::Failed { error: ErrorModel::Io { message } }, ..s },
                    ActionModel::Abort { error: ErrorModel::Io { message } },
                )
            }
        },
        // unreachable under `enabled`
        _ => (s, ActionModel::ReadLine),
    }
}

/// The record (if any) delivered to the consumer at this step: reading a
/// line outside the skip phase delivers its text, trimmed of the delimiter,
/// under the engine's current line index and byte offset.
pub open spec fn emits(s: State, ev: EventModel) -> Option<Record> {
    match (s.phase, ev) {
        (Phase::Reading, EventModel::LineRead { len, text }) => Option::Some(
            Record {
                text: trim_newlines(text),
                line: s.line,
                pos: s.pos,
                len,
                generation: s.generation,
            },
        ),
        _ => Option::None,
    }
}

/// The internal consistency the engine maintains between events.
pub open spec fn wf(s: State) -> bool {
    &&& (s.phase matches Phase::Opening { failures } ==> s.line == 0 && s.pos == 0
        && s.generation == 0 && s.drain is None && failures_ok(failures, s.cfg.open_attempts))
    &&& (s.phase is Skipping ==> s.line < s.cfg.start_line && s.drain is None && s.generation
        == 0)
    &&& (s.phase matches Phase::Checking { failures } ==> s.drain is None && failures_ok(
        failures,
        s.cfg.check_attempts,
    ))
    &&& (s.phase matches Phase::AwaitingVerdict { len } ==> len >= 1)
}

/// The state after a whole sequence of events.
pub open spec fn run_model(s: State, evs: Seq<EventModel>) -> State
    decreases evs.len(),
{
    if evs.len() == 0 {
        s
    } else {
        run_model(step_model(s, evs.first()).0, evs.drop_first())
    }
}

/// Whether every event of the sequence is enabled when its turn comes:
/// whether the sequence is a dialogue a faithful driver could report.
pub open spec fn valid_trace(s: State, evs: Seq<EventModel>) -> bool
    decreases evs.len(),
{
    evs.len() == 0 || (enabled(s, evs.first()) && valid_trace(
        step_model(s, evs.first()).0,
        evs.drop_first(),
    ))
}

/// The records delivered to the consumer over a whole sequence of events,
/// in delivery order.
pub open spec fn outputs(s: State, evs: Seq<EventModel>) -> Seq<Record>
    decreases evs.len(),
{
    if evs.len() == 0 {
        Seq::empty()
    } else {
        match emits(s, evs.first()) {
            Option::Some(r) => seq![r] + outputs(step_model(s, evs.first()).0, evs.drop_first()),
            Option::None => outputs(step_model(s, evs.first()).0, evs.drop_first()),
        }
    }
}

/// Every step of the protocol keeps the engine's internal consistency.
pub proof fn lemma_step_preserves_wf(s: State, ev: EventModel)
    requires
        wf(s),
        enabled(s, ev),
    ensures
        wf(step_model(s, ev).0),
{
}

} // verus!

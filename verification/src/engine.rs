//! The tailing engine: the executable state machine a driver runs.
//!
//! The engine owns every decision of the follow protocol — skipping to the
//! resume line, delivering records, detecting and draining a rotation,
//! budgeting retries — and none of the I/O. A driver loop performs the
//! [`Action`] the engine hands out (opening, reading, seeking, sleeping,
//! delivering) and reports the outcome as the next [`Event`]. Each call of
//! [`Engine::step`] is proved to follow the protocol [`crate::model`]
//! states, so every law proved of the model holds of this engine.

use vstd::prelude::*;

use crate::control::Control;
use crate::data::{Chaser, FileId, Line, Pos};
use crate::errors::ChaseError;
use crate::model::{enabled, init, step_model, wf, ActionModel, Config, EventModel, Phase, State};
use crate::retry::{opt_nat, RetryBudget};
use crate::text::trim_trailing_newlines;

verus! {

/// Which part of the protocol the engine is in. Retry counts live in the
/// engine's budgets, not here.
enum Mode {
    Opening,
    Skipping,
    Reading,
    AwaitingVerdict { len: u64 },
    Checking,
    Done,
    Failed { error: ChaseError },
}

/// What the driver reports back after performing the operation it was asked
/// to perform.
#[derive(Debug, PartialEq, Eq)]
pub enum Event {
    /// The path was opened; this is the identity of the file found there.
    Opened { id: FileId },
    /// The open (or the identity read) failed, with this description.
    OpenFailed { message: String },
    /// A line of `len` raw bytes (delimiter included) was read and decoded
    /// to `text`.
    LineRead { len: u64, text: String },
    /// Zero bytes were read: the file is at end-of-file.
    Eof,
    /// The read failed, or the bytes read were not valid text.
    ReadFailed,
    /// The consumer took the record and answered with this verdict.
    Accepted { control: Control },
    /// The record could not be handed over: the consumer is gone.
    DeliveryFailed { error: ChaseError },
    /// The rotation check opened the path and found this file identity.
    Checked { id: FileId },
    /// The rotation check could not open the path, with this description.
    CheckFailed { message: String },
}

/// What the engine asks the driver to do next.
#[derive(Debug, PartialEq, Eq)]
pub enum Action {
    /// Open the target path and read its file identity.
    Open,
    /// Wait `millis`, then open the target path again.
    WaitThenOpen { millis: u64 },
    /// Read the next newline-delimited line from the open file.
    ReadLine,
    /// Reposition the reader to byte offset `pos`, then read the next line.
    SeekThenRead { pos: Pos },
    /// Hand this record to the consumer and report its verdict.
    Deliver { text: String, line: Line, pos: Pos },
    /// Open the target path afresh and report the identity found there.
    CheckIdentity,
    /// Wait `millis`, then run the rotation check again.
    WaitThenCheck { millis: u64 },
    /// A rotation: keep the freshly opened file aside and keep reading the
    /// old one until its remainder is drained.
    StashAndDrain,
    /// The old file is drained: switch reading over to the kept file, then
    /// read from its start.
    SwitchToStashed,
    /// Wait `millis`, then read again: the file was merely at end-of-file.
    WaitThenRead { millis: u64 },
    /// The consumer asked to stop: end the run successfully.
    Finish,
    /// End the run with this error.
    Abort { error: ChaseError },
}

impl View for Event {
    type V = EventModel;

    open spec fn view(&self) -> EventModel {
        match self {
            Event::Opened { id } => EventModel::Opened { id: id.0 as nat },
            Event::OpenFailed { message } => EventModel::OpenFailed { message: message@ },
            Event::LineRead { len, text } => EventModel::LineRead {
                len: *len as nat,
                text: text@,
            },
            Event::Eof => EventModel::Eof,
            Event::ReadFailed => EventModel::ReadFailed,
            Event::Accepted { control } => EventModel::Accepted { control: *control },
            Event::DeliveryFailed { error } => EventModel::DeliveryFailed { error: error@ },
            Event::Checked { id } => EventModel::Checked { id: id.0 as nat },
            Event::CheckFailed { message } => EventModel::CheckFailed { message: message@ },
        }
    }
}

impl View for Action {
    type V = ActionModel;

    open spec fn view(&self) -> ActionModel {
        match self {
            Action::Open => ActionModel::Open,
            Action::WaitThenOpen { millis } => ActionModel::WaitThenOpen {
                millis: *millis as nat,
            },
            Action::ReadLine => ActionModel::ReadLine,
            Action::SeekThenRead { pos } => ActionModel::SeekThenRead { pos: pos.0 as nat },
            Action::Deliver { text, line, pos } => ActionModel::Deliver {
                text: text@,
                line: line.0 as nat,
                pos: pos.0 as nat,
            },
            Action::CheckIdentity => ActionModel::CheckIdentity,
            Action::WaitThenCheck { millis } => ActionModel::WaitThenCheck {
                millis: *millis as nat,
            },
            Action::StashAndDrain => ActionModel::StashAndDrain,
            Action::SwitchToStashed => ActionModel::SwitchToStashed,
            Action::WaitThenRead { millis } => ActionModel::WaitThenRead {
                millis: *millis as nat,
            },
            Action::Finish => ActionModel::Finish,
            Action::Abort { error } => ActionModel::Abort { error: error@ },
        }
    }
}

/// The bounds the driver must respect for the engine's accounting to stay
/// within machine integers: a line's byte length may not push the byte
/// offset past `u64::MAX`, nor the line count past `usize::MAX`.
pub open spec fn step_fits(s: State, ev: EventModel) -> bool {
    match (s.phase, ev) {
        (Phase::Skipping, EventModel::LineRead { len, .. }) => s.pos + len <= u64::MAX && s.line
            + 1 <= usize::MAX,
        (Phase::AwaitingVerdict { len }, EventModel::Accepted { control }) => control
            is Continue ==> s.pos + len <= u64::MAX && s.line + 1 <= usize::MAX,
        _ => true,
    }
}

/// The engine's tunables, as a function of the configuration a run was
/// started from.
pub open spec fn chaser_config(c: Chaser) -> Config {
    Config {
        start_line: c.line.0 as nat,
        open_wait: c.initial_no_file_wait_millis as nat,
        open_attempts: opt_nat(c.initial_no_file_attempts),
        check_wait: c.rotation_check_wait_millis as nat,
        check_attempts: opt_nat(c.rotation_check_attempts),
        poll_wait: c.not_rotated_wait_millis as nat,
    }
}

/// The state machine of one run. Constructed from a [`Chaser`]; stepped by
/// the driver until it answers [`Action::Finish`] or [`Action::Abort`].
pub struct Engine {
    start_line: usize,
    open_wait_millis: u64,
    check_wait_millis: u64,
    poll_wait_millis: u64,
    open_budget: RetryBudget,
    check_budget: RetryBudget,
    mode: Mode,
    drain: Option<FileId>,
    file_id: FileId,
    line: Line,
    pos: Pos,
    generation: Ghost<nat>,
}

impl View for Engine {
    type V = State;

    closed spec fn view(&self) -> State {
        State {
            cfg: Config {
                start_line: self.start_line as nat,
                open_wait: self.open_wait_millis as nat,
                open_attempts: opt_nat(self.open_budget.max_attempts),
                check_wait: self.check_wait_millis as nat,
                check_attempts: opt_nat(self.check_budget.max_attempts),
                poll_wait: self.poll_wait_millis as nat,
            },
            phase: match &self.mode {
                Mode::Opening => Phase::Opening { failures: self.open_budget.failures as nat },
                Mode::Skipping => Phase::Skipping,
                Mode::Reading => Phase::Reading,
                Mode::AwaitingVerdict { len } => Phase::AwaitingVerdict { len: *len as nat },
                Mode::Checking => Phase::Checking { failures: self.check_budget.failures as nat },
                Mode::Done => Phase::Done,
                Mode::Failed { error } => Phase::Failed { error: error@ },
            },
            drain: match self.drain {
                Option::None => Option::None,
                Option::Some(id) => Option::Some(id.0 as nat),
            },
            file_id: self.file_id.0 as nat,
            line: self.line.0 as nat,
            pos: self.pos.0 as nat,
            generation: self.generation@,
        }
    }
}

impl Engine {
    /// A fresh engine for one run under the given configuration. The driver
    /// performs [`Action::Open`] first and reports what happened.
    pub fn new(chaser: &Chaser) -> (engine: Engine)
        ensures
            engine@ == init(chaser_config(*chaser)),
            wf(engine@),
    {
        Engine {
            start_line: chaser.line.0,
            open_wait_millis: chaser.initial_no_file_wait_millis,
            check_wait_millis: chaser.rotation_check_wait_millis,
            poll_wait_millis: chaser.not_rotated_wait_millis,
            open_budget: RetryBudget::new(chaser.initial_no_file_attempts),
            check_budget: RetryBudget::new(chaser.rotation_check_attempts),
            mode: Mode::Opening,
            drain: Option::None,
            file_id: FileId(0),
            line: Line(0),
            pos: Pos(0),
            generation: Ghost(0nat),
        }
    }

    /// One turn of the dialogue: take the outcome the driver reports and
    /// answer with the next operation to perform. Follows the protocol
    /// [`crate::model::step_model`] exactly.
    pub fn step(&mut self, event: Event) -> (action: Action)
        requires
            wf(old(self)@),
            enabled(old(self)@, event@),
            step_fits(old(self)@, event@),
        ensures
            final(self)@ == step_model(old(self)@, event@).0,
            action@ == step_model(old(self)@, event@).1,
            wf(final(self)@),
    {
        proof {
            crate::model::lemma_step_preserves_wf(old(self)@, event@);
        }
        let mut mode = Mode::Done;
        core::mem::swap(&mut mode, &mut self.mode);
        match (mode, event) {
            (Mode::Opening, Event::Opened { id }) => {
                self.file_id = id;
                self.line = Line(0);
                self.pos = Pos(0);
                self.mode = if self.start_line > 0 {
                    Mode::Skipping
                } else {
                    Mode::Reading
                };
                Action::ReadLine
            },
            (Mode::Opening, Event::OpenFailed { message }) => {
                if self.open_budget.retry_after_failure() {
                    self.mode = Mode::Opening;
                    Action::WaitThenOpen { millis: self.open_wait_millis }
                } else {
                    let error = ChaseError::IoError { message };
                    self.mode = Mode::Failed { error: error.duplicate() };
                    Action::Abort { error }
                }
            },
            (Mode::Skipping, Event::LineRead { len, .. }) => {
                self.line = Line(self.line.0 + 1);
                self.pos = Pos(self.pos.0 + len);
                self.mode = if self.line.0 < self.start_line {
                    Mode::Skipping
                } else {
                    Mode::Reading
                };
                Action::SeekThenRead { pos: self.pos }
            },
            (Mode::Skipping, Event::Eof) => {
                self.mode = Mode::Reading;
                Action::ReadLine
            },
            (Mode::Skipping, Event::ReadFailed) => {
                self.mode = Mode::Reading;
                Action::ReadLine
            },
            (Mode::Reading, Event::LineRead { len, text }) => {
                self.mode = Mode::AwaitingVerdict { len };
                Action::Deliver {
                    text: trim_trailing_newlines(text.as_str()),
                    line: self.line,
                    pos: self.pos,
                }
            },
            (Mode::Reading, Event::Eof) => {
                match self.drain {
                    Option::Some(next_id) => {
                        self.drain = Option::None;
                        self.file_id = next_id;
                        self.line = Line(0);
                        self.pos = Pos(0);
                        self.generation = Ghost(self.generation@ + 1);
                        self.mode = Mode::Reading;
                        Action::SwitchToStashed
                    },
                    Option::None => {
                        self.check_budget.reset();
                        self.mode = Mode::Checking;
                        Action::CheckIdentity
                    },
                }
            },
            (Mode::Reading, Event::ReadFailed) => {
                match self.drain {
                    Option::Some(next_id) => {
                        self.drain = Option::None;
                        self.file_id = next_id;
                        self.line = Line(0);
                        self.pos = Pos(0);
                        self.generation = Ghost(self.generation@ + 1);
                        self.mode = Mode::Reading;
                        Action::SwitchToStashed
                    },
                    Option::None => {
                        self.check_budget.reset();
                        self.mode = Mode::Checking;
                        Action::CheckIdentity
                    },
                }
            },
            (Mode::AwaitingVerdict { len }, Event::Accepted { control }) => {
                match control {
                    Control::Continue => {
                        self.line = Line(self.line.0 + 1);
                        self.pos = Pos(self.pos.0 + len);
                        self.mode = Mode::Reading;
                        Action::SeekThenRead { pos: self.pos }
                    },
                    Control::Stop => {
                        self.mode = Mode::Done;
                        Action::Finish
                    },
                }
            },
            (Mode::AwaitingVerdict { .. }, Event::DeliveryFailed { error }) => {
                self.mode = Mode::Failed { error: error.duplicate() };
                Action::Abort { error }
            },
            (Mode::Checking, Event::Checked { id }) => {
                self.mode = Mode::Reading;
                if id.0 != self.file_id.0 {
                    self.drain = Option::Some(id);
                    Action::StashAndDrain
                } else {
                    Action::WaitThenRead { millis: self.poll_wait_millis }
                }
            },
            (Mode::Checking, Event::CheckFailed { message }) => {
                if self.check_budget.retry_after_failure() {
                    self.mode = Mode::Checking;
                    Action::WaitThenCheck { millis: self.check_wait_millis }
                } else {
                    let error = ChaseError::IoError { message };
                    self.mode = Mode::Failed { error: error.duplicate() };
                    Action::Abort { error }
                }
            },
            (_, _) => unreached(),
        }
    }
}

} // verus!

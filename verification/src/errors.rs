//! The errors that can end a run.

use vstd::prelude::*;

use crate::data::{Line, Pos};

verus! {

/// The mathematical image of a [`ChaseError`]: what the error holds, over
/// sequences and unbounded integers.
pub enum ErrorModel {
    Io { message: Seq<char> },
    ChannelSend { text: Seq<char>, line: nat, pos: nat },
    StreamSend { text: Seq<char>, line: nat, pos: nat },
}

/// Why a run ended, when it did not end by the consumer asking to stop.
#[derive(Debug, Clone, PartialEq, Eq)]
pub enum ChaseError {
    /// An open, a metadata read or a seek on the target path failed for good:
    /// the retry budget that covered it was exhausted. Holds the description
    /// of the last underlying failure.
    IoError { message: String },
    /// A record could not be handed to the receiving side of a rendezvous
    /// channel: the receiver is gone. Holds the undelivered record.
    ChannelSendError { text: String, line: Line, pos: Pos },
    /// A record could not be pushed into a bounded stream: the consumer has
    /// dropped the stream. Holds the undelivered record.
    StreamSendError { text: String, line: Line, pos: Pos },
}

impl View for ChaseError {
    type V = ErrorModel;

    open spec fn view(&self) -> ErrorModel {
        match self {
            ChaseError::IoError { message } => ErrorModel::Io { message: message@ },
            ChaseError::ChannelSendError { text, line, pos } => ErrorModel::ChannelSend {
                text: text@,
                line: line.0 as nat,
                pos: pos.0 as nat,
            },
            ChaseError::StreamSendError { text, line, pos } => ErrorModel::StreamSend {
                text: text@,
                line: line.0 as nat,
                pos: pos.0 as nat,
            },
        }
    }
}

/// The description a [`ChaseError`] renders to.
pub open spec fn error_text(e: ErrorModel) -> Seq<char> {
    match e {
        ErrorModel::Io { message } => message,
        ErrorModel::ChannelSend { .. } => "sending on a closed channel"@,
        ErrorModel::StreamSend { .. } => "send failed because receiver is gone"@,
    }
}

impl ChaseError {
    /// An exact copy of the error, for when it is both stored and returned.
    pub fn duplicate(&self) -> (r: ChaseError)
        ensures
            r == *self,
    {
        match self {
            ChaseError::IoError { message } => ChaseError::IoError { message: message.clone() },
            ChaseError::ChannelSendError { text, line, pos } => ChaseError::ChannelSendError {
                text: text.clone(),
                line: *line,
                pos: *pos,
            },
            ChaseError::StreamSendError { text, line, pos } => ChaseError::StreamSendError {
                text: text.clone(),
                line: *line,
                pos: *pos,
            },
        }
    }

    /// A human-readable description of the error.
    pub fn message(&self) -> (r: String)
        ensures
            r@ == error_text(self@),
    {
        match self {
            ChaseError::IoError { message } => message.clone(),
            ChaseError::ChannelSendError { .. } => String::from_str("sending on a closed channel"),
            ChaseError::StreamSendError { .. } => String::from_str(
                "send failed because receiver is gone",
            ),
        }
    }
}

} // verus!

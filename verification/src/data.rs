//! Data structures used for following files.

use vstd::prelude::*;

verus! {

/// Default wait, in milliseconds, between attempts to open the target path,
/// both at startup and while checking for a rotation.
pub const DEFAULT_ROTATION_CHECK_WAIT_MILLIS: u64 = 100;

/// Default wait, in milliseconds, before polling again once the file has been
/// read to its end without having been rotated.
pub const DEFAULT_NOT_ROTATED_WAIT_MILLIS: u64 = 50;

/// A zero-based line index: how many lines have been delivered so far, and
/// the unit in which a resume point is expressed.
#[derive(Debug, Copy, Clone, PartialEq, Eq, Structural)]
pub struct Line(pub usize);

/// A byte offset from the start of the file: where the next line to be read
/// begins.
#[derive(Debug, Copy, Clone, PartialEq, Eq, Structural)]
pub struct Pos(pub u64);

/// The platform-derived identity of an open file (an inode number, say).
/// Two opens of the same underlying file yield the same identity; a file
/// rotated away and recreated at the same path yields a different one. This
/// is the sole signal used to tell "rotated" apart from "still growing".
#[derive(Debug, Copy, Clone, PartialEq, Eq, Structural)]
pub struct FileId(pub u64);

/// Your entry point for following a file: the durable configuration a run
/// is started from. All waits are in milliseconds; an attempt count of
/// `None` means "keep trying without limit".
#[derive(Debug, Clone)]
pub struct Chaser {
    /// Line to start chasing from.
    pub line: Line,
    /// Path of the file you want to chase.
    pub path: String,
    /// When we start running and there is no file and/or file info to be
    /// read, how long to wait before retrying, in milliseconds.
    pub initial_no_file_wait_millis: u64,
    /// When we start running and there is no file and/or file info to be
    /// read, how many times to keep trying. `None` means no limit.
    pub initial_no_file_attempts: Option<usize>,
    /// When we try to detect a file rotation and there is no file and/or
    /// file info to be read, how long to wait before retrying, in
    /// milliseconds.
    pub rotation_check_wait_millis: u64,
    /// When we try to detect a file rotation and there is no file and/or
    /// file info to be read, how many times to keep trying. `None` means no
    /// limit.
    pub rotation_check_attempts: Option<usize>,
    /// After we read the file to its end without finding a rotation, how
    /// long to wait before trying to read the next line again, in
    /// milliseconds.
    pub not_rotated_wait_millis: u64,
}

impl Chaser {
    /// Creates a new `Chaser` with default options: start from the first
    /// line, retry an absent file and a failed rotation check without limit.
    pub fn new(path: String) -> (chaser: Chaser)
        ensures
            chaser.line == (Line(0)),
            chaser.path@ == path@,
            chaser.initial_no_file_wait_millis == DEFAULT_ROTATION_CHECK_WAIT_MILLIS,
            chaser.initial_no_file_attempts is None,
            chaser.rotation_check_wait_millis == DEFAULT_ROTATION_CHECK_WAIT_MILLIS,
            chaser.rotation_check_attempts is None,
            chaser.not_rotated_wait_millis == DEFAULT_NOT_ROTATED_WAIT_MILLIS,
    {
        Chaser {
            line: Line(0),
            path,
            initial_no_file_attempts: None,
            initial_no_file_wait_millis: DEFAULT_ROTATION_CHECK_WAIT_MILLIS,
            rotation_check_attempts: None,
            rotation_check_wait_millis: DEFAULT_ROTATION_CHECK_WAIT_MILLIS,
            not_rotated_wait_millis: DEFAULT_NOT_ROTATED_WAIT_MILLIS,
        }
    }
}

} // verus!

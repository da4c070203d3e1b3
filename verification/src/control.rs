//! Control constructs for continuing or exiting the watch loop.

use vstd::prelude::*;

verus! {

/// When chasing a file, the consumer returns one of these from its callback
/// to control whether the follow loop keeps going or exits.
#[derive(PartialEq, Eq, Debug, Clone, Copy)]
pub enum Control {
    Stop,
    Continue,
}

} // verus!

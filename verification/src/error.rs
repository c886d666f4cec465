//! The ways an interaction call can fail, and the status the host is given.

use vstd::prelude::*;

verus! {

/// The status returned to the host when a call did its work.
pub const SUCCESS_STATUS: i32 = 0;

/// The status returned to the host when a call failed, whatever the reason.
pub const FAILURE_STATUS: i32 = -1;

/// Why an interaction call wrote nothing.
#[derive(Clone, Copy, Debug, PartialEq, Eq, Structural)]
pub enum DiffractionError {
    /// The host passed no block: its address was null.
    NullBuffer,
    /// The reflective flag of the block is neither zero nor one.
    InvalidReflectiveFlag,
}

impl DiffractionError {
    /// The status that reports this failure to the host: negative, and the
    /// same for every failure.
    pub fn status(&self) -> (status: i32)
        ensures
            status == FAILURE_STATUS,
    {
        FAILURE_STATUS
    }
}

} // verus!

//! The failures that end a harness run.
use vstd::prelude::*;

use crate::session::Phase;

verus! {

/// Why a harness run stopped short of success. None is recoverable.
#[derive(Clone, Debug, PartialEq, Eq)]
pub enum HarnessError {
    /// The guest region is too small for the payload; found before any
    /// backend call.
    Configuration { region_size: u64, payload_size: u64 },
    /// The backend refused the operation of the given phase, with its error
    /// number.
    Backend { during: Phase, errno: i32 },
    /// The guest left execution for a reason other than a halt.
    UnexpectedExit { reason: String },
    /// The guest halted with a result other than the expected one.
    Postcondition { expected: u64, actual: u64 },
}

} // verus!

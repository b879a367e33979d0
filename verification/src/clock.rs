//! The clock that a routine runs on.

use vstd::prelude::*;

verus! {

/// `time::precise_time_ns`: the reading of the machine's steady clock, in
/// nanoseconds since an origin of the machine's choosing. Nothing is claimed
/// of the reading: whoever polls a routine with it has to cope with any.
#[verifier::external_body]
pub(crate) fn read_clock() -> (now: u64) {
    time::precise_time_ns()
}

} // verus!

//! Deadline policy: a candidate deadline is acceptable against a reference
//! time iff the window between them lies within fixed bounds. The same rule
//! governs the initial proposal, any re-proposal, and extension requests.

use vstd::prelude::*;
use crate::errors::EscrowError;

verus! {

/// Shortest acceptable window between a reference time and a candidate
/// deadline: one minute, in seconds.
pub const MIN_DEADLINE: i64 = 60;

/// Longest acceptable window between a reference time and a candidate
/// deadline: roughly eight months, in seconds.
pub const MAX_DEADLINE: i64 = 8 * 30 * 24 * 60 * 60;

/// Whether a mathematical value is representable as a 64-bit signed machine
/// integer — the one machine limit the time arithmetic must respect.
pub open spec fn fits_i64(v: int) -> bool {
    i64::MIN <= v <= i64::MAX
}

/// Whether the window from `reference` to `candidate` lies within the
/// acceptable bounds.
pub open spec fn deadline_window_ok(candidate: int, reference: int) -> bool {
    MIN_DEADLINE <= candidate - reference <= MAX_DEADLINE
}

/// The outcome of validating `candidate` against `reference`: too short a
/// window, too long a window, or acceptable.
pub open spec fn deadline_check(candidate: int, reference: int) -> Result<(), EscrowError> {
    if candidate - reference < MIN_DEADLINE {
        Err(EscrowError::DeadlineTooShort)
    } else if candidate - reference > MAX_DEADLINE {
        Err(EscrowError::DeadlineTooLong)
    } else {
        Ok(())
    }
}

/// Validate a candidate deadline against a reference time: accepts iff the
/// window between them is within bounds, and otherwise says in which
/// direction it falls outside them.
pub fn validate_deadline(candidate: i64, reference: i64) -> (r: Result<(), EscrowError>)
    requires
        fits_i64(candidate - reference),
    ensures
        r == deadline_check(candidate as int, reference as int),
        r is Ok <==> deadline_window_ok(candidate as int, reference as int),
{
    let window = candidate - reference;
    if window < MIN_DEADLINE {
        Err(EscrowError::DeadlineTooShort)
    } else if window > MAX_DEADLINE {
        Err(EscrowError::DeadlineTooLong)
    } else {
        Ok(())
    }
}

} // verus!

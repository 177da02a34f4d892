//! The flat enumeration of precondition-violation errors. Every failure is
//! detected before any mutation and surfaced verbatim to the caller; none is
//! retried or recovered internally.

use vstd::prelude::*;

verus! {

/// Why an escrow operation was refused. Each operation's contract states
/// exactly which inputs yield which variant.
#[derive(Clone, Copy, Debug, PartialEq, Eq, Structural)]
pub enum EscrowError {
    /// The order's current state does not admit the requested operation.
    InvalidState,
    /// The caller is outside the role set permitted for the operation.
    Unauthorized,
    /// The approved deadline has not yet passed, so no refund is due.
    TooEarlyForRefund,
    /// The operation needs a ratified deadline, but none has been approved.
    DeadlineNotApproved,
    /// The candidate deadline is less than the minimum window ahead.
    DeadlineTooShort,
    /// The candidate deadline is more than the maximum window ahead.
    DeadlineTooLong,
    /// The approved deadline has already passed.
    DeadlinePassed,
    /// No extension request is pending.
    ExtensionRequestNotFound,
    /// An extension request is already pending.
    ExtensionAlreadyRequested,
}

} // verus!

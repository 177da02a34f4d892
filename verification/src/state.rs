//! The closed set of lifecycle states of an order. All per-order data lives
//! on the single flat `Order` record; the state carries no payload.

use vstd::prelude::*;

verus! {

/// Lifecycle state of an order. Initial: `PendingDeadlineApproval`.
/// Terminal: `Completed` and `Refunded` (a dispute resolves to `Completed`).
#[derive(Clone, Copy, Debug, PartialEq, Eq, Structural)]
pub enum OrderState {
    /// Waiting for the importer to ratify the exporter's proposed deadline.
    PendingDeadlineApproval,
    /// Deadline ratified; waiting for the exporter to ship.
    PendingShipment,
    /// Waiting for the importer to rule on a deadline-extension request.
    PendingExtensionApproval,
    /// Goods shipped; waiting for delivery confirmation.
    InTransit,
    /// Delivery confirmed; funds are about to be released.
    Delivered,
    /// Funds released to the exporter; permanent end state.
    Completed,
    /// Deadline passed and funds returned to the importer; permanent end state.
    Refunded,
    /// Under dispute; only the verifier may resolve it.
    Disputed,
}

impl OrderState {
    /// No custody-moving operation may succeed once the value has left
    /// holding: the two states in which that has happened.
    pub open spec fn is_terminal(self) -> bool {
        self == OrderState::Completed || self == OrderState::Refunded
    }
}

} // verus!

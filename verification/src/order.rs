//! The order record: one per trade, owned and persisted by the surrounding
//! program, mutated exclusively through the state-machine operations.

use vstd::prelude::*;
use crate::history::{
    appended_hist, clip_chars, HistoryEntryView, OrderHistoryEntry, DESCRIPTION_LIMIT,
    HISTORY_CAPACITY,
};
use crate::ids::{AccountId, LadingHash};
use crate::metadata::OrderMetadata;
use crate::state::OrderState;

verus! {

/// One escrowed trade. The three identities and the amount are fixed at
/// creation; everything else is mutated only by the state-machine
/// operations, each of which appends exactly one history entry.
#[derive(Clone, Debug)]
pub struct Order {
    /// The payer; fixed at creation to the creating caller.
    pub importer: AccountId,
    /// The payee; supplied by the importer at creation, never changed.
    pub exporter: AccountId,
    /// The arbiter; supplied by the importer at creation, never changed.
    pub verifier: AccountId,
    /// The escrowed quantity; fixed at creation, never mutated.
    pub amount: u64,
    /// The controlling invariant of the design: exactly one lifecycle state.
    pub state: OrderState,
    /// Creation timestamp; immutable.
    pub created_at: i64,
    /// Exporter-proposed deadline; mutable only while negotiating.
    pub proposed_deadline: i64,
    /// Importer-ratified absolute deadline; authoritative for all timeout
    /// checks once `deadline_approved` is true.
    pub approved_deadline: i64,
    /// True only between a successful approval and any later re-proposal.
    pub deadline_approved: bool,
    /// Whether a deadline extension is awaiting the importer's ruling.
    pub extension_requested: bool,
    /// The requested extension deadline, while one is pending.
    pub extension_deadline: i64,
    /// Content hash of the bill of lading; all-zero until goods ship.
    pub bill_of_lading_hash: LadingHash,
    /// Bounded audit trail: the ten most recent transitions.
    pub history: Vec<OrderHistoryEntry>,
    /// Descriptive data; no transition logic depends on it.
    pub metadata: OrderMetadata,
    /// Timestamp of the most recent history append.
    pub last_updated: i64,
}

impl Order {
    /// The audit trail in its mathematical shape.
    pub open spec fn hist(&self) -> Seq<HistoryEntryView> {
        self.history@.map_values(|e: OrderHistoryEntry| e@)
    }

    /// Well-formedness: the audit trail never exceeds its capacity. Creation
    /// establishes it and every operation preserves it.
    pub open spec fn wf(&self) -> bool {
        self.hist().len() <= HISTORY_CAPACITY
    }

    /// Append one audit record, evicting the oldest entry first if the log
    /// is full, and stamp the order as updated at `timestamp`. The
    /// description is clipped to the description limit, counting characters.
    pub fn add_history_entry(&mut self, state: OrderState, description: String, timestamp: i64)
        requires
            old(self).wf(),
        ensures
            final(self).wf(),
            final(self).hist() == appended_hist(old(self).hist(), state, description@, timestamp),
            final(self).last_updated == timestamp,
            final(self).importer == old(self).importer,
            final(self).exporter == old(self).exporter,
            final(self).verifier == old(self).verifier,
            final(self).amount == old(self).amount,
            final(self).state == old(self).state,
            final(self).created_at == old(self).created_at,
            final(self).proposed_deadline == old(self).proposed_deadline,
            final(self).approved_deadline == old(self).approved_deadline,
            final(self).deadline_approved == old(self).deadline_approved,
            final(self).extension_requested == old(self).extension_requested,
            final(self).extension_deadline == old(self).extension_deadline,
            final(self).bill_of_lading_hash == old(self).bill_of_lading_hash,
            final(self).metadata == old(self).metadata,
    {
        let entry = OrderHistoryEntry {
            timestamp,
            state,
            description: clip_chars(description.as_str(), DESCRIPTION_LIMIT),
        };
        if self.history.len() >= HISTORY_CAPACITY {
            self.history.remove(0);
        }
        self.history.push(entry);
        self.last_updated = timestamp;
        proof {
            assert(self.hist() =~= appended_hist(old(self).hist(), state, description@, timestamp));
        }
    }

    /// Replace the descriptive metadata and stamp the order as updated at
    /// `timestamp`. Nothing else changes; in particular the state does not.
    pub fn update_metadata(&mut self, metadata: OrderMetadata, timestamp: i64)
        ensures
            *final(self) == (Order { metadata, last_updated: timestamp, ..*old(self) }),
    {
        self.metadata = metadata;
        self.last_updated = timestamp;
    }
}

} // verus!

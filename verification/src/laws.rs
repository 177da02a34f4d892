//! The library's laws: properties that relate several operations or hold of
//! every input, stated over the same spec functions the operations' own
//! contracts use, and proved once and for all.

use vstd::prelude::*;
use crate::deadline::{deadline_check, deadline_window_ok, MAX_DEADLINE, MIN_DEADLINE};
use crate::errors::EscrowError;
use crate::history::{appended_hist, clipped, HistoryEntryView, DESCRIPTION_LIMIT, HISTORY_CAPACITY};
use crate::ids::AccountId;
use crate::machine::{
    approve_deadline_check, approve_deadline_extension_post, approve_deadline_post,
    check_deadline_and_refund_check, confirm_delivery_check, dispute_order_check,
    extension_ruling_check, propose_new_deadline_check, request_deadline_extension_check,
    request_deadline_extension_post, resolve_dispute_check, ship_goods_check,
    update_order_metadata_check, CustodyAction,
};
use crate::order::Order;
use crate::state::OrderState;

verus! {

/// The audit trail is bounded and keeps exactly the most recent entries, in
/// call order: appending to a log of at most ten entries yields a log of at
/// most ten entries that is precisely the tail of the old log extended by
/// the new entry. Every operation appends through this one function, so the
/// bound and the recency order hold after any sequence of operations.
pub proof fn lemma_history_retains_most_recent(
    h: Seq<HistoryEntryView>,
    state: OrderState,
    desc: Seq<char>,
    t: i64,
)
    requires
        h.len() <= HISTORY_CAPACITY,
    ensures
        ({
            let entry = HistoryEntryView {
                timestamp: t,
                state,
                description: clipped(desc, DESCRIPTION_LIMIT as int),
            };
            let full = h.push(entry);
            let kept = appended_hist(h, state, desc, t);
            &&& kept.len() <= HISTORY_CAPACITY
            &&& kept.len() == if h.len() < HISTORY_CAPACITY {
                h.len() + 1
            } else {
                HISTORY_CAPACITY as nat
            }
            &&& kept =~= full.subrange(full.len() - kept.len(), full.len() as int)
        }),
{
}

/// One append of a whole stream of audit records: each element carries the
/// entered state, the raw description, and the timestamp of one append, in
/// call order.
pub open spec fn appended_hist_all(
    h: Seq<HistoryEntryView>,
    entries: Seq<(OrderState, Seq<char>, i64)>,
) -> Seq<HistoryEntryView>
    decreases entries.len(),
{
    if entries.len() == 0 {
        h
    } else {
        appended_hist_all(
            appended_hist(h, entries[0].0, entries[0].1, entries[0].2),
            entries.drop_first(),
        )
    }
}

/// The audit record a stream element becomes: its description clipped.
pub open spec fn entry_of(e: (OrderState, Seq<char>, i64)) -> HistoryEntryView {
    HistoryEntryView { timestamp: e.2, state: e.0, description: clipped(e.1, DESCRIPTION_LIMIT as int) }
}

/// The bounded log under any sequence of appends: starting from a log
/// within capacity, after appending any stream of records the log holds
/// exactly the most recent records of the whole stream — the tail, in call
/// order, of the old log extended by every appended record.
pub proof fn lemma_history_is_recent_suffix(
    h: Seq<HistoryEntryView>,
    entries: Seq<(OrderState, Seq<char>, i64)>,
)
    requires
        h.len() <= HISTORY_CAPACITY,
    ensures
        ({
            let all = h + entries.map_values(|e: (OrderState, Seq<char>, i64)| entry_of(e));
            let kept = appended_hist_all(h, entries);
            &&& kept.len() <= HISTORY_CAPACITY
            &&& kept.len() == if h.len() + entries.len() < HISTORY_CAPACITY {
                h.len() + entries.len()
            } else {
                HISTORY_CAPACITY as nat
            }
            &&& kept =~= all.subrange(all.len() - kept.len(), all.len() as int)
        }),
    decreases entries.len(),
{
    let all = h + entries.map_values(|e: (OrderState, Seq<char>, i64)| entry_of(e));
    let kept = appended_hist_all(h, entries);
    if entries.len() == 0 {
        assert(kept =~= all.subrange(all.len() - kept.len(), all.len() as int));
    } else {
        let first = entries[0];
        let mid = appended_hist(h, first.0, first.1, first.2);
        lemma_history_retains_most_recent(h, first.0, first.1, first.2);
        lemma_history_is_recent_suffix(mid, entries.drop_first());
        let mid_all = mid + entries.drop_first().map_values(
            |e: (OrderState, Seq<char>, i64)| entry_of(e),
        );
        // The old log extended by the whole stream is the one-step log
        // extended by the rest of the stream, up to the evicted prefix.
        let evicted: int = h.len() + 1 - mid.len();
        assert(mid_all =~= all.subrange(evicted, all.len() as int));
        assert(kept =~= all.subrange(all.len() - kept.len(), all.len() as int));
    }
}

/// Ratifying a deadline is not repeatable: once an approval has succeeded,
/// the order has left `PendingDeadlineApproval`, so a second approval —
/// by any caller, at any time — fails with `InvalidState`.
pub proof fn lemma_approve_deadline_unrepeatable(
    pre: Order,
    mid: Order,
    caller: AccountId,
    t1: i64,
    second_caller: AccountId,
)
    requires
        approve_deadline_check(pre, caller) is Ok,
        approve_deadline_post(pre, mid, t1),
    ensures
        approve_deadline_check(mid, second_caller) == Err::<(), EscrowError>(
            EscrowError::InvalidState,
        ),
{
}

/// A proposed deadline whose window from the creation time is outside the
/// policy bounds is always rejected — too short below the minimum, too long
/// above the maximum — so order creation returns that error, hands back no
/// order, and issues no custody hold.
pub proof fn lemma_out_of_range_deadline_rejected(proposed_deadline: i64, creation_time: i64)
    requires
        !deadline_window_ok(proposed_deadline as int, creation_time as int),
    ensures
        deadline_check(proposed_deadline as int, creation_time as int) is Err,
        proposed_deadline - creation_time < MIN_DEADLINE ==> deadline_check(
            proposed_deadline as int,
            creation_time as int,
        ) == Err::<(), EscrowError>(EscrowError::DeadlineTooShort),
        proposed_deadline - creation_time > MAX_DEADLINE ==> deadline_check(
            proposed_deadline as int,
            creation_time as int,
        ) == Err::<(), EscrowError>(EscrowError::DeadlineTooLong),
{
}

/// The extension round-trip: after a successful extension request, the
/// importer's approval is owed (its guards hold), and it makes the requested
/// deadline binding and resumes the order to `InTransit` exactly when the
/// goods had shipped before the request (non-zero bill-of-lading hash), else
/// to `PendingShipment`.
pub proof fn lemma_extension_round_trip(
    pre: Order,
    mid: Order,
    post: Order,
    exporter: AccountId,
    new_deadline: i64,
    t1: i64,
    t2: i64,
)
    requires
        request_deadline_extension_check(pre, exporter, new_deadline, t1) is Ok,
        request_deadline_extension_post(pre, mid, new_deadline, t1),
        approve_deadline_extension_post(mid, post, t2),
    ensures
        extension_ruling_check(mid, pre.importer) is Ok,
        post.approved_deadline == new_deadline,
        post.state == OrderState::InTransit <==> !pre.bill_of_lading_hash.spec_is_zero(),
        post.state == OrderState::InTransit || post.state == OrderState::PendingShipment,
{
}

/// Once the binding deadline has passed unmet, the refund stays available
/// until taken, and taking it closes the door: a successful refund leaves
/// the order `Refunded`, where any further refund attempt fails with
/// `InvalidState`.
pub proof fn lemma_refund_not_repeatable(o: Order, current_time: i64)
    requires
        o.state == OrderState::Refunded,
    ensures
        check_deadline_and_refund_check(o, current_time) == Err::<CustodyAction, EscrowError>(
            EscrowError::InvalidState,
        ),
{
}

/// Terminal states are permanent: once the escrowed value has left custody
/// (`Completed` or `Refunded`), every state-changing operation is refused —
/// in particular no operation that would move value again can succeed — and
/// the one operation that may still succeed, the metadata update, keeps the
/// state as it is by its own contract.
pub proof fn lemma_terminal_state_is_permanent(
    o: Order,
    caller: AccountId,
    new_deadline: i64,
    t: i64,
)
    requires
        o.state.is_terminal(),
    ensures
        approve_deadline_check(o, caller) is Err,
        propose_new_deadline_check(o, caller, new_deadline, t) is Err,
        ship_goods_check(o, caller, t) is Err,
        confirm_delivery_check(o, caller, t) is Err,
        check_deadline_and_refund_check(o, t) is Err,
        request_deadline_extension_check(o, caller, new_deadline, t) is Err,
        extension_ruling_check(o, caller) is Err,
        dispute_order_check(o, caller) is Err,
        resolve_dispute_check(o, caller) is Err,
{
}

/// Ratifying a deadline is the importer's alone: any other caller fails
/// with `Unauthorized` (and, by the operation's contract, the order is left
/// unchanged).
pub proof fn lemma_unauthorized_approve_deadline(o: Order, caller: AccountId)
    requires
        o.state == OrderState::PendingDeadlineApproval,
        caller != o.importer,
    ensures
        approve_deadline_check(o, caller) == Err::<(), EscrowError>(EscrowError::Unauthorized),
{
}

/// Re-proposing a deadline is the exporter's alone.
pub proof fn lemma_unauthorized_propose_new_deadline(
    o: Order,
    caller: AccountId,
    new_deadline: i64,
    now: i64,
)
    requires
        o.state == OrderState::PendingDeadlineApproval,
        caller != o.exporter,
    ensures
        propose_new_deadline_check(o, caller, new_deadline, now) == Err::<(), EscrowError>(
            EscrowError::Unauthorized,
        ),
{
}

/// Shipping is the exporter's alone.
pub proof fn lemma_unauthorized_ship_goods(o: Order, caller: AccountId, now: i64)
    requires
        o.state == OrderState::PendingShipment,
        caller != o.exporter,
    ensures
        ship_goods_check(o, caller, now) == Err::<(), EscrowError>(EscrowError::Unauthorized),
{
}

/// Confirming delivery is for the verifier or the importer alone.
pub proof fn lemma_unauthorized_confirm_delivery(o: Order, caller: AccountId, now: i64)
    requires
        o.state == OrderState::InTransit,
        caller != o.verifier,
        caller != o.importer,
    ensures
        confirm_delivery_check(o, caller, now) == Err::<CustodyAction, EscrowError>(
            EscrowError::Unauthorized,
        ),
{
}

/// Requesting an extension is the exporter's alone.
pub proof fn lemma_unauthorized_request_deadline_extension(
    o: Order,
    caller: AccountId,
    new_deadline: i64,
    current_time: i64,
)
    requires
        o.state == OrderState::PendingShipment || o.state == OrderState::InTransit,
        caller != o.exporter,
    ensures
        request_deadline_extension_check(o, caller, new_deadline, current_time) == Err::<
            (),
            EscrowError,
        >(EscrowError::Unauthorized),
{
}

/// Ruling on an extension — granting or denying it — is the importer's
/// alone.
pub proof fn lemma_unauthorized_extension_ruling(o: Order, caller: AccountId)
    requires
        o.state == OrderState::PendingExtensionApproval,
        caller != o.importer,
    ensures
        extension_ruling_check(o, caller) == Err::<(), EscrowError>(EscrowError::Unauthorized),
{
}

/// Updating metadata is for the two trading parties alone, whatever the
/// state.
pub proof fn lemma_unauthorized_update_order_metadata(o: Order, caller: AccountId)
    requires
        caller != o.importer,
        caller != o.exporter,
    ensures
        update_order_metadata_check(o, caller) == Err::<(), EscrowError>(
            EscrowError::Unauthorized,
        ),
{
}

/// Raising a dispute is for the two trading parties alone, whatever the
/// state.
pub proof fn lemma_unauthorized_dispute_order(o: Order, caller: AccountId)
    requires
        caller != o.importer,
        caller != o.exporter,
    ensures
        dispute_order_check(o, caller) == Err::<(), EscrowError>(EscrowError::Unauthorized),
{
}

/// Resolving a dispute is the verifier's alone, whatever the state.
pub proof fn lemma_unauthorized_resolve_dispute(o: Order, caller: AccountId)
    requires
        caller != o.verifier,
    ensures
        resolve_dispute_check(o, caller) == Err::<(), EscrowError>(EscrowError::Unauthorized),
{
}

} // verus!

//! The order state machine: one guarded transition per operation. Each
//! operation validates its guards in a fixed sequence, mutates the order,
//! appends exactly one history entry (two on delivery), and — where value
//! must move — returns the custody instruction the caller has to execute.
//!
//! Atomicity contract with the surrounding program: an operation that
//! returns a [`CustodyAction`] has already produced the complete post-state,
//! but the caller must commit that state to the ledger only if the custody
//! transfer succeeds, and discard it otherwise, so that no partial fund
//! movement is ever observable beside an advanced state.

use vstd::prelude::*;
use vstd::string::StringExecFns;
use crate::auth::{
    is_exporter, is_importer, is_importer_or_exporter, is_verifier, is_verifier_or_importer,
    spec_is_exporter, spec_is_importer, spec_is_importer_or_exporter, spec_is_verifier,
    spec_is_verifier_or_importer,
};
use crate::deadline::{deadline_check, fits_i64, validate_deadline};
use crate::errors::EscrowError;
use crate::history::{appended_hist, clip_chars, clipped, HistoryEntryView};
use crate::ids::{AccountId, LadingHash};
use crate::metadata::OrderMetadata;
use crate::order::Order;
use crate::state::OrderState;

verus! {

/// One atomic value transfer the surrounding program must perform, exactly
/// once, for the transition that returned it: its success gates whether the
/// mutated order is committed.
#[derive(Clone, Copy, Debug, PartialEq, Eq, Structural)]
pub enum CustodyAction {
    /// Move `amount` from the payer into the order's custodial holding.
    HoldFrom {
        /// The account debited: the order's importer.
        payer: AccountId,
        /// The escrowed quantity.
        amount: u64,
    },
    /// Move `amount` from holding to the payee.
    ReleaseTo {
        /// The account credited: the order's exporter.
        payee: AccountId,
        /// The escrowed quantity.
        amount: u64,
    },
    /// Move `amount` from holding back to the payer.
    RefundTo {
        /// The account credited: the order's importer.
        payer: AccountId,
        /// The escrowed quantity.
        amount: u64,
    },
}

/// The identities, amount and creation time of an order never change after
/// creation; every transition preserves them.
pub open spec fn same_parties_and_terms(pre: Order, post: Order) -> bool {
    &&& post.importer == pre.importer
    &&& post.exporter == pre.exporter
    &&& post.verifier == pre.verifier
    &&& post.amount == pre.amount
    &&& post.created_at == pre.created_at
}

/// What a freshly created order looks like: every field zeroed or set from
/// the creation arguments, in the initial state, with a single "created"
/// history entry stamped at the creation time.
pub open spec fn created_order(
    o: Order,
    importer: AccountId,
    exporter: AccountId,
    verifier: AccountId,
    amount: u64,
    proposed_deadline: i64,
    creation_time: i64,
    metadata: OrderMetadata,
) -> bool {
    &&& o.importer == importer
    &&& o.exporter == exporter
    &&& o.verifier == verifier
    &&& o.amount == amount
    &&& o.state == OrderState::PendingDeadlineApproval
    &&& o.created_at == creation_time
    &&& o.proposed_deadline == proposed_deadline
    &&& o.approved_deadline == 0
    &&& !o.deadline_approved
    &&& !o.extension_requested
    &&& o.extension_deadline == 0
    &&& o.bill_of_lading_hash.spec_is_zero()
    &&& o.hist() == appended_hist(
        Seq::<HistoryEntryView>::empty(),
        OrderState::PendingDeadlineApproval,
        "Order created - waiting for deadline approval"@,
        creation_time,
    )
    &&& o.metadata == metadata
    &&& o.last_updated == creation_time
}

/// Open an escrowed trade. The caller becomes the importer and names the
/// exporter, the verifier, the amount and a proposed deadline. Accepted iff
/// the window from `creation_time` to `proposed_deadline` is within the
/// deadline bounds; then the order starts in `PendingDeadlineApproval` and
/// the returned action holds the amount from the importer — if that hold
/// fails, the caller must discard the order, so that none persists.
pub fn create_order(
    importer: AccountId,
    exporter: AccountId,
    verifier: AccountId,
    amount: u64,
    proposed_deadline: i64,
    creation_time: i64,
    metadata: OrderMetadata,
) -> (r: Result<(Order, CustodyAction), EscrowError>)
    requires
        fits_i64(proposed_deadline - creation_time),
    ensures
        match r {
            Ok((order, action)) => {
                &&& deadline_check(proposed_deadline as int, creation_time as int) is Ok
                &&& created_order(
                    order,
                    importer,
                    exporter,
                    verifier,
                    amount,
                    proposed_deadline,
                    creation_time,
                    metadata,
                )
                &&& order.wf()
                &&& action == (CustodyAction::HoldFrom { payer: importer, amount })
            },
            Err(e) => deadline_check(proposed_deadline as int, creation_time as int) == Err::<
                (),
                EscrowError,
            >(e),
        },
{
    match validate_deadline(proposed_deadline, creation_time) {
        Ok(()) => {},
        Err(e) => {
            return Err(e);
        },
    }
    let mut order = Order {
        importer,
        exporter,
        verifier,
        amount,
        state: OrderState::PendingDeadlineApproval,
        created_at: creation_time,
        proposed_deadline,
        approved_deadline: 0,
        deadline_approved: false,
        extension_requested: false,
        extension_deadline: 0,
        bill_of_lading_hash: LadingHash::zero(),
        history: Vec::new(),
        metadata,
        last_updated: creation_time,
    };
    proof {
        assert(order.hist() =~= Seq::<HistoryEntryView>::empty());
    }
    order.add_history_entry(
        OrderState::PendingDeadlineApproval,
        "Order created - waiting for deadline approval".to_owned(),
        creation_time,
    );
    Ok((order, CustodyAction::HoldFrom { payer: importer, amount }))
}

/// The guard sequence of deadline approval: the order must still be
/// negotiating, and only the importer may ratify.
pub open spec fn approve_deadline_check(o: Order, caller: AccountId) -> Result<(), EscrowError> {
    if o.state != OrderState::PendingDeadlineApproval {
        Err(EscrowError::InvalidState)
    } else if !spec_is_importer(&o, caller) {
        Err(EscrowError::Unauthorized)
    } else {
        Ok(())
    }
}

/// The effect of a successful deadline approval: the proposed window
/// (proposed deadline minus creation time) is re-anchored to the approval
/// time, the deadline becomes binding, and the order moves to
/// `PendingShipment`.
pub open spec fn approve_deadline_post(pre: Order, post: Order, current_time: i64) -> bool {
    &&& post.approved_deadline == current_time + pre.proposed_deadline - pre.created_at
    &&& post.deadline_approved
    &&& post.state == OrderState::PendingShipment
    &&& post.hist() == appended_hist(
        pre.hist(),
        OrderState::PendingShipment,
        "Deadline approved by importer - ready for shipment"@,
        current_time,
    )
    &&& post.last_updated == current_time
    &&& same_parties_and_terms(pre, post)
    &&& post.proposed_deadline == pre.proposed_deadline
    &&& post.extension_requested == pre.extension_requested
    &&& post.extension_deadline == pre.extension_deadline
    &&& post.bill_of_lading_hash == pre.bill_of_lading_hash
    &&& post.metadata == pre.metadata
}

/// Ratify the proposed deadline. Importer only, only while negotiating. The
/// binding deadline is `current_time` plus the originally proposed window —
/// the duration is carried forward and re-anchored to the approval time, not
/// the original absolute timestamp.
pub fn approve_deadline(order: &mut Order, caller: AccountId, current_time: i64) -> (r: Result<
    (),
    EscrowError,
>)
    requires
        old(order).wf(),
        approve_deadline_check(*old(order), caller) is Ok ==> fits_i64(
            old(order).proposed_deadline - old(order).created_at,
        ) && fits_i64(current_time + old(order).proposed_deadline - old(order).created_at),
    ensures
        final(order).wf(),
        r == approve_deadline_check(*old(order), caller),
        r is Ok ==> approve_deadline_post(*old(order), *final(order), current_time),
        r is Err ==> *final(order) == *old(order),
{
    if order.state != OrderState::PendingDeadlineApproval {
        return Err(EscrowError::InvalidState);
    }
    if !is_importer(order, caller) {
        return Err(EscrowError::Unauthorized);
    }
    let proposed_duration = order.proposed_deadline - order.created_at;
    order.approved_deadline = current_time + proposed_duration;
    order.deadline_approved = true;
    order.state = OrderState::PendingShipment;
    order.add_history_entry(
        OrderState::PendingShipment,
        "Deadline approved by importer - ready for shipment".to_owned(),
        current_time,
    );
    Ok(())
}

/// The guard sequence of shipping: the order must await shipment, only the
/// exporter may ship, the deadline must be binding, and the binding deadline
/// must not have passed.
pub open spec fn ship_goods_check(o: Order, caller: AccountId, now: i64) -> Result<
    (),
    EscrowError,
> {
    if o.state != OrderState::PendingShipment {
        Err(EscrowError::InvalidState)
    } else if !spec_is_exporter(&o, caller) {
        Err(EscrowError::Unauthorized)
    } else if !o.deadline_approved {
        Err(EscrowError::DeadlineNotApproved)
    } else if now > o.approved_deadline {
        Err(EscrowError::DeadlinePassed)
    } else {
        Ok(())
    }
}

/// The effect of a successful shipment: the bill-of-lading hash is recorded
/// and the order moves to `InTransit`.
pub open spec fn ship_goods_post(
    pre: Order,
    post: Order,
    bill_of_lading_hash: LadingHash,
    now: i64,
) -> bool {
    &&& post.bill_of_lading_hash == bill_of_lading_hash
    &&& post.state == OrderState::InTransit
    &&& post.hist() == appended_hist(
        pre.hist(),
        OrderState::InTransit,
        "Goods shipped - order in transit"@,
        now,
    )
    &&& post.last_updated == now
    &&& same_parties_and_terms(pre, post)
    &&& post.proposed_deadline == pre.proposed_deadline
    &&& post.approved_deadline == pre.approved_deadline
    &&& post.deadline_approved == pre.deadline_approved
    &&& post.extension_requested == pre.extension_requested
    &&& post.extension_deadline == pre.extension_deadline
    &&& post.metadata == pre.metadata
}

/// Record shipment of the goods. Exporter only, only in `PendingShipment`,
/// only with a binding deadline that has not passed at `now`.
pub fn ship_goods(
    order: &mut Order,
    caller: AccountId,
    bill_of_lading_hash: LadingHash,
    now: i64,
) -> (r: Result<(), EscrowError>)
    requires
        old(order).wf(),
    ensures
        final(order).wf(),
        r == ship_goods_check(*old(order), caller, now),
        r is Ok ==> ship_goods_post(*old(order), *final(order), bill_of_lading_hash, now),
        r is Err ==> *final(order) == *old(order),
{
    if order.state != OrderState::PendingShipment {
        return Err(EscrowError::InvalidState);
    }
    if !is_exporter(order, caller) {
        return Err(EscrowError::Unauthorized);
    }
    if !order.deadline_approved {
        return Err(EscrowError::DeadlineNotApproved);
    }
    if now > order.approved_deadline {
        return Err(EscrowError::DeadlinePassed);
    }
    order.bill_of_lading_hash = bill_of_lading_hash;
    order.state = OrderState::InTransit;
    order.add_history_entry(OrderState::InTransit, "Goods shipped - order in transit".to_owned(), now);
    Ok(())
}

/// The guard sequence of delivery confirmation: the goods must be in
/// transit, only the verifier or the importer may confirm, and the binding
/// deadline must not have passed. On success, the instruction releasing the
/// escrowed amount to the exporter.
pub open spec fn confirm_delivery_check(o: Order, caller: AccountId, now: i64) -> Result<
    CustodyAction,
    EscrowError,
> {
    if o.state != OrderState::InTransit {
        Err(EscrowError::InvalidState)
    } else if !spec_is_verifier_or_importer(&o, caller) {
        Err(EscrowError::Unauthorized)
    } else if now > o.approved_deadline {
        Err(EscrowError::DeadlinePassed)
    } else {
        Ok(CustodyAction::ReleaseTo { payee: o.exporter, amount: o.amount })
    }
}

/// The effect of a successful delivery confirmation: the order passes
/// through `Delivered` and ends `Completed`, with one history entry for
/// each of the two transitions.
pub open spec fn confirm_delivery_post(pre: Order, post: Order, now: i64) -> bool {
    &&& post.state == OrderState::Completed
    &&& post.hist() == appended_hist(
        appended_hist(
            pre.hist(),
            OrderState::Delivered,
            "Delivery confirmed by verifier/importer"@,
            now,
        ),
        OrderState::Completed,
        "Order completed - funds released to exporter"@,
        now,
    )
    &&& post.last_updated == now
    &&& same_parties_and_terms(pre, post)
    &&& post.proposed_deadline == pre.proposed_deadline
    &&& post.approved_deadline == pre.approved_deadline
    &&& post.deadline_approved == pre.deadline_approved
    &&& post.extension_requested == pre.extension_requested
    &&& post.extension_deadline == pre.extension_deadline
    &&& post.bill_of_lading_hash == pre.bill_of_lading_hash
    &&& post.metadata == pre.metadata
}

/// Confirm that the goods arrived. Verifier or importer only, only in
/// `InTransit`, only while the binding deadline has not passed at `now`.
/// The returned action releases the amount to the exporter; the caller must
/// commit the completed order only if that release succeeds, so that the
/// state never advances past `InTransit` beside an unmoved fund.
pub fn confirm_delivery(order: &mut Order, caller: AccountId, now: i64) -> (r: Result<
    CustodyAction,
    EscrowError,
>)
    requires
        old(order).wf(),
    ensures
        final(order).wf(),
        r == confirm_delivery_check(*old(order), caller, now),
        r is Ok ==> confirm_delivery_post(*old(order), *final(order), now),
        r is Err ==> *final(order) == *old(order),
{
    if order.state != OrderState::InTransit {
        return Err(EscrowError::InvalidState);
    }
    if !is_verifier_or_importer(order, caller) {
        return Err(EscrowError::Unauthorized);
    }
    if now > order.approved_deadline {
        return Err(EscrowError::DeadlinePassed);
    }
    order.state = OrderState::Delivered;
    order.add_history_entry(
        OrderState::Delivered,
        "Delivery confirmed by verifier/importer".to_owned(),
        now,
    );
    let amount = order.amount;
    let payee = order.exporter;
    order.state = OrderState::Completed;
    order.add_history_entry(
        OrderState::Completed,
        "Order completed - funds released to exporter".to_owned(),
        now,
    );
    Ok(CustodyAction::ReleaseTo { payee, amount })
}

/// The guard sequence of the permissionless refund: the value must not have
/// left custody already (the order is in neither terminal state), the
/// deadline must be binding, and the caller-asserted time must lie strictly
/// after it. On success, the instruction refunding the escrowed amount to
/// the importer.
pub open spec fn check_deadline_and_refund_check(o: Order, current_time: i64) -> Result<
    CustodyAction,
    EscrowError,
> {
    if o.state.is_terminal() {
        Err(EscrowError::InvalidState)
    } else if !o.deadline_approved {
        Err(EscrowError::DeadlineNotApproved)
    } else if current_time <= o.approved_deadline {
        Err(EscrowError::TooEarlyForRefund)
    } else {
        Ok(CustodyAction::RefundTo { payer: o.importer, amount: o.amount })
    }
}

/// The effect of a successful refund: the order ends `Refunded`.
pub open spec fn check_deadline_and_refund_post(pre: Order, post: Order, current_time: i64) -> bool {
    &&& post.state == OrderState::Refunded
    &&& post.hist() == appended_hist(
        pre.hist(),
        OrderState::Refunded,
        "Deadline passed - funds refunded to importer"@,
        current_time,
    )
    &&& post.last_updated == current_time
    &&& same_parties_and_terms(pre, post)
    &&& post.proposed_deadline == pre.proposed_deadline
    &&& post.approved_deadline == pre.approved_deadline
    &&& post.deadline_approved == pre.deadline_approved
    &&& post.extension_requested == pre.extension_requested
    &&& post.extension_deadline == pre.extension_deadline
    &&& post.bill_of_lading_hash == pre.bill_of_lading_hash
    &&& post.metadata == pre.metadata
}

/// Refund the importer after the binding deadline passed unmet. This path
/// is permissionless — any caller may trigger it, and `current_time` is that
/// caller's own assertion of the time, trusted no further than this one
/// comparison (a known trust gap of the design, kept as specified). Once the
/// value has left custody (`Completed` or `Refunded`), no further refund can
/// succeed. The returned action refunds the amount to the importer; the
/// caller must commit the refunded order only if that transfer succeeds.
pub fn check_deadline_and_refund(order: &mut Order, current_time: i64) -> (r: Result<
    CustodyAction,
    EscrowError,
>)
    requires
        old(order).wf(),
    ensures
        final(order).wf(),
        r == check_deadline_and_refund_check(*old(order), current_time),
        r is Ok ==> check_deadline_and_refund_post(*old(order), *final(order), current_time),
        r is Err ==> *final(order) == *old(order),
{
    if order.state == OrderState::Completed || order.state == OrderState::Refunded {
        return Err(EscrowError::InvalidState);
    }
    if !order.deadline_approved {
        return Err(EscrowError::DeadlineNotApproved);
    }
    if current_time <= order.approved_deadline {
        return Err(EscrowError::TooEarlyForRefund);
    }
    let payer = order.importer;
    let amount = order.amount;
    order.state = OrderState::Refunded;
    order.add_history_entry(
        OrderState::Refunded,
        "Deadline passed - funds refunded to importer".to_owned(),
        current_time,
    );
    Ok(CustodyAction::RefundTo { payer, amount })
}

/// The guard sequence of a re-proposal: the order must still be
/// negotiating, only the exporter may propose, and the new window from
/// `now` must be within the deadline bounds.
pub open spec fn propose_new_deadline_check(
    o: Order,
    caller: AccountId,
    new_deadline: i64,
    now: i64,
) -> Result<(), EscrowError> {
    if o.state != OrderState::PendingDeadlineApproval {
        Err(EscrowError::InvalidState)
    } else if !spec_is_exporter(&o, caller) {
        Err(EscrowError::Unauthorized)
    } else {
        deadline_check(new_deadline as int, now as int)
    }
}

/// The effect of a successful re-proposal: the proposed deadline is
/// replaced and any earlier ratification is withdrawn; the state stays
/// `PendingDeadlineApproval`.
pub open spec fn propose_new_deadline_post(pre: Order, post: Order, new_deadline: i64, now: i64) -> bool {
    &&& post.proposed_deadline == new_deadline
    &&& !post.deadline_approved
    &&& post.approved_deadline == 0
    &&& post.state == pre.state
    &&& post.hist() == appended_hist(
        pre.hist(),
        OrderState::PendingDeadlineApproval,
        "New deadline proposed by exporter - waiting for approval"@,
        now,
    )
    &&& post.last_updated == now
    &&& same_parties_and_terms(pre, post)
    &&& post.extension_requested == pre.extension_requested
    &&& post.extension_deadline == pre.extension_deadline
    &&& post.bill_of_lading_hash == pre.bill_of_lading_hash
    &&& post.metadata == pre.metadata
}

/// Replace the proposed deadline with a new candidate. Exporter only, only
/// while negotiating; the new window from `now` must be within bounds. Any
/// earlier ratification is withdrawn.
pub fn propose_new_deadline(order: &mut Order, caller: AccountId, new_deadline: i64, now: i64) -> (r:
    Result<(), EscrowError>)
    requires
        old(order).wf(),
        old(order).state == OrderState::PendingDeadlineApproval && spec_is_exporter(
            old(order),
            caller,
        ) ==> fits_i64(new_deadline - now),
    ensures
        final(order).wf(),
        r == propose_new_deadline_check(*old(order), caller, new_deadline, now),
        r is Ok ==> propose_new_deadline_post(*old(order), *final(order), new_deadline, now),
        r is Err ==> *final(order) == *old(order),
{
    if order.state != OrderState::PendingDeadlineApproval {
        return Err(EscrowError::InvalidState);
    }
    if !is_exporter(order, caller) {
        return Err(EscrowError::Unauthorized);
    }
    match validate_deadline(new_deadline, now) {
        Ok(()) => {},
        Err(e) => {
            return Err(e);
        },
    }
    order.proposed_deadline = new_deadline;
    order.deadline_approved = false;
    order.approved_deadline = 0;
    order.add_history_entry(
        OrderState::PendingDeadlineApproval,
        "New deadline proposed by exporter - waiting for approval".to_owned(),
        now,
    );
    Ok(())
}

/// The state an order resumes to when an extension round concludes: back to
/// `InTransit` if the goods already shipped (the bill-of-lading hash is
/// non-zero, read here as a state signal), else back to `PendingShipment`.
pub open spec fn extension_resume_state(o: Order) -> OrderState {
    if !o.bill_of_lading_hash.spec_is_zero() {
        OrderState::InTransit
    } else {
        OrderState::PendingShipment
    }
}

/// The guard sequence of an extension request: the order must be awaiting
/// shipment or in transit, only the exporter may ask, the deadline must be
/// binding, no request may already be pending, the binding deadline must not
/// have passed at `current_time`, and the candidate must be within the
/// deadline bounds from `current_time` and strictly later than the binding
/// deadline (one that is not extends nothing: it is too short).
pub open spec fn request_deadline_extension_check(
    o: Order,
    caller: AccountId,
    new_deadline: i64,
    current_time: i64,
) -> Result<(), EscrowError> {
    if o.state != OrderState::PendingShipment && o.state != OrderState::InTransit {
        Err(EscrowError::InvalidState)
    } else if !spec_is_exporter(&o, caller) {
        Err(EscrowError::Unauthorized)
    } else if !o.deadline_approved {
        Err(EscrowError::DeadlineNotApproved)
    } else if o.extension_requested {
        Err(EscrowError::ExtensionAlreadyRequested)
    } else if current_time > o.approved_deadline {
        Err(EscrowError::DeadlinePassed)
    } else if deadline_check(new_deadline as int, current_time as int) is Err {
        deadline_check(new_deadline as int, current_time as int)
    } else if new_deadline <= o.approved_deadline {
        Err(EscrowError::DeadlineTooShort)
    } else {
        Ok(())
    }
}

/// The effect of a successful extension request: the candidate is parked in
/// the extension fields and the order waits in `PendingExtensionApproval`;
/// the binding deadline itself is untouched until the importer rules.
pub open spec fn request_deadline_extension_post(
    pre: Order,
    post: Order,
    new_deadline: i64,
    current_time: i64,
) -> bool {
    &&& post.extension_requested
    &&& post.extension_deadline == new_deadline
    &&& post.state == OrderState::PendingExtensionApproval
    &&& post.hist() == appended_hist(
        pre.hist(),
        OrderState::PendingExtensionApproval,
        "Deadline extension requested by exporter - waiting for approval"@,
        current_time,
    )
    &&& post.last_updated == current_time
    &&& same_parties_and_terms(pre, post)
    &&& post.proposed_deadline == pre.proposed_deadline
    &&& post.approved_deadline == pre.approved_deadline
    &&& post.deadline_approved == pre.deadline_approved
    &&& post.bill_of_lading_hash == pre.bill_of_lading_hash
    &&& post.metadata == pre.metadata
}

/// Ask to push the binding deadline later. Exporter only, in
/// `PendingShipment` or `InTransit`, with a binding unexpired deadline, no
/// request already pending, and a candidate within bounds and strictly
/// beyond the binding deadline.
pub fn request_deadline_extension(
    order: &mut Order,
    caller: AccountId,
    new_deadline: i64,
    current_time: i64,
) -> (r: Result<(), EscrowError>)
    requires
        old(order).wf(),
        (old(order).state == OrderState::PendingShipment || old(order).state
            == OrderState::InTransit) && spec_is_exporter(old(order), caller) && old(
            order,
        ).deadline_approved && !old(order).extension_requested && current_time <= old(
            order,
        ).approved_deadline ==> fits_i64(new_deadline - current_time),
    ensures
        final(order).wf(),
        r == request_deadline_extension_check(*old(order), caller, new_deadline, current_time),
        r is Ok ==> request_deadline_extension_post(
            *old(order),
            *final(order),
            new_deadline,
            current_time,
        ),
        r is Err ==> *final(order) == *old(order),
{
    if order.state != OrderState::PendingShipment && order.state != OrderState::InTransit {
        return Err(EscrowError::InvalidState);
    }
    if !is_exporter(order, caller) {
        return Err(EscrowError::Unauthorized);
    }
    if !order.deadline_approved {
        return Err(EscrowError::DeadlineNotApproved);
    }
    if order.extension_requested {
        return Err(EscrowError::ExtensionAlreadyRequested);
    }
    if current_time > order.approved_deadline {
        return Err(EscrowError::DeadlinePassed);
    }
    match validate_deadline(new_deadline, current_time) {
        Ok(()) => {},
        Err(e) => {
            return Err(e);
        },
    }
    if new_deadline <= order.approved_deadline {
        return Err(EscrowError::DeadlineTooShort);
    }
    order.extension_requested = true;
    order.extension_deadline = new_deadline;
    order.state = OrderState::PendingExtensionApproval;
    order.add_history_entry(
        OrderState::PendingExtensionApproval,
        "Deadline extension requested by exporter - waiting for approval".to_owned(),
        current_time,
    );
    Ok(())
}

/// The guard sequence of ruling on an extension: the order must be waiting
/// for the ruling, only the importer may rule, and a request must actually
/// be pending. Shared by approval and rejection.
pub open spec fn extension_ruling_check(o: Order, caller: AccountId) -> Result<(), EscrowError> {
    if o.state != OrderState::PendingExtensionApproval {
        Err(EscrowError::InvalidState)
    } else if !spec_is_importer(&o, caller) {
        Err(EscrowError::Unauthorized)
    } else if !o.extension_requested {
        Err(EscrowError::ExtensionRequestNotFound)
    } else {
        Ok(())
    }
}

/// The effect of an approved extension: the requested deadline becomes the
/// binding one, the extension fields reset to neutral, and the order resumes
/// to where the request interrupted it.
pub open spec fn approve_deadline_extension_post(pre: Order, post: Order, current_time: i64) -> bool {
    &&& post.approved_deadline == pre.extension_deadline
    &&& !post.extension_requested
    &&& post.extension_deadline == 0
    &&& post.state == extension_resume_state(pre)
    &&& post.hist() == appended_hist(
        pre.hist(),
        extension_resume_state(pre),
        "Deadline extension approved by importer"@,
        current_time,
    )
    &&& post.last_updated == current_time
    &&& same_parties_and_terms(pre, post)
    &&& post.proposed_deadline == pre.proposed_deadline
    &&& post.deadline_approved == pre.deadline_approved
    &&& post.bill_of_lading_hash == pre.bill_of_lading_hash
    &&& post.metadata == pre.metadata
}

/// Grant a pending extension. Importer only, only in
/// `PendingExtensionApproval` with a request pending. The requested deadline
/// becomes binding and the order resumes to `InTransit` if the goods already
/// shipped, else to `PendingShipment`.
pub fn approve_deadline_extension(order: &mut Order, caller: AccountId, current_time: i64) -> (r:
    Result<(), EscrowError>)
    requires
        old(order).wf(),
    ensures
        final(order).wf(),
        r == extension_ruling_check(*old(order), caller),
        r is Ok ==> approve_deadline_extension_post(*old(order), *final(order), current_time),
        r is Err ==> *final(order) == *old(order),
{
    if order.state != OrderState::PendingExtensionApproval {
        return Err(EscrowError::InvalidState);
    }
    if !is_importer(order, caller) {
        return Err(EscrowError::Unauthorized);
    }
    if !order.extension_requested {
        return Err(EscrowError::ExtensionRequestNotFound);
    }
    order.approved_deadline = order.extension_deadline;
    order.extension_requested = false;
    order.extension_deadline = 0;
    let new_state = if !order.bill_of_lading_hash.is_zero() {
        OrderState::InTransit
    } else {
        OrderState::PendingShipment
    };
    order.state = new_state;
    order.add_history_entry(new_state, "Deadline extension approved by importer".to_owned(), current_time);
    Ok(())
}

/// The effect of a rejected extension: the request is discarded, the binding
/// deadline stays as it was, and the order resumes to where the request
/// interrupted it.
pub open spec fn reject_deadline_extension_post(pre: Order, post: Order, now: i64) -> bool {
    &&& !post.extension_requested
    &&& post.extension_deadline == 0
    &&& post.approved_deadline == pre.approved_deadline
    &&& post.state == extension_resume_state(pre)
    &&& post.hist() == appended_hist(
        pre.hist(),
        extension_resume_state(pre),
        "Deadline extension rejected by importer"@,
        now,
    )
    &&& post.last_updated == now
    &&& same_parties_and_terms(pre, post)
    &&& post.proposed_deadline == pre.proposed_deadline
    &&& post.deadline_approved == pre.deadline_approved
    &&& post.bill_of_lading_hash == pre.bill_of_lading_hash
    &&& post.metadata == pre.metadata
}

/// Deny a pending extension. Importer only, symmetric to approval, but the
/// request is discarded without touching the binding deadline.
pub fn reject_deadline_extension(order: &mut Order, caller: AccountId, now: i64) -> (r: Result<
    (),
    EscrowError,
>)
    requires
        old(order).wf(),
    ensures
        final(order).wf(),
        r == extension_ruling_check(*old(order), caller),
        r is Ok ==> reject_deadline_extension_post(*old(order), *final(order), now),
        r is Err ==> *final(order) == *old(order),
{
    if order.state != OrderState::PendingExtensionApproval {
        return Err(EscrowError::InvalidState);
    }
    if !is_importer(order, caller) {
        return Err(EscrowError::Unauthorized);
    }
    if !order.extension_requested {
        return Err(EscrowError::ExtensionRequestNotFound);
    }
    order.extension_requested = false;
    order.extension_deadline = 0;
    let new_state = if !order.bill_of_lading_hash.is_zero() {
        OrderState::InTransit
    } else {
        OrderState::PendingShipment
    };
    order.state = new_state;
    order.add_history_entry(new_state, "Deadline extension rejected by importer".to_owned(), now);
    Ok(())
}

/// The guard of a metadata update: either trading party, in any state.
pub open spec fn update_order_metadata_check(o: Order, caller: AccountId) -> Result<
    (),
    EscrowError,
> {
    if !spec_is_importer_or_exporter(&o, caller) {
        Err(EscrowError::Unauthorized)
    } else {
        Ok(())
    }
}

/// The effect of a metadata update: the descriptive fields are replaced and
/// one history entry carrying the unchanged state is appended; nothing else
/// changes — this is the one operation besides the bulk placeholder that
/// leaves the state as it is.
pub open spec fn update_order_metadata_post(
    pre: Order,
    post: Order,
    metadata: OrderMetadata,
    current_time: i64,
) -> bool {
    &&& post.metadata == metadata
    &&& post.state == pre.state
    &&& post.hist() == appended_hist(pre.hist(), pre.state, "Order metadata updated"@, current_time)
    &&& post.last_updated == current_time
    &&& same_parties_and_terms(pre, post)
    &&& post.proposed_deadline == pre.proposed_deadline
    &&& post.approved_deadline == pre.approved_deadline
    &&& post.deadline_approved == pre.deadline_approved
    &&& post.extension_requested == pre.extension_requested
    &&& post.extension_deadline == pre.extension_deadline
    &&& post.bill_of_lading_hash == pre.bill_of_lading_hash
}

/// Replace the order's descriptive metadata. Importer or exporter only, in
/// any state; the state does not change.
pub fn update_order_metadata(
    order: &mut Order,
    caller: AccountId,
    metadata: OrderMetadata,
    current_time: i64,
) -> (r: Result<(), EscrowError>)
    requires
        old(order).wf(),
    ensures
        final(order).wf(),
        r == update_order_metadata_check(*old(order), caller),
        r is Ok ==> update_order_metadata_post(*old(order), *final(order), metadata, current_time),
        r is Err ==> *final(order) == *old(order),
{
    if !is_importer_or_exporter(order, caller) {
        return Err(EscrowError::Unauthorized);
    }
    let current_state = order.state;
    order.update_metadata(metadata, current_time);
    order.add_history_entry(current_state, "Order metadata updated".to_owned(), current_time);
    Ok(())
}

/// Bulk deadline sweep, a deliberate placeholder: checking and refunding a
/// single order is [`check_deadline_and_refund`]; this entry point exists
/// for callers that iterate over many orders and does nothing to the one it
/// is handed.
pub fn bulk_check_deadlines(_order: &Order, _current_time: i64) -> (r: Result<(), EscrowError>)
    ensures
        r is Ok,
{
    Ok(())
}

/// Reasons and resolutions are clipped to this many characters before being
/// framed into a history description.
pub const DETAIL_LIMIT: usize = 80;

/// The history description recording a dispute: a fixed frame around the
/// caller's reason, clipped.
pub open spec fn dispute_desc(reason: Seq<char>) -> Seq<char> {
    "Order disputed: "@ + clipped(reason, DETAIL_LIMIT as int)
}

/// The guard sequence of a dispute: either trading party may raise one, in
/// any state where the value has not yet left custody.
pub open spec fn dispute_order_check(o: Order, caller: AccountId) -> Result<(), EscrowError> {
    if !spec_is_importer_or_exporter(&o, caller) {
        Err(EscrowError::Unauthorized)
    } else if o.state.is_terminal() {
        Err(EscrowError::InvalidState)
    } else {
        Ok(())
    }
}

/// The effect of a dispute: the order moves to `Disputed`; the state it
/// interrupted is not retained.
pub open spec fn dispute_order_post(pre: Order, post: Order, reason: Seq<char>, current_time: i64) -> bool {
    &&& post.state == OrderState::Disputed
    &&& post.hist() == appended_hist(
        pre.hist(),
        OrderState::Disputed,
        dispute_desc(reason),
        current_time,
    )
    &&& post.last_updated == current_time
    &&& same_parties_and_terms(pre, post)
    &&& post.proposed_deadline == pre.proposed_deadline
    &&& post.approved_deadline == pre.approved_deadline
    &&& post.deadline_approved == pre.deadline_approved
    &&& post.extension_requested == pre.extension_requested
    &&& post.extension_deadline == pre.extension_deadline
    &&& post.bill_of_lading_hash == pre.bill_of_lading_hash
    &&& post.metadata == pre.metadata
}

/// Raise a dispute. Importer or exporter only, in any state except the two
/// terminal ones. The order moves to `Disputed` and the reason, clipped, is
/// recorded in the history.
pub fn dispute_order(order: &mut Order, caller: AccountId, reason: String, current_time: i64) -> (r:
    Result<(), EscrowError>)
    requires
        old(order).wf(),
    ensures
        final(order).wf(),
        r == dispute_order_check(*old(order), caller),
        r is Ok ==> dispute_order_post(*old(order), *final(order), reason@, current_time),
        r is Err ==> *final(order) == *old(order),
{
    if !is_importer_or_exporter(order, caller) {
        return Err(EscrowError::Unauthorized);
    }
    if order.state == OrderState::Completed || order.state == OrderState::Refunded {
        return Err(EscrowError::InvalidState);
    }
    let mut description = "Order disputed: ".to_owned();
    description.append(clip_chars(reason.as_str(), DETAIL_LIMIT).as_str());
    order.state = OrderState::Disputed;
    order.add_history_entry(OrderState::Disputed, description, current_time);
    Ok(())
}

/// The history description recording a resolution: a fixed frame around the
/// verifier's resolution text, clipped.
pub open spec fn resolution_desc(resolution: Seq<char>) -> Seq<char> {
    "Dispute resolved: "@ + clipped(resolution, DETAIL_LIMIT as int)
}

/// The guard sequence of a resolution: only the verifier, only while the
/// order is disputed.
pub open spec fn resolve_dispute_check(o: Order, caller: AccountId) -> Result<(), EscrowError> {
    if !spec_is_verifier(&o, caller) {
        Err(EscrowError::Unauthorized)
    } else if o.state != OrderState::Disputed {
        Err(EscrowError::InvalidState)
    } else {
        Ok(())
    }
}

/// The effect of a resolution: the order ends `Completed` unconditionally —
/// the single-arbiter, one-outcome policy is deliberately minimal, and this
/// operation moves no funds itself.
pub open spec fn resolve_dispute_post(pre: Order, post: Order, resolution: Seq<char>, current_time: i64) -> bool {
    &&& post.state == OrderState::Completed
    &&& post.hist() == appended_hist(
        pre.hist(),
        OrderState::Completed,
        resolution_desc(resolution),
        current_time,
    )
    &&& post.last_updated == current_time
    &&& same_parties_and_terms(pre, post)
    &&& post.proposed_deadline == pre.proposed_deadline
    &&& post.approved_deadline == pre.approved_deadline
    &&& post.deadline_approved == pre.deadline_approved
    &&& post.extension_requested == pre.extension_requested
    &&& post.extension_deadline == pre.extension_deadline
    &&& post.bill_of_lading_hash == pre.bill_of_lading_hash
    &&& post.metadata == pre.metadata
}

/// Resolve a dispute. Verifier only, only in `Disputed`; the order ends
/// `Completed` and the resolution text, clipped, is recorded in the history.
pub fn resolve_dispute(
    order: &mut Order,
    caller: AccountId,
    resolution: String,
    current_time: i64,
) -> (r: Result<(), EscrowError>)
    requires
        old(order).wf(),
    ensures
        final(order).wf(),
        r == resolve_dispute_check(*old(order), caller),
        r is Ok ==> resolve_dispute_post(*old(order), *final(order), resolution@, current_time),
        r is Err ==> *final(order) == *old(order),
{
    if !is_verifier(order, caller) {
        return Err(EscrowError::Unauthorized);
    }
    if order.state != OrderState::Disputed {
        return Err(EscrowError::InvalidState);
    }
    let mut description = "Dispute resolved: ".to_owned();
    description.append(clip_chars(resolution.as_str(), DETAIL_LIMIT).as_str());
    order.state = OrderState::Completed;
    order.add_history_entry(OrderState::Completed, description, current_time);
    Ok(())
}

} // verus!

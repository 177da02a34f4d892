//! End-to-end walks of an order through the state machine.

use escrow::{
    approve_deadline, check_deadline_and_refund, confirm_delivery, create_order, ship_goods,
    AccountId, CustodyAction, LadingHash, Order, OrderMetadata, OrderState,
};

fn acct(n: u128) -> AccountId {
    AccountId { hi: n, lo: n }
}

fn meta() -> OrderMetadata {
    OrderMetadata {
        title: "Steel coils".to_string(),
        description: "40 tons of cold-rolled steel".to_string(),
        tags: vec!["steel".to_string(), "bulk".to_string()],
        category: "metals".to_string(),
    }
}

/// A thousand units escrowed at time zero against a deadline one hour out,
/// then ratified at time one hundred.
fn scenario_a() -> (Order, AccountId, AccountId, AccountId) {
    let importer = acct(1);
    let exporter = acct(2);
    let verifier = acct(3);
    let (mut order, hold) =
        create_order(importer, exporter, verifier, 1000, 3600, 0, meta()).unwrap();
    assert_eq!(order.state, OrderState::PendingDeadlineApproval);
    assert_eq!(
        hold,
        CustodyAction::HoldFrom { payer: importer, amount: 1000 }
    );
    approve_deadline(&mut order, importer, 100).unwrap();
    (order, importer, exporter, verifier)
}

#[test]
fn creation_and_approval_reanchor_the_window() {
    let (order, importer, exporter, verifier) = scenario_a();
    assert_eq!(order.state, OrderState::PendingShipment);
    assert_eq!(order.approved_deadline, 100 + (3600 - 0));
    assert!(order.deadline_approved);
    assert_eq!(order.importer, importer);
    assert_eq!(order.exporter, exporter);
    assert_eq!(order.verifier, verifier);
    assert_eq!(order.amount, 1000);
    assert_eq!(order.created_at, 0);
    assert_eq!(order.proposed_deadline, 3600);
    assert!(order.bill_of_lading_hash.is_zero());
    assert_eq!(order.history.len(), 2);
    assert_eq!(
        order.history[0].description,
        "Order created - waiting for deadline approval"
    );
    assert_eq!(
        order.history[1].description,
        "Deadline approved by importer - ready for shipment"
    );
    assert_eq!(order.last_updated, 100);
}

#[test]
fn shipping_after_the_deadline_fails() {
    let (mut order, _, exporter, _) = scenario_a();
    let before = order.clone();
    let r = ship_goods(&mut order, exporter, LadingHash { hi: 7, lo: 7 }, 3800);
    assert_eq!(r, Err(escrow::EscrowError::DeadlinePassed));
    assert_eq!(order.state, OrderState::PendingShipment);
    assert_eq!(order.history.len(), before.history.len());
    assert_eq!(order.last_updated, before.last_updated);
}

#[test]
fn shipping_and_delivery_release_the_funds() {
    let (mut order, _, exporter, verifier) = scenario_a();
    ship_goods(&mut order, exporter, LadingHash { hi: 7, lo: 7 }, 200).unwrap();
    assert_eq!(order.state, OrderState::InTransit);
    assert_eq!(order.bill_of_lading_hash, LadingHash { hi: 7, lo: 7 });
    let release = confirm_delivery(&mut order, verifier, 300).unwrap();
    assert_eq!(
        release,
        CustodyAction::ReleaseTo { payee: exporter, amount: 1000 }
    );
    assert_eq!(order.state, OrderState::Completed);
    let n = order.history.len();
    assert_eq!(
        order.history[n - 2].description,
        "Delivery confirmed by verifier/importer"
    );
    assert_eq!(order.history[n - 2].state, OrderState::Delivered);
    assert_eq!(
        order.history[n - 1].description,
        "Order completed - funds released to exporter"
    );
    assert_eq!(order.history[n - 1].state, OrderState::Completed);
}

#[test]
fn refund_after_the_deadline_and_only_once() {
    let (mut order, importer, _, _) = scenario_a();
    assert_eq!(order.state, OrderState::PendingShipment);
    assert_eq!(order.approved_deadline, 3700);
    let refund = check_deadline_and_refund(&mut order, 3701).unwrap();
    assert_eq!(
        refund,
        CustodyAction::RefundTo { payer: importer, amount: 1000 }
    );
    assert_eq!(order.state, OrderState::Refunded);
    let again = check_deadline_and_refund(&mut order, 4000);
    assert_eq!(again, Err(escrow::EscrowError::InvalidState));
    assert_eq!(order.state, OrderState::Refunded);
}

#[test]
fn refund_at_the_deadline_is_too_early() {
    let (mut order, _, _, _) = scenario_a();
    let r = check_deadline_and_refund(&mut order, 3700);
    assert_eq!(r, Err(escrow::EscrowError::TooEarlyForRefund));
    assert_eq!(order.state, OrderState::PendingShipment);
}

#[test]
fn refund_needs_a_ratified_deadline() {
    let importer = acct(1);
    let (mut order, _) = create_order(importer, acct(2), acct(3), 500, 3600, 0, meta()).unwrap();
    let r = check_deadline_and_refund(&mut order, 10_000);
    assert_eq!(r, Err(escrow::EscrowError::DeadlineNotApproved));
}

#[test]
fn refund_fails_on_a_completed_order() {
    let (mut order, _, exporter, verifier) = scenario_a();
    ship_goods(&mut order, exporter, LadingHash { hi: 7, lo: 7 }, 200).unwrap();
    confirm_delivery(&mut order, verifier, 300).unwrap();
    let r = check_deadline_and_refund(&mut order, 10_000);
    assert_eq!(r, Err(escrow::EscrowError::InvalidState));
}

#[test]
fn approving_twice_fails_the_second_time() {
    let (mut order, importer, _, _) = scenario_a();
    let r = approve_deadline(&mut order, importer, 200);
    assert_eq!(r, Err(escrow::EscrowError::InvalidState));
    assert_eq!(order.approved_deadline, 3700);
    assert_eq!(order.state, OrderState::PendingShipment);
}

#[test]
fn delivery_confirmation_by_importer_also_counts() {
    let (mut order, importer, exporter, _) = scenario_a();
    ship_goods(&mut order, exporter, LadingHash { hi: 7, lo: 7 }, 200).unwrap();
    let release = confirm_delivery(&mut order, importer, 400).unwrap();
    assert_eq!(
        release,
        CustodyAction::ReleaseTo { payee: exporter, amount: 1000 }
    );
    assert_eq!(order.state, OrderState::Completed);
}

#[test]
fn delivery_after_the_deadline_fails() {
    let (mut order, _, exporter, verifier) = scenario_a();
    ship_goods(&mut order, exporter, LadingHash { hi: 7, lo: 7 }, 200).unwrap();
    let r = confirm_delivery(&mut order, verifier, 3701);
    assert_eq!(r, Err(escrow::EscrowError::DeadlinePassed));
    assert_eq!(order.state, OrderState::InTransit);
}

#[test]
fn shipping_without_ratified_deadline_fails() {
    let (mut order, _, exporter, _) = scenario_a();
    // Not reachable through the operations alone: forge the flag off.
    order.deadline_approved = false;
    let r = ship_goods(&mut order, exporter, LadingHash { hi: 7, lo: 7 }, 200);
    assert_eq!(r, Err(escrow::EscrowError::DeadlineNotApproved));
}

#[test]
fn approval_carries_the_window_forward_not_the_timestamp() {
    let importer = acct(1);
    let (mut order, _) =
        create_order(importer, acct(2), acct(3), 10, 4600, 1000, meta()).unwrap();
    approve_deadline(&mut order, importer, 2000).unwrap();
    // The binding deadline is the approval time plus the proposed window
    // (4600 - 1000), not the proposed absolute timestamp.
    assert_eq!(order.approved_deadline, 2000 + 3600);
}

#[test]
fn a_full_lifecycle_retains_the_most_recent_history() {
    let (mut order, importer, exporter, verifier) = scenario_a();
    // Two entries so far (created, approved). Burn through metadata updates
    // to overflow the ten-entry capacity, then finish the trade.
    for i in 0..7i64 {
        escrow::update_order_metadata(&mut order, importer, meta(), 200 + i).unwrap();
    }
    ship_goods(&mut order, exporter, LadingHash { hi: 7, lo: 7 }, 300).unwrap();
    let _ = confirm_delivery(&mut order, verifier, 400).unwrap();
    // 2 + 7 + 1 + 2 = 12 appends: the first two were evicted.
    assert_eq!(order.history.len(), 10);
    assert_eq!(order.history[0].description, "Order metadata updated");
    for i in 0..7i64 {
        assert_eq!(order.history[i as usize].timestamp, 200 + i);
    }
    assert_eq!(order.history[7].description, "Goods shipped - order in transit");
    assert_eq!(
        order.history[8].description,
        "Delivery confirmed by verifier/importer"
    );
    assert_eq!(
        order.history[9].description,
        "Order completed - funds released to exporter"
    );
}

#[test]
fn bulk_check_is_a_placeholder() {
    let (order, _, _, _) = scenario_a();
    assert_eq!(escrow::bulk_check_deadlines(&order, 5000), Ok(()));
    assert_eq!(order.state, OrderState::PendingShipment);
}

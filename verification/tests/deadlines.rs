//! Boundary and error behaviour of the deadline policy: creation,
//! re-proposal, and the extension sub-protocol.

use escrow::{
    approve_deadline, approve_deadline_extension, create_order, propose_new_deadline,
    reject_deadline_extension, request_deadline_extension, ship_goods, AccountId, EscrowError,
    LadingHash, Order, OrderMetadata, OrderState,
};

const MAX_WINDOW: i64 = 8 * 30 * 24 * 60 * 60;

fn acct(n: u128) -> AccountId {
    AccountId { hi: 0, lo: n }
}

fn meta() -> OrderMetadata {
    OrderMetadata {
        title: String::new(),
        description: String::new(),
        tags: Vec::new(),
        category: String::new(),
    }
}

fn approved_order() -> (Order, AccountId, AccountId) {
    let importer = acct(1);
    let exporter = acct(2);
    let (mut order, _) = create_order(importer, exporter, acct(3), 1000, 3600, 0, meta()).unwrap();
    approve_deadline(&mut order, importer, 100).unwrap();
    (order, importer, exporter)
}

#[test]
fn creation_window_one_second_short_is_rejected() {
    let r = create_order(acct(1), acct(2), acct(3), 10, 1059, 1000, meta());
    assert!(matches!(r, Err(EscrowError::DeadlineTooShort)));
}

#[test]
fn creation_window_at_the_minimum_is_accepted() {
    let (order, _) = create_order(acct(1), acct(2), acct(3), 10, 1060, 1000, meta()).unwrap();
    assert_eq!(order.state, OrderState::PendingDeadlineApproval);
}

#[test]
fn creation_window_at_the_maximum_is_accepted() {
    let (order, _) =
        create_order(acct(1), acct(2), acct(3), 10, 1000 + MAX_WINDOW, 1000, meta()).unwrap();
    assert_eq!(order.proposed_deadline, 1000 + MAX_WINDOW);
}

#[test]
fn creation_window_one_second_long_is_rejected() {
    let r = create_order(acct(1), acct(2), acct(3), 10, 1001 + MAX_WINDOW, 1000, meta());
    assert!(matches!(r, Err(EscrowError::DeadlineTooLong)));
}

#[test]
fn creation_window_in_the_past_is_rejected() {
    let r = create_order(acct(1), acct(2), acct(3), 10, 500, 1000, meta());
    assert!(matches!(r, Err(EscrowError::DeadlineTooShort)));
}

#[test]
fn reproposal_replaces_the_deadline_and_withdraws_approval() {
    let exporter = acct(2);
    let (mut order, _) = create_order(acct(1), exporter, acct(3), 10, 3600, 0, meta()).unwrap();
    let r = propose_new_deadline(&mut order, exporter, 9000, 50);
    assert_eq!(r, Ok(()));
    assert_eq!(order.proposed_deadline, 9000);
    assert!(!order.deadline_approved);
    assert_eq!(order.approved_deadline, 0);
    assert_eq!(order.state, OrderState::PendingDeadlineApproval);
    assert_eq!(
        order.history.last().unwrap().description,
        "New deadline proposed by exporter - waiting for approval"
    );
}

#[test]
fn reproposal_out_of_range_is_rejected() {
    let exporter = acct(2);
    let (mut order, _) = create_order(acct(1), exporter, acct(3), 10, 3600, 0, meta()).unwrap();
    let r = propose_new_deadline(&mut order, exporter, 109, 50);
    assert_eq!(r, Err(EscrowError::DeadlineTooShort));
    let r = propose_new_deadline(&mut order, exporter, 51 + MAX_WINDOW, 50);
    assert_eq!(r, Err(EscrowError::DeadlineTooLong));
    assert_eq!(order.proposed_deadline, 3600);
}

#[test]
fn reproposal_after_approval_fails() {
    let (mut order, _, exporter) = approved_order();
    let r = propose_new_deadline(&mut order, exporter, 9000, 200);
    assert_eq!(r, Err(EscrowError::InvalidState));
}

#[test]
fn extension_round_trip_before_shipping_resumes_to_pending_shipment() {
    let (mut order, importer, exporter) = approved_order();
    request_deadline_extension(&mut order, exporter, 4000, 200).unwrap();
    assert_eq!(order.state, OrderState::PendingExtensionApproval);
    assert!(order.extension_requested);
    assert_eq!(order.extension_deadline, 4000);
    assert_eq!(order.approved_deadline, 3700);
    approve_deadline_extension(&mut order, importer, 250).unwrap();
    assert_eq!(order.approved_deadline, 4000);
    assert!(!order.extension_requested);
    assert_eq!(order.extension_deadline, 0);
    assert_eq!(order.state, OrderState::PendingShipment);
}

#[test]
fn extension_round_trip_after_shipping_resumes_to_in_transit() {
    let (mut order, importer, exporter) = approved_order();
    ship_goods(&mut order, exporter, LadingHash { hi: 5, lo: 5 }, 150).unwrap();
    request_deadline_extension(&mut order, exporter, 4000, 200).unwrap();
    approve_deadline_extension(&mut order, importer, 250).unwrap();
    assert_eq!(order.approved_deadline, 4000);
    assert_eq!(order.state, OrderState::InTransit);
}

#[test]
fn rejected_extension_keeps_the_deadline() {
    let (mut order, importer, exporter) = approved_order();
    request_deadline_extension(&mut order, exporter, 4000, 200).unwrap();
    reject_deadline_extension(&mut order, importer, 260).unwrap();
    assert_eq!(order.approved_deadline, 3700);
    assert!(!order.extension_requested);
    assert_eq!(order.extension_deadline, 0);
    assert_eq!(order.state, OrderState::PendingShipment);
    assert_eq!(
        order.history.last().unwrap().description,
        "Deadline extension rejected by importer"
    );
}

#[test]
fn extension_not_beyond_current_deadline_is_too_short() {
    let (mut order, _, exporter) = approved_order();
    let r = request_deadline_extension(&mut order, exporter, 3650, 3500);
    assert_eq!(r, Err(EscrowError::DeadlineTooShort));
}

#[test]
fn extension_after_the_deadline_fails() {
    let (mut order, _, exporter) = approved_order();
    let r = request_deadline_extension(&mut order, exporter, 9000, 3701);
    assert_eq!(r, Err(EscrowError::DeadlinePassed));
}

#[test]
fn extension_window_out_of_range_is_rejected() {
    let (mut order, _, exporter) = approved_order();
    let r = request_deadline_extension(&mut order, exporter, 258, 200);
    assert_eq!(r, Err(EscrowError::DeadlineTooShort));
    let r = request_deadline_extension(&mut order, exporter, 201 + MAX_WINDOW, 200);
    assert_eq!(r, Err(EscrowError::DeadlineTooLong));
}

#[test]
fn extension_already_requested_is_refused() {
    let (mut order, _, exporter) = approved_order();
    // Not reachable through the operations alone, which park the order in
    // the ruling state: forge a pending request beside an eligible state.
    order.extension_requested = true;
    let r = request_deadline_extension(&mut order, exporter, 4000, 200);
    assert_eq!(r, Err(EscrowError::ExtensionAlreadyRequested));
}

#[test]
fn extension_request_in_ruling_state_is_invalid() {
    let (mut order, _, exporter) = approved_order();
    request_deadline_extension(&mut order, exporter, 4000, 200).unwrap();
    let r = request_deadline_extension(&mut order, exporter, 5000, 210);
    assert_eq!(r, Err(EscrowError::InvalidState));
}

#[test]
fn ruling_without_pending_request_is_not_found() {
    let (mut order, importer, _) = approved_order();
    // Not reachable through the operations alone: forge the ruling state
    // with no request pending.
    order.state = OrderState::PendingExtensionApproval;
    order.extension_requested = false;
    let r = approve_deadline_extension(&mut order, importer, 250);
    assert_eq!(r, Err(EscrowError::ExtensionRequestNotFound));
    let r = reject_deadline_extension(&mut order, importer, 250);
    assert_eq!(r, Err(EscrowError::ExtensionRequestNotFound));
}

#[test]
fn ruling_outside_the_ruling_state_is_invalid() {
    let (mut order, importer, _) = approved_order();
    let r = approve_deadline_extension(&mut order, importer, 250);
    assert_eq!(r, Err(EscrowError::InvalidState));
    let r = reject_deadline_extension(&mut order, importer, 250);
    assert_eq!(r, Err(EscrowError::InvalidState));
}

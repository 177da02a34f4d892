//! Role-membership checks over a caller identity and an order snapshot.
//! Every guarded operation passes exactly one of these predicates before any
//! mutation; a failure short-circuits with no side effect.

use vstd::prelude::*;
use crate::ids::AccountId;
use crate::order::Order;

verus! {

/// Whether `caller` is the order's importer (the payer).
pub open spec fn spec_is_importer(order: &Order, caller: AccountId) -> bool {
    caller == order.importer
}

/// Whether `caller` is the order's importer (the payer).
#[verifier::when_used_as_spec(spec_is_importer)]
pub fn is_importer(order: &Order, caller: AccountId) -> (b: bool)
    ensures
        b == spec_is_importer(order, caller),
{
    caller == order.importer
}

/// Whether `caller` is the order's exporter (the payee).
pub open spec fn spec_is_exporter(order: &Order, caller: AccountId) -> bool {
    caller == order.exporter
}

/// Whether `caller` is the order's exporter (the payee).
#[verifier::when_used_as_spec(spec_is_exporter)]
pub fn is_exporter(order: &Order, caller: AccountId) -> (b: bool)
    ensures
        b == spec_is_exporter(order, caller),
{
    caller == order.exporter
}

/// Whether `caller` is the order's verifier (the arbiter).
pub open spec fn spec_is_verifier(order: &Order, caller: AccountId) -> bool {
    caller == order.verifier
}

/// Whether `caller` is the order's verifier (the arbiter).
#[verifier::when_used_as_spec(spec_is_verifier)]
pub fn is_verifier(order: &Order, caller: AccountId) -> (b: bool)
    ensures
        b == spec_is_verifier(order, caller),
{
    caller == order.verifier
}

/// Whether `caller` may confirm delivery: the verifier or the importer.
pub open spec fn spec_is_verifier_or_importer(order: &Order, caller: AccountId) -> bool {
    spec_is_verifier(order, caller) || spec_is_importer(order, caller)
}

/// Whether `caller` may confirm delivery: the verifier or the importer.
#[verifier::when_used_as_spec(spec_is_verifier_or_importer)]
pub fn is_verifier_or_importer(order: &Order, caller: AccountId) -> (b: bool)
    ensures
        b == spec_is_verifier_or_importer(order, caller),
{
    is_verifier(order, caller) || is_importer(order, caller)
}

/// Whether `caller` is one of the two trading parties: importer or exporter.
pub open spec fn spec_is_importer_or_exporter(order: &Order, caller: AccountId) -> bool {
    spec_is_importer(order, caller) || spec_is_exporter(order, caller)
}

/// Whether `caller` is one of the two trading parties: importer or exporter.
#[verifier::when_used_as_spec(spec_is_importer_or_exporter)]
pub fn is_importer_or_exporter(order: &Order, caller: AccountId) -> (b: bool)
    ensures
        b == spec_is_importer_or_exporter(order, caller),
{
    is_importer(order, caller) || is_exporter(order, caller)
}

} // verus!

//! Trade-finance escrow core: an order state machine mediating custody of a
//! fixed value transfer between an importer (payer), an exporter (payee), and
//! a verifier (arbiter), from creation through delivery, dispute, or
//! timeout-based refund.
//!
//! The library is pure: every operation is a guarded transition over an
//! [`order::Order`] record. Moving the escrowed value, resolving caller
//! identities, sourcing wall-clock time, and persisting the record are left to
//! the surrounding program, which executes the [`machine::CustodyAction`]
//! returned by a transition and commits the mutated record only if that
//! transfer succeeds.

pub mod auth;
pub mod deadline;
pub mod ids;
pub mod errors;
pub mod history;
pub mod laws;
pub mod machine;
pub mod metadata;
pub mod order;
pub mod state;

pub use errors::EscrowError;
pub use history::OrderHistoryEntry;
pub use ids::AccountId;
pub use ids::LadingHash;
pub use machine::approve_deadline;
pub use machine::approve_deadline_extension;
pub use machine::bulk_check_deadlines;
pub use machine::check_deadline_and_refund;
pub use machine::confirm_delivery;
pub use machine::create_order;
pub use machine::dispute_order;
pub use machine::propose_new_deadline;
pub use machine::reject_deadline_extension;
pub use machine::request_deadline_extension;
pub use machine::resolve_dispute;
pub use machine::ship_goods;
pub use machine::update_order_metadata;
pub use machine::CustodyAction;
pub use metadata::OrderMetadata;
pub use order::Order;
pub use state::OrderState;

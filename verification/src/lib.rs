//! A storage-accounted fungible-token ledger.
//!
//! The crate keeps per-account `u128` balances under a global total-supply
//! invariant: at every observable point between operations, the total supply
//! equals the sum of all registered accounts' balances. Accounts opt in by
//! registering against a storage deposit, mutating calls are metered by a
//! storage-cost accountant, and transfers come in two shapes: an atomic
//! simple transfer, and a two-phase notify transfer that credits the
//! receiver optimistically and compensates with a refund once the receiver's
//! hook has declared how much of the amount it declines.

pub mod accountant;
pub mod engine;
pub mod errors;
pub mod events;
pub mod laws;
pub mod ledger;
pub mod model;
pub mod registry;

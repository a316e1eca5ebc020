use vstd::prelude::*;

verus! {

/// The failure taxonomy of the ledger. Every precondition violation surfaces
/// as a distinct, named error; a failing operation is terminal for the
/// current call and leaves the ledger exactly as it found it.
#[derive(Clone, Copy, Debug, PartialEq, Eq, Structural)]
pub enum Error {
    /// The named account has not opted into holding a balance.
    AccountNotRegistered,
    /// The sender's balance does not cover the requested amount.
    InsufficientBalance,
    /// The operation would push a balance or a refund past `u128::MAX`.
    Overflow,
    /// A transfer names the same account as sender and receiver.
    SelfTransfer,
    /// A transfer of zero tokens.
    ZeroAmount,
    /// The payment attached to a registration is below the minimum storage bound.
    InsufficientStorageDeposit,
    /// Unregistering without `force` while the account still holds tokens.
    NonZeroBalance,
    /// A simple transfer without the single attached deposit unit that marks
    /// explicit intent.
    ExplicitIntentRequired,
    /// The payment attached to a mutating call does not cover the storage it
    /// allocated.
    InsufficientDepositForStorage,
}

} // verus!

use vstd::prelude::*;

verus! {

/// An observability record, appended by the operations that create, move or
/// destroy tokens. The log is append-only and carries enough data to
/// reconstruct the ledger from genesis.
#[derive(Debug)]
pub enum Event {
    /// Tokens created at genesis for the initial owner.
    Mint { owner: String, amount: u128 },
    /// Tokens moved from `sender` to `receiver`.
    Transfer { sender: String, receiver: String, amount: u128, memo: Option<String> },
    /// Tokens destroyed out of `account`'s balance.
    Burn { account: String, amount: u128 },
}

/// The mathematical image of an `Event`: account identifiers and the memo as
/// character sequences.
pub enum EventV {
    Mint { owner: Seq<char>, amount: u128 },
    Transfer { sender: Seq<char>, receiver: Seq<char>, amount: u128, memo: Option<Seq<char>> },
    Burn { account: Seq<char>, amount: u128 },
}

impl View for Event {
    type V = EventV;

    open spec fn view(&self) -> EventV {
        match self {
            Event::Mint { owner, amount } => EventV::Mint { owner: owner@, amount: *amount },
            Event::Transfer { sender, receiver, amount, memo } => EventV::Transfer {
                sender: sender@,
                receiver: receiver@,
                amount: *amount,
                memo: memo.deep_view(),
            },
            Event::Burn { account, amount } => EventV::Burn { account: account@, amount: *amount },
        }
    }
}

} // verus!

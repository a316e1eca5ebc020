use vstd::prelude::*;

use crate::engine::{notify_transfer_effect, resolve_effect, HookOutcome, TransferIntent};
use crate::errors::Error;
use crate::events::EventV;
use crate::ledger::{transfer_effect, Ledger};
use crate::model::sum_balances;
use crate::registry::{register_effect, unregister_effect};

verus! {

/// The global accounting invariant: in any ledger satisfying `inv` — which
/// genesis establishes and every operation of this crate preserves — the
/// total supply equals the sum of the registered accounts' balances.
pub proof fn lemma_supply_is_sum_of_balances(l: Ledger)
    requires
        l.inv(),
    ensures
        sum_balances(l.accounts@) == l.supply() as int,
{
}

/// Idempotence of registration: a `register` call on an account that is
/// already registered changes nothing — no balance, no deposit, no event —
/// and refunds the whole payment.
pub proof fn lemma_register_idempotent(
    pre: Ledger,
    post: Ledger,
    id: Seq<char>,
    payment: u128,
    r: Result<(bool, u128), Error>,
)
    requires
        pre.registered(id),
        register_effect(pre, post, id, payment, r),
    ensures
        r == Ok::<(bool, u128), Error>((true, payment)),
        post == pre,
{
}

/// Round trip: registering a fresh account and then unregistering it
/// without force, its balance still zero, leaves every observation of the
/// ledger as it was, and the two refunds — the remainder returned at
/// registration and the deposit released at deregistration — give the
/// whole original payment back.
pub proof fn lemma_register_unregister_round_trip(
    pre: Ledger,
    mid: Ledger,
    post: Ledger,
    id: Seq<char>,
    payment: u128,
    refund: u128,
    r2: Result<(bool, u128), Error>,
)
    requires
        !pre.registered(id),
        register_effect(pre, mid, id, payment, Ok((true, refund))),
        unregister_effect(mid, post, id, false, r2),
    ensures
        r2 == Ok::<(bool, u128), Error>((true, 0)),
        refund + pre.min_bound() == payment,
        !post.registered(id),
        forall|x: Seq<char>| post.registered(x) == pre.registered(x),
        forall|x: Seq<char>| post.balance(x) == pre.balance(x),
        post.supply() == pre.supply(),
        post.min_bound() == pre.min_bound(),
        post.events_log() == pre.events_log(),
{
    assert forall|x: Seq<char>| post.registered(x) == pre.registered(x) by {
        if x != id {
            assert(mid.registered(x) == pre.registered(x));
        }
    }
    assert forall|x: Seq<char>| post.balance(x) == pre.balance(x) by {
        if x != id {
            assert(mid.balance(x) == pre.balance(x));
        }
    }
}

/// Conservation: a successful transfer leaves the sum of the two parties'
/// balances unchanged, touches no other account's balance, and leaves the
/// total supply alone.
pub proof fn lemma_transfer_conserves(
    pre: Ledger,
    post: Ledger,
    sender: Seq<char>,
    receiver: Seq<char>,
    amount: u128,
)
    requires
        transfer_effect(pre, post, sender, receiver, amount, Ok(())),
    ensures
        post.balance(sender) + post.balance(receiver) == pre.balance(sender) + pre.balance(
            receiver,
        ),
        forall|x: Seq<char>| x != sender && x != receiver ==> post.balance(x) == pre.balance(x),
        post.supply() == pre.supply(),
{
}

/// Rollback of an undelivered notification: when a notify transfer's hook
/// cannot be delivered and the receiver has not touched the credit in the
/// meantime, the resolution refunds everything — every balance and the
/// total supply end as they began, the receiver kept nothing, and the log
/// shows the optimistic leg and its full refund.
pub proof fn lemma_undelivered_notify_rolls_back(
    pre: Ledger,
    mid: Ledger,
    post: Ledger,
    sender: Seq<char>,
    receiver: Seq<char>,
    amount: u128,
    memo: Option<Seq<char>>,
    intent: TransferIntent,
    used: u128,
)
    requires
        notify_transfer_effect(pre, mid, sender, receiver, amount, memo, Ok(intent)),
        resolve_effect(mid, post, intent, HookOutcome::Undelivered, used),
    ensures
        used == 0,
        forall|x: Seq<char>| post.balance(x) == pre.balance(x),
        forall|x: Seq<char>| post.registered(x) == pre.registered(x),
        post.supply() == pre.supply(),
        post.min_bound() == pre.min_bound(),
        post.events_log() == pre.events_log().push(
            EventV::Transfer { sender, receiver, amount, memo },
        ).push(EventV::Transfer { sender: receiver, receiver: sender, amount, memo: None }),
{
    assert(mid.balance(receiver) == pre.balance(receiver) + amount);
    assert(crate::engine::refund_amount(mid, intent, HookOutcome::Undelivered) == amount);
    assert(mid.registered(sender));
    assert forall|x: Seq<char>| post.balance(x) == pre.balance(x) by {
        if x != sender && x != receiver {
            assert(mid.balance(x) == pre.balance(x));
        }
    }
}

/// Boundary: a self-transfer always fails with `SelfTransfer`, whatever
/// the amount; a transfer of zero between distinct parties always fails
/// with `ZeroAmount`; either way the ledger is untouched.
pub proof fn lemma_transfer_boundary(
    pre: Ledger,
    post: Ledger,
    sender: Seq<char>,
    receiver: Seq<char>,
    amount: u128,
    r: Result<(), Error>,
)
    requires
        transfer_effect(pre, post, sender, receiver, amount, r),
        sender == receiver || amount == 0,
    ensures
        post == pre,
        sender == receiver ==> r == Err::<(), Error>(Error::SelfTransfer),
        sender != receiver && amount == 0 ==> r == Err::<(), Error>(Error::ZeroAmount),
{
}

} // verus!

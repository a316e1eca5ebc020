use vstd::prelude::*;

use crate::errors::Error;
use crate::events::{Event, EventV};
use crate::ledger::Ledger;
use crate::model::{lemma_balance_at, lemma_sum_elem, lemma_sum_pair, seq_index_of};

verus! {

/// A transfer in flight during a notify transfer: created when the amount
/// is optimistically credited to the receiver, resolved once the
/// receiver's hook outcome is known, and destroyed with the resolution.
pub struct TransferIntent {
    pub sender: String,
    pub receiver: String,
    pub amount: u128,
    pub memo: Option<String>,
}

/// What became of the receiver's hook.
pub enum HookOutcome {
    /// The hook ran and declared how much of the amount the receiver hands
    /// back (more than the amount in flight counts as the whole amount).
    Returned(u128),
    /// The hook could not be delivered at all, or the receiver was gone:
    /// the whole amount is treated as handed back.
    Undelivered,
}

/// The amount a hook outcome hands back, capped at the amount in flight.
pub open spec fn unused_amount(outcome: HookOutcome, amount: u128) -> u128 {
    match outcome {
        HookOutcome::Returned(u) => if u > amount {
            amount
        } else {
            u
        },
        HookOutcome::Undelivered => amount,
    }
}

/// The refund a resolution actually moves: the handed-back amount, but
/// never more than the receiver still holds — a receiver that spent the
/// credit in the meantime covers what it can and no more.
pub open spec fn refund_amount(pre: Ledger, intent: TransferIntent, outcome: HookOutcome) -> u128 {
    let unused = unused_amount(outcome, intent.amount);
    let held = pre.balance(intent.receiver@);
    if unused > held {
        held
    } else {
        unused
    }
}

/// How one `simple_transfer` call relates `post` to `pre`: on success the
/// amount moves and one transfer event is recorded; on failure the error is
/// the named one and the ledger is untouched.
pub open spec fn simple_transfer_effect(
    pre: Ledger,
    post: Ledger,
    sender: Seq<char>,
    receiver: Seq<char>,
    amount: u128,
    memo: Option<Seq<char>>,
    attached_deposit: u128,
    r: Result<(), Error>,
) -> bool {
    match r {
        Ok(()) => {
            &&& pre.simple_transfer_err(sender, receiver, amount, attached_deposit) is None
            &&& post.balance(sender) == pre.balance(sender) - amount
            &&& post.balance(receiver) == pre.balance(receiver) + amount
            &&& forall|x: Seq<char>|
                x != sender && x != receiver ==> post.balance(x) == pre.balance(x)
            &&& forall|x: Seq<char>| post.registered(x) == pre.registered(x)
            &&& post.supply() == pre.supply()
            &&& post.min_bound() == pre.min_bound()
            &&& post.events_log() == pre.events_log().push(
                EventV::Transfer { sender, receiver, amount, memo },
            )
        },
        Err(e) => {
            &&& pre.simple_transfer_err(sender, receiver, amount, attached_deposit) == Some(e)
            &&& post == pre
        },
    }
}

/// How one `transfer_and_notify` call relates `post` to `pre`: on success
/// the amount is optimistically credited to the receiver, one transfer
/// event is recorded, and the returned intent carries the transfer for the
/// later resolution.
pub open spec fn notify_transfer_effect(
    pre: Ledger,
    post: Ledger,
    sender: Seq<char>,
    receiver: Seq<char>,
    amount: u128,
    memo: Option<Seq<char>>,
    r: Result<TransferIntent, Error>,
) -> bool {
    match r {
        Ok(intent) => {
            &&& pre.transfer_err(sender, receiver, amount) is None
            &&& intent.sender@ == sender
            &&& intent.receiver@ == receiver
            &&& intent.amount == amount
            &&& intent.memo.deep_view() == memo
            &&& post.balance(sender) == pre.balance(sender) - amount
            &&& post.balance(receiver) == pre.balance(receiver) + amount
            &&& forall|x: Seq<char>|
                x != sender && x != receiver ==> post.balance(x) == pre.balance(x)
            &&& forall|x: Seq<char>| post.registered(x) == pre.registered(x)
            &&& post.supply() == pre.supply()
            &&& post.min_bound() == pre.min_bound()
            &&& post.events_log() == pre.events_log().push(
                EventV::Transfer { sender, receiver, amount, memo },
            )
        },
        Err(e) => {
            &&& pre.transfer_err(sender, receiver, amount) == Some(e)
            &&& post == pre
        },
    }
}

/// How one `resolve_transfer` call relates `post` to `pre`. The refund —
/// the handed-back amount, capped by what the receiver still holds — moves
/// back to the sender with a transfer event; when the sender has
/// unregistered in the meantime it is burned instead, with a burn event. A
/// zero refund leaves the ledger untouched. The returned `used` is what the
/// receiver kept.
pub open spec fn resolve_effect(
    pre: Ledger,
    post: Ledger,
    intent: TransferIntent,
    outcome: HookOutcome,
    used: u128,
) -> bool {
    let sender = intent.sender@;
    let receiver = intent.receiver@;
    let refund = refund_amount(pre, intent, outcome);
    &&& used == intent.amount - refund
    &&& if refund == 0 {
        post == pre
    } else {
        &&& post.balance(receiver) == pre.balance(receiver) - refund
        &&& forall|x: Seq<char>| post.registered(x) == pre.registered(x)
        &&& post.min_bound() == pre.min_bound()
        &&& if pre.registered(sender) {
            &&& post.balance(sender) == pre.balance(sender) + refund
            &&& forall|x: Seq<char>|
                x != sender && x != receiver ==> post.balance(x) == pre.balance(x)
            &&& post.supply() == pre.supply()
            &&& post.events_log() == pre.events_log().push(
                EventV::Transfer {
                    sender: receiver,
                    receiver: sender,
                    amount: refund,
                    memo: None,
                },
            )
        } else {
            &&& forall|x: Seq<char>| x != receiver ==> post.balance(x) == pre.balance(x)
            &&& post.supply() == pre.supply() - refund
            &&& post.events_log() == pre.events_log().push(
                EventV::Burn { account: receiver, amount: refund },
            )
        }
    }
}

impl Ledger {
    /// The error, if any, that `simple_transfer` reports: the explicit
    /// intent marker is checked first, then the transfer itself.
    pub open spec fn simple_transfer_err(
        self,
        sender: Seq<char>,
        receiver: Seq<char>,
        amount: u128,
        attached_deposit: u128,
    ) -> Option<Error> {
        if attached_deposit != 1 {
            Some(Error::ExplicitIntentRequired)
        } else {
            self.transfer_err(sender, receiver, amount)
        }
    }

    /// Simple transfer: synchronous and atomic. The caller must attach
    /// exactly one deposit unit as an explicit-intent marker; the transfer
    /// is then delegated to the ledger and one transfer event recorded.
    pub fn simple_transfer(
        &mut self,
        sender: &String,
        receiver: &String,
        amount: u128,
        memo: Option<String>,
        attached_deposit: u128,
    ) -> (r: Result<(), Error>)
        requires
            old(self).inv(),
        ensures
            final(self).inv(),
            simple_transfer_effect(
                *old(self),
                *final(self),
                sender@,
                receiver@,
                amount,
                memo.deep_view(),
                attached_deposit,
                r,
            ),
    {
        if attached_deposit != 1 {
            return Err(Error::ExplicitIntentRequired);
        }
        let ghost pre = *self;
        match self.transfer(sender, receiver, amount) {
            Err(e) => Err(e),
            Ok(()) => {
                let ghost memo_v = memo.deep_view();
                self.events.push(
                    Event::Transfer {
                        sender: sender.clone(),
                        receiver: receiver.clone(),
                        amount,
                        memo,
                    },
                );
                proof {
                    let ev = self.events@.last();
                    assert(self.events_log() =~= pre.events_log().push(ev@));
                }
                Ok(())
            },
        }
    }

    /// Begins a notify transfer: moves the amount to the receiver
    /// optimistically — the receiver's hook observes its credited balance —
    /// records the transfer event, and returns the in-flight intent. The
    /// host delivers the notification payload to the receiver's hook and
    /// later hands its outcome to `resolve_transfer`.
    pub fn transfer_and_notify(
        &mut self,
        sender: &String,
        receiver: &String,
        amount: u128,
        memo: Option<String>,
    ) -> (r: Result<TransferIntent, Error>)
        requires
            old(self).inv(),
        ensures
            final(self).inv(),
            notify_transfer_effect(
                *old(self),
                *final(self),
                sender@,
                receiver@,
                amount,
                memo.deep_view(),
                r,
            ),
    {
        let ghost pre = *self;
        match self.transfer(sender, receiver, amount) {
            Err(e) => Err(e),
            Ok(()) => {
                let event_memo = match &memo {
                    Some(m) => Some(m.clone()),
                    None => None,
                };
                self.events.push(
                    Event::Transfer {
                        sender: sender.clone(),
                        receiver: receiver.clone(),
                        amount,
                        memo: event_memo,
                    },
                );
                proof {
                    let ev = self.events@.last();
                    assert(self.events_log() =~= pre.events_log().push(ev@));
                }
                Ok(
                    TransferIntent {
                        sender: sender.clone(),
                        receiver: receiver.clone(),
                        amount,
                        memo,
                    },
                )
            },
        }
    }

    /// Resolves a notify transfer once the receiver's hook outcome is
    /// known. Refunds the handed-back amount from the receiver to the
    /// sender, but only as far as the receiver still covers it; a sender
    /// gone in the meantime has the refund burned instead. Returns the
    /// amount the receiver kept. Never fails: a shortfall is a defined
    /// outcome, not an error. The intent must carry distinct sender and
    /// receiver, as every intent `transfer_and_notify` hands out does.
    pub fn resolve_transfer(&mut self, intent: TransferIntent, outcome: HookOutcome) -> (used:
        u128)
        requires
            old(self).inv(),
            intent.sender@ != intent.receiver@,
        ensures
            final(self).inv(),
            resolve_effect(*old(self), *final(self), intent, outcome, used),
    {
        let amount = intent.amount;
        let declared = match outcome {
            HookOutcome::Returned(u) => u,
            HookOutcome::Undelivered => amount,
        };
        let unused = if declared > amount {
            amount
        } else {
            declared
        };
        let held = self.balance_of(&intent.receiver);
        let refund = if unused > held {
            held
        } else {
            unused
        };
        if refund == 0 {
            return amount;
        }
        let ghost pre = *self;
        proof {
            let j = seq_index_of(pre.accounts@, intent.receiver@);
            lemma_balance_at(pre.accounts@, j);
            lemma_sum_elem(pre.accounts@, j);
            if pre.registered(intent.sender@) {
                let i = seq_index_of(pre.accounts@, intent.sender@);
                lemma_balance_at(pre.accounts@, i);
                lemma_sum_pair(pre.accounts@, i, j);
            }
        }
        let r1 = self.withdraw(&intent.receiver, refund);
        proof {
            assert(r1 is Ok);
        }
        match self.find(&intent.sender) {
            Some(_) => {
                let r2 = self.deposit(&intent.sender, refund);
                proof {
                    assert(r2 is Ok);
                }
                self.events.push(
                    Event::Transfer {
                        sender: intent.receiver,
                        receiver: intent.sender,
                        amount: refund,
                        memo: None,
                    },
                );
                proof {
                    let ev = self.events@.last();
                    assert(self.events_log() =~= pre.events_log().push(ev@));
                }
            },
            None => {
                self.total_supply = self.total_supply - refund;
                self.events.push(Event::Burn { account: intent.receiver, amount: refund });
                proof {
                    let ev = self.events@.last();
                    assert(self.events_log() =~= pre.events_log().push(ev@));
                }
            },
        }
        amount - refund
    }
}

} // verus!

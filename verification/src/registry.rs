use vstd::prelude::*;

use crate::errors::Error;
use crate::events::{Event, EventV};
use crate::ledger::Ledger;
use crate::model::{
    lemma_balance_at, lemma_balance_push, lemma_balance_remove, lemma_sum_elem, lemma_sum_push,
    lemma_sum_remove, sum_balances, AccountRecord,
};

verus! {

/// The storage-deposit position of one registered account: the deposit held
/// against its footprint (`total`) and the part of it the account could
/// take back while staying registered (`available`; always zero under the
/// locked policy, since the whole deposit backs the fixed footprint).
#[derive(Clone, Copy, Debug, PartialEq, Eq, Structural)]
pub struct StorageBalance {
    pub total: u128,
    pub available: u128,
}

/// The registration deposit bounds of this deployment: the per-account
/// footprint is fixed, so the maximum equals the minimum.
#[derive(Clone, Copy, Debug, PartialEq, Eq, Structural)]
pub struct StorageBounds {
    pub min: u128,
    pub max: Option<u128>,
}

/// How one `register` call relates `post` to `pre`. Registering an account
/// that is already registered is a no-op that refunds the whole payment,
/// never an error; a fresh registration keeps the minimum bound out of the
/// payment as the deposit and refunds the rest.
pub open spec fn register_effect(
    pre: Ledger,
    post: Ledger,
    id: Seq<char>,
    payment: u128,
    r: Result<(bool, u128), Error>,
) -> bool {
    match r {
        Ok((is_registered, refund)) => {
            &&& pre.register_err(id, payment) is None
            &&& is_registered == true
            &&& if pre.registered(id) {
                &&& post == pre
                &&& refund == payment
            } else {
                &&& refund == payment - pre.min_bound()
                &&& post.registered(id)
                &&& post.balance(id) == 0
                &&& forall|x: Seq<char>| x != id ==> post.registered(x) == pre.registered(x)
                &&& forall|x: Seq<char>| x != id ==> post.balance(x) == pre.balance(x)
                &&& post.supply() == pre.supply()
                &&& post.min_bound() == pre.min_bound()
                &&& post.events_log() == pre.events_log()
                &&& sum_balances(post.accounts@) == sum_balances(pre.accounts@)
            }
        },
        Err(e) => {
            &&& pre.register_err(id, payment) == Some(e)
            &&& post == pre
        },
    }
}

/// How one `unregister` call relates `post` to `pre`. Unregistering an
/// account that was never registered closes nothing; closing a registered
/// account burns whatever balance remains (with a burn event), removes the
/// record, and reports the burned balance.
pub open spec fn unregister_effect(
    pre: Ledger,
    post: Ledger,
    id: Seq<char>,
    force: bool,
    r: Result<(bool, u128), Error>,
) -> bool {
    match r {
        Ok((closed, released)) => {
            &&& pre.unregister_err(id, force) is None
            &&& if !pre.registered(id) {
                &&& closed == false
                &&& released == 0
                &&& post == pre
            } else {
                &&& closed == true
                &&& released == pre.balance(id)
                &&& !post.registered(id)
                &&& post.balance(id) == 0
                &&& forall|x: Seq<char>| x != id ==> post.registered(x) == pre.registered(x)
                &&& forall|x: Seq<char>| x != id ==> post.balance(x) == pre.balance(x)
                &&& post.supply() == pre.supply() - pre.balance(id)
                &&& post.min_bound() == pre.min_bound()
                &&& post.events_log() == if pre.balance(id) > 0 {
                    pre.events_log().push(
                        EventV::Burn { account: id, amount: pre.balance(id) },
                    )
                } else {
                    pre.events_log()
                }
            }
        },
        Err(e) => {
            &&& pre.unregister_err(id, force) == Some(e)
            &&& post == pre
        },
    }
}

impl Ledger {
    /// The error, if any, that `register` reports for these arguments.
    pub open spec fn register_err(self, id: Seq<char>, payment: u128) -> Option<Error> {
        if !self.registered(id) && payment < self.min_bound() {
            Some(Error::InsufficientStorageDeposit)
        } else {
            None
        }
    }

    /// The error, if any, that `unregister` reports for these arguments.
    pub open spec fn unregister_err(self, id: Seq<char>, force: bool) -> Option<Error> {
        if self.registered(id) && self.balance(id) > 0 && !force {
            Some(Error::NonZeroBalance)
        } else {
            None
        }
    }

    /// Registers `account` against `payment`. On a fresh registration the
    /// minimum bound is kept as the deposit and the remainder refunded; on
    /// an account already registered the whole payment is refunded and
    /// nothing changes. Returns whether the account is registered after the
    /// call, and the refund.
    pub fn register(&mut self, account: &String, payment: u128) -> (r: Result<(bool, u128), Error>)
        requires
            old(self).wf(),
        ensures
            final(self).wf(),
            register_effect(*old(self), *final(self), account@, payment, r),
            old(self).inv() ==> final(self).inv(),
    {
        match self.find(account) {
            Some(_) => Ok((true, payment)),
            None => {
                if payment < self.storage_min {
                    return Err(Error::InsufficientStorageDeposit);
                }
                let ghost pre = self.accounts@;
                let record = AccountRecord { id: account.clone(), balance: 0 };
                self.accounts.push(record);
                proof {
                    let rec = self.accounts@.last();
                    lemma_balance_push(pre, rec);
                    lemma_sum_push(pre, rec);
                }
                Ok((true, payment - self.storage_min))
            },
        }
    }

    /// Unregisters `account`. Without `force` the account must hold no
    /// tokens; with `force` the remaining balance is burned, shrinking the
    /// total supply, with a burn event on the log. The record and its
    /// deposit are released; the deposit itself flows back through the
    /// storage accountant's refund path. Returns whether a registration was
    /// closed, and the burned balance.
    pub fn unregister(&mut self, account: &String, force: bool) -> (r: Result<
        (bool, u128),
        Error,
    >)
        requires
            old(self).inv(),
        ensures
            final(self).inv(),
            unregister_effect(*old(self), *final(self), account@, force, r),
    {
        match self.find(account) {
            None => Ok((false, 0)),
            Some(i) => {
                proof {
                    lemma_balance_at(self.accounts@, i as int);
                }
                let bal = self.accounts[i].balance;
                if bal > 0 && !force {
                    return Err(Error::NonZeroBalance);
                }
                let ghost pre = *self;
                let removed = self.accounts.remove(i);
                proof {
                    lemma_balance_remove(pre.accounts@, i as int);
                    lemma_sum_remove(pre.accounts@, i as int);
                    lemma_sum_elem(pre.accounts@, i as int);
                }
                if bal > 0 {
                    self.total_supply = self.total_supply - bal;
                    self.events.push(Event::Burn { account: removed.id, amount: bal });
                    proof {
                        let ev = self.events@.last();
                        assert(self.events_log() =~= pre.events_log().push(ev@));
                    }
                }
                Ok((true, bal))
            },
        }
    }

    /// The storage-deposit position of `account`: the fixed deposit with
    /// nothing available while registered, or nothing at all for an
    /// unregistered account. Read-only.
    pub fn storage_balance(&self, account: &String) -> (r: Option<StorageBalance>)
        ensures
            match r {
                Some(sb) => {
                    &&& self.registered(account@)
                    &&& sb.total == self.min_bound()
                    &&& sb.available == 0
                },
                None => !self.registered(account@),
            },
    {
        match self.find(account) {
            Some(_) => Some(StorageBalance { total: self.storage_min, available: 0 }),
            None => None,
        }
    }

    /// The registration deposit bounds: minimum and maximum coincide, since
    /// a registration's footprint never grows. Read-only.
    pub fn storage_balance_bounds(&self) -> (r: StorageBounds)
        ensures
            r.min == self.min_bound(),
            r.max == Some(self.min_bound()),
    {
        StorageBounds { min: self.storage_min, max: Some(self.storage_min) }
    }
}

} // verus!

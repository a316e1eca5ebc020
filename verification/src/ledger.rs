use vstd::prelude::*;

use crate::errors::Error;
use crate::events::{Event, EventV};
use crate::model::{
    distinct_ids, lemma_balance_at, lemma_balance_update, lemma_sum_update, seq_balance,
    seq_registered, sum_balances, AccountRecord,
};

verus! {

/// The ledger: the registered accounts with their balances, the total
/// supply, the fixed minimum storage bound backing each registration, and
/// the append-only event log.
///
/// The central invariant (`inv`) is that the identifiers are distinct and
/// that the total supply equals the sum of the registered balances. Every
/// operation of the crate preserves it.
pub struct Ledger {
    pub accounts: Vec<AccountRecord>,
    pub total_supply: u128,
    pub storage_min: u128,
    pub events: Vec<Event>,
}

/// How one `transfer` call relates the ledger after it (`post`) to the
/// ledger before it (`pre`): on success exactly `amount` moves from
/// `sender` to `receiver` and nothing else changes; on failure the error is
/// the one `transfer_err` names and the ledger is untouched.
pub open spec fn transfer_effect(
    pre: Ledger,
    post: Ledger,
    sender: Seq<char>,
    receiver: Seq<char>,
    amount: u128,
    r: Result<(), Error>,
) -> bool {
    match r {
        Ok(()) => {
            &&& pre.transfer_err(sender, receiver, amount) is None
            &&& post.balance(sender) == pre.balance(sender) - amount
            &&& post.balance(receiver) == pre.balance(receiver) + amount
            &&& forall|x: Seq<char>|
                x != sender && x != receiver ==> post.balance(x) == pre.balance(x)
            &&& forall|x: Seq<char>| post.registered(x) == pre.registered(x)
            &&& post.supply() == pre.supply()
            &&& post.min_bound() == pre.min_bound()
            &&& post.events_log() == pre.events_log()
            &&& sum_balances(post.accounts@) == sum_balances(pre.accounts@)
        },
        Err(e) => {
            &&& pre.transfer_err(sender, receiver, amount) == Some(e)
            &&& post == pre
        },
    }
}

impl Ledger {
    /// The current total supply, as seen by contracts.
    pub open spec fn supply(self) -> u128 {
        self.total_supply
    }

    /// The minimum (and, in this deployment, also maximum) storage deposit
    /// bound: the cost of one account's storage footprint.
    pub open spec fn min_bound(self) -> u128 {
        self.storage_min
    }

    /// Whether `id` is registered: eligible to hold a balance.
    pub open spec fn registered(self, id: Seq<char>) -> bool {
        seq_registered(self.accounts@, id)
    }

    /// The balance held under `id`; zero for an unregistered identifier.
    pub open spec fn balance(self, id: Seq<char>) -> u128 {
        seq_balance(self.accounts@, id)
    }

    /// The event log, as a sequence of mathematical event records.
    pub open spec fn events_log(self) -> Seq<EventV> {
        self.events@.map_values(|e: Event| e@)
    }

    /// No two records carry the same identifier.
    pub open spec fn wf(self) -> bool {
        distinct_ids(self.accounts@)
    }

    /// The ledger invariant: distinct identifiers, and the total supply is
    /// exactly the sum of the registered balances.
    pub open spec fn inv(self) -> bool {
        &&& self.wf()
        &&& sum_balances(self.accounts@) == self.supply() as int
    }

    /// The error, if any, that `deposit` reports for these arguments.
    pub open spec fn deposit_err(self, id: Seq<char>, amount: u128) -> Option<Error> {
        if !self.registered(id) {
            Some(Error::AccountNotRegistered)
        } else if self.balance(id) + amount > u128::MAX {
            Some(Error::Overflow)
        } else {
            None
        }
    }

    /// The error, if any, that `withdraw` reports for these arguments.
    pub open spec fn withdraw_err(self, id: Seq<char>, amount: u128) -> Option<Error> {
        if !self.registered(id) {
            Some(Error::AccountNotRegistered)
        } else if self.balance(id) < amount {
            Some(Error::InsufficientBalance)
        } else {
            None
        }
    }

    /// The error, if any, that `transfer` reports for these arguments, in
    /// the order the checks are made: a self-transfer, a zero amount, an
    /// unregistered sender or receiver, an overflowing receiver balance, an
    /// insufficient sender balance.
    pub open spec fn transfer_err(
        self,
        sender: Seq<char>,
        receiver: Seq<char>,
        amount: u128,
    ) -> Option<Error> {
        if sender == receiver {
            Some(Error::SelfTransfer)
        } else if amount == 0 {
            Some(Error::ZeroAmount)
        } else if !self.registered(sender) {
            Some(Error::AccountNotRegistered)
        } else if !self.registered(receiver) {
            Some(Error::AccountNotRegistered)
        } else if self.balance(receiver) + amount > u128::MAX {
            Some(Error::Overflow)
        } else if self.balance(sender) < amount {
            Some(Error::InsufficientBalance)
        } else {
            None
        }
    }

    /// Index of the record registered for `account`, if any.
    pub(crate) fn find(&self, account: &String) -> (r: Option<usize>)
        ensures
            match r {
                Some(i) => i < self.accounts@.len() && self.accounts@[i as int].id@ == account@,
                None => !self.registered(account@),
            },
    {
        let n = self.accounts.len();
        let mut i: usize = 0;
        while i < n
            invariant
                n == self.accounts@.len(),
                i <= n,
                forall|k: int| 0 <= k < i ==> self.accounts@[k].id@ != account@,
            decreases n - i,
        {
            if self.accounts[i].id == *account {
                return Some(i);
            }
            i = i + 1;
        }
        None
    }

    /// Genesis: a ledger whose whole supply is minted to `owner`, the one
    /// registered account, with a mint event on the log. `storage_min` is
    /// the host-priced cost of one account's storage footprint.
    pub fn new(owner: String, total_supply: u128, storage_min: u128) -> (r: Ledger)
        ensures
            r.inv(),
            r.supply() == total_supply,
            r.min_bound() == storage_min,
            r.registered(owner@),
            r.balance(owner@) == total_supply,
            forall|x: Seq<char>| x != owner@ ==> !r.registered(x),
            forall|x: Seq<char>| x != owner@ ==> r.balance(x) == 0,
            r.events_log() =~= seq![EventV::Mint { owner: owner@, amount: total_supply }],
    {
        let mut accounts: Vec<AccountRecord> = Vec::new();
        let mut events: Vec<Event> = Vec::new();
        let record = AccountRecord { id: owner.clone(), balance: total_supply };
        accounts.push(record);
        events.push(Event::Mint { owner, amount: total_supply });
        let r = Ledger { accounts, total_supply, storage_min, events };
        proof {
            assert(r.accounts@.len() == 1);
            lemma_balance_at(r.accounts@, 0);
            assert(r.accounts@.drop_last() =~= Seq::<AccountRecord>::empty());
            assert(sum_balances(Seq::<AccountRecord>::empty()) == 0);
            assert(sum_balances(r.accounts@) == r.accounts@.last().balance);
            assert forall|x: Seq<char>| x != r.accounts@[0].id@ implies !r.registered(x) by {
                if seq_registered(r.accounts@, x) {
                    let k = crate::model::seq_index_of(r.accounts@, x);
                    assert(k == 0);
                }
            }
        }
        r
    }

    /// The current total supply. Read-only.
    pub fn total_supply(&self) -> (r: u128)
        ensures
            r == self.supply(),
    {
        self.total_supply
    }

    /// The balance of `account`: zero if unregistered or registered with
    /// zero. Never fails. Read-only.
    pub fn balance_of(&self, account: &String) -> (r: u128)
        requires
            self.wf(),
        ensures
            r == self.balance(account@),
    {
        match self.find(account) {
            Some(i) => {
                proof {
                    lemma_balance_at(self.accounts@, i as int);
                }
                self.accounts[i].balance
            },
            None => 0,
        }
    }

    /// Adds `amount` to a registered account's balance. The total supply is
    /// left alone: the callers pair a deposit with a withdrawal, or adjust
    /// the supply themselves.
    pub fn deposit(&mut self, account: &String, amount: u128) -> (r: Result<(), Error>)
        requires
            old(self).wf(),
        ensures
            final(self).wf(),
            match r {
                Ok(()) => {
                    &&& old(self).deposit_err(account@, amount) is None
                    &&& final(self).balance(account@) == old(self).balance(account@) + amount
                    &&& forall|x: Seq<char>|
                        x != account@ ==> final(self).balance(x) == old(self).balance(x)
                    &&& forall|x: Seq<char>|
                        final(self).registered(x) == old(self).registered(x)
                    &&& final(self).supply() == old(self).supply()
                    &&& final(self).min_bound() == old(self).min_bound()
                    &&& final(self).events_log() == old(self).events_log()
                    &&& sum_balances(final(self).accounts@) == sum_balances(old(self).accounts@)
                        + amount
                },
                Err(e) => {
                    &&& old(self).deposit_err(account@, amount) == Some(e)
                    &&& *final(self) == *old(self)
                },
            },
    {
        match self.find(account) {
            None => Err(Error::AccountNotRegistered),
            Some(i) => {
                proof {
                    lemma_balance_at(self.accounts@, i as int);
                }
                let bal = self.accounts[i].balance;
                if amount > u128::MAX - bal {
                    return Err(Error::Overflow);
                }
                let ghost pre = self.accounts@;
                self.accounts[i].balance = bal + amount;
                proof {
                    let rnew = self.accounts@[i as int];
                    lemma_balance_update(pre, i as int, rnew);
                    lemma_sum_update(pre, i as int, rnew);
                }
                Ok(())
            },
        }
    }

    /// Takes `amount` out of a registered account's balance. The total
    /// supply is left alone, as for `deposit`.
    pub fn withdraw(&mut self, account: &String, amount: u128) -> (r: Result<(), Error>)
        requires
            old(self).wf(),
        ensures
            final(self).wf(),
            match r {
                Ok(()) => {
                    &&& old(self).withdraw_err(account@, amount) is None
                    &&& final(self).balance(account@) == old(self).balance(account@) - amount
                    &&& forall|x: Seq<char>|
                        x != account@ ==> final(self).balance(x) == old(self).balance(x)
                    &&& forall|x: Seq<char>|
                        final(self).registered(x) == old(self).registered(x)
                    &&& final(self).supply() == old(self).supply()
                    &&& final(self).min_bound() == old(self).min_bound()
                    &&& final(self).events_log() == old(self).events_log()
                    &&& sum_balances(final(self).accounts@) == sum_balances(old(self).accounts@)
                        - amount
                },
                Err(e) => {
                    &&& old(self).withdraw_err(account@, amount) == Some(e)
                    &&& *final(self) == *old(self)
                },
            },
    {
        match self.find(account) {
            None => Err(Error::AccountNotRegistered),
            Some(i) => {
                proof {
                    lemma_balance_at(self.accounts@, i as int);
                }
                let bal = self.accounts[i].balance;
                if bal < amount {
                    return Err(Error::InsufficientBalance);
                }
                let ghost pre = self.accounts@;
                self.accounts[i].balance = bal - amount;
                proof {
                    let rnew = self.accounts@[i as int];
                    lemma_balance_update(pre, i as int, rnew);
                    lemma_sum_update(pre, i as int, rnew);
                }
                Ok(())
            },
        }
    }

    /// Atomic transfer: the withdrawal from `sender` and the deposit to
    /// `receiver` both happen or neither does. No event is recorded here;
    /// the protocol operations above this one record the events.
    pub fn transfer(
        &mut self,
        sender: &String,
        receiver: &String,
        amount: u128,
    ) -> (r: Result<(), Error>)
        requires
            old(self).wf(),
        ensures
            final(self).wf(),
            transfer_effect(*old(self), *final(self), sender@, receiver@, amount, r),
            old(self).inv() ==> final(self).inv(),
    {
        if *sender == *receiver {
            return Err(Error::SelfTransfer);
        }
        if amount == 0 {
            return Err(Error::ZeroAmount);
        }
        let sender_balance = match self.find(sender) {
            None => {
                return Err(Error::AccountNotRegistered);
            },
            Some(i) => {
                proof {
                    lemma_balance_at(self.accounts@, i as int);
                }
                self.accounts[i].balance
            },
        };
        let receiver_balance = match self.find(receiver) {
            None => {
                return Err(Error::AccountNotRegistered);
            },
            Some(j) => {
                proof {
                    lemma_balance_at(self.accounts@, j as int);
                }
                self.accounts[j].balance
            },
        };
        if amount > u128::MAX - receiver_balance {
            return Err(Error::Overflow);
        }
        if sender_balance < amount {
            return Err(Error::InsufficientBalance);
        }
        let r1 = self.withdraw(sender, amount);
        proof {
            assert(r1 is Ok);
        }
        let r2 = self.deposit(receiver, amount);
        proof {
            assert(r2 is Ok);
        }
        Ok(())
    }
}

} // verus!

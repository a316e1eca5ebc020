use vstd::prelude::*;

verus! {

/// One registered account: its identifier and its token balance.
///
/// Registration is binary: an account holds a record exactly while it is
/// registered, and an unregistered account never appears in the ledger. The
/// storage deposit held against a record is always the ledger's fixed
/// minimum bound, so the record itself stands for the deposit.
pub struct AccountRecord {
    pub id: String,
    pub balance: u128,
}

/// Sum of the balances of a row of account records, as an unbounded integer.
pub open spec fn sum_balances(s: Seq<AccountRecord>) -> int
    decreases s.len(),
{
    if s.len() == 0 {
        0
    } else {
        sum_balances(s.drop_last()) + s.last().balance
    }
}

/// No two records of the row carry the same identifier.
pub open spec fn distinct_ids(s: Seq<AccountRecord>) -> bool {
    forall|i: int, j: int| 0 <= i < j < s.len() ==> s[i].id@ != s[j].id@
}

/// Some record of the row carries the identifier `id`.
pub open spec fn seq_registered(s: Seq<AccountRecord>, id: Seq<char>) -> bool {
    exists|i: int| 0 <= i < s.len() && s[i].id@ == id
}

/// The index of the record carrying `id`; meaningful only when
/// `seq_registered(s, id)` holds and the identifiers are distinct.
pub open spec fn seq_index_of(s: Seq<AccountRecord>, id: Seq<char>) -> int {
    choose|i: int| 0 <= i < s.len() && s[i].id@ == id
}

/// The balance held under `id`: zero for an identifier without a record.
pub open spec fn seq_balance(s: Seq<AccountRecord>, id: Seq<char>) -> u128 {
    if seq_registered(s, id) {
        s[seq_index_of(s, id)].balance
    } else {
        0
    }
}

pub proof fn lemma_sum_nonneg(s: Seq<AccountRecord>)
    ensures
        0 <= sum_balances(s),
    decreases s.len(),
{
    if s.len() > 0 {
        lemma_sum_nonneg(s.drop_last());
    }
}

pub proof fn lemma_sum_update(s: Seq<AccountRecord>, i: int, r: AccountRecord)
    requires
        0 <= i < s.len(),
    ensures
        sum_balances(s.update(i, r)) == sum_balances(s) - s[i].balance + r.balance,
    decreases s.len(),
{
    let t = s.update(i, r);
    if i == s.len() - 1 {
        assert(t.drop_last() =~= s.drop_last());
    } else {
        lemma_sum_update(s.drop_last(), i, r);
        assert(t.drop_last() =~= s.drop_last().update(i, r));
        assert(t.last() == s.last());
    }
}

pub proof fn lemma_sum_push(s: Seq<AccountRecord>, r: AccountRecord)
    ensures
        sum_balances(s.push(r)) == sum_balances(s) + r.balance,
{
    assert(s.push(r).drop_last() =~= s);
    assert(s.push(r).last() == r);
}

pub proof fn lemma_sum_remove(s: Seq<AccountRecord>, i: int)
    requires
        0 <= i < s.len(),
    ensures
        sum_balances(s.remove(i)) == sum_balances(s) - s[i].balance,
    decreases s.len(),
{
    if i == s.len() - 1 {
        assert(s.remove(i) =~= s.drop_last());
    } else {
        lemma_sum_remove(s.drop_last(), i);
        assert(s.remove(i).drop_last() =~= s.drop_last().remove(i));
        assert(s.remove(i).last() == s.last());
    }
}

/// A single balance never exceeds the sum of the row.
pub proof fn lemma_sum_elem(s: Seq<AccountRecord>, i: int)
    requires
        0 <= i < s.len(),
    ensures
        s[i].balance <= sum_balances(s),
{
    lemma_sum_remove(s, i);
    lemma_sum_nonneg(s.remove(i));
}

/// Two balances at distinct indices never exceed the sum of the row together.
pub proof fn lemma_sum_pair(s: Seq<AccountRecord>, i: int, j: int)
    requires
        0 <= i < s.len(),
        0 <= j < s.len(),
        i != j,
    ensures
        s[i].balance + s[j].balance <= sum_balances(s),
{
    lemma_sum_remove(s, i);
    let t = s.remove(i);
    let j2: int = if j < i { j } else { j - 1 };
    assert(t[j2] == s[j]);
    lemma_sum_elem(t, j2);
}

/// With distinct identifiers, the balance looked up under a record's own
/// identifier is that record's balance.
pub proof fn lemma_balance_at(s: Seq<AccountRecord>, i: int)
    requires
        distinct_ids(s),
        0 <= i < s.len(),
    ensures
        seq_registered(s, s[i].id@),
        seq_index_of(s, s[i].id@) == i,
        seq_balance(s, s[i].id@) == s[i].balance,
{
    let id = s[i].id@;
    assert(seq_registered(s, id));
    let j = seq_index_of(s, id);
    assert(0 <= j < s.len() && s[j].id@ == id);
    if j < i {
        assert(s[j].id@ != s[i].id@);
    } else if i < j {
        assert(s[i].id@ != s[j].id@);
    }
}

/// Replacing the record at `i` by one with the same identifier changes the
/// registered set nowhere and the balance only under that identifier.
pub proof fn lemma_balance_update(s: Seq<AccountRecord>, i: int, r: AccountRecord)
    requires
        distinct_ids(s),
        0 <= i < s.len(),
        r.id@ == s[i].id@,
    ensures
        distinct_ids(s.update(i, r)),
        forall|x: Seq<char>| seq_registered(s.update(i, r), x) == seq_registered(s, x),
        seq_balance(s.update(i, r), r.id@) == r.balance,
        forall|x: Seq<char>|
            x != r.id@ ==> seq_balance(s.update(i, r), x) == seq_balance(s, x),
{
    let t = s.update(i, r);
    assert(forall|k: int| 0 <= k < s.len() ==> t[k].id@ == s[k].id@);
    assert forall|x: Seq<char>| seq_registered(t, x) == seq_registered(s, x) by {
        if seq_registered(s, x) {
            let k = seq_index_of(s, x);
            assert(t[k].id@ == x);
            assert(seq_registered(t, x));
        }
        if seq_registered(t, x) {
            let k = seq_index_of(t, x);
            assert(s[k].id@ == x);
            assert(seq_registered(s, x));
        }
    }
    lemma_balance_at(t, i);
    assert forall|x: Seq<char>| x != r.id@ implies seq_balance(t, x) == seq_balance(s, x) by {
        if seq_registered(t, x) {
            let k = seq_index_of(t, x);
            assert(0 <= k < t.len() && t[k].id@ == x);
            assert(k != i);
            assert(s[k].id@ == x && t[k].balance == s[k].balance);
            lemma_balance_at(s, k);
        }
    }
}

/// Appending a record with a fresh identifier registers exactly that
/// identifier, with the record's balance, and touches no other entry.
pub proof fn lemma_balance_push(s: Seq<AccountRecord>, r: AccountRecord)
    requires
        distinct_ids(s),
        !seq_registered(s, r.id@),
    ensures
        distinct_ids(s.push(r)),
        seq_registered(s.push(r), r.id@),
        seq_balance(s.push(r), r.id@) == r.balance,
        forall|x: Seq<char>|
            x != r.id@ ==> seq_registered(s.push(r), x) == seq_registered(s, x),
        forall|x: Seq<char>| x != r.id@ ==> seq_balance(s.push(r), x) == seq_balance(s, x),
{
    let t = s.push(r);
    assert(forall|k: int| 0 <= k < s.len() ==> s[k].id@ != r.id@);
    assert(forall|k: int| 0 <= k < s.len() ==> t[k] == s[k]);
    assert(t[s.len() as int] == r);
    lemma_balance_at(t, s.len() as int);
    assert forall|x: Seq<char>|
        x != r.id@ implies seq_registered(t, x) == seq_registered(s, x) by {
        if seq_registered(s, x) {
            let k = seq_index_of(s, x);
            assert(t[k].id@ == x);
        }
        if seq_registered(t, x) {
            let k = seq_index_of(t, x);
            assert(k != s.len() as int);
            assert(s[k].id@ == x);
        }
    }
    assert forall|x: Seq<char>| x != r.id@ implies seq_balance(t, x) == seq_balance(s, x) by {
        if seq_registered(t, x) {
            let k = seq_index_of(t, x);
            assert(k != s.len() as int);
            assert(t[k].balance == s[k].balance && s[k].id@ == x);
            lemma_balance_at(s, k);
            lemma_balance_at(t, k);
        }
    }
}

/// Removing the record at `i` unregisters exactly its identifier and touches
/// no other entry.
pub proof fn lemma_balance_remove(s: Seq<AccountRecord>, i: int)
    requires
        distinct_ids(s),
        0 <= i < s.len(),
    ensures
        distinct_ids(s.remove(i)),
        !seq_registered(s.remove(i), s[i].id@),
        forall|x: Seq<char>|
            x != s[i].id@ ==> seq_registered(s.remove(i), x) == seq_registered(s, x),
        forall|x: Seq<char>|
            x != s[i].id@ ==> seq_balance(s.remove(i), x) == seq_balance(s, x),
{
    let t = s.remove(i);
    assert(forall|k: int| 0 <= k < i ==> t[k] == s[k]);
    assert(forall|k: int| i <= k < t.len() ==> t[k] == s[k + 1]);
    assert forall|a: int, b: int| 0 <= a < b < t.len() implies t[a].id@ != t[b].id@ by {
        let a2: int = if a < i { a } else { a + 1 };
        let b2: int = if b < i { b } else { b + 1 };
        assert(t[a] == s[a2] && t[b] == s[b2]);
    }
    if seq_registered(t, s[i].id@) {
        let k = seq_index_of(t, s[i].id@);
        let k2: int = if k < i { k } else { k + 1 };
        assert(s[k2].id@ == s[i].id@ && k2 != i);
        assert(false);
    }
    assert forall|x: Seq<char>|
        x != s[i].id@ implies seq_registered(t, x) == seq_registered(s, x) by {
        if seq_registered(s, x) {
            let k = seq_index_of(s, x);
            assert(k != i);
            let k2: int = if k < i { k } else { k - 1 };
            assert(t[k2].id@ == x);
        }
        if seq_registered(t, x) {
            let k = seq_index_of(t, x);
            let k2: int = if k < i { k } else { k + 1 };
            assert(s[k2].id@ == x);
        }
    }
    assert forall|x: Seq<char>| x != s[i].id@ implies seq_balance(t, x) == seq_balance(s, x) by {
        if seq_registered(t, x) {
            let k = seq_index_of(t, x);
            let k2: int = if k < i { k } else { k + 1 };
            assert(t[k].balance == s[k2].balance && s[k2].id@ == x);
            lemma_balance_at(s, k2);
            lemma_balance_at(t, k);
        }
    }
}

} // verus!

//! The escrow ledger: per-identity sale proceeds pending withdrawal.
//!
//! Balances are kept in an association list with pairwise-distinct
//! accounts, created lazily at an account's first credit. A balance grows
//! only when a sale credits the seller and is reset to exactly zero by a
//! withdrawal.
use vstd::prelude::*;

verus! {

/// One account's escrowed balance.
#[derive(Debug)]
pub struct ProceedsEntry {
    pub account: String,
    pub amount: u128,
}

/// The balance recorded for `account`: the amount of the first entry with
/// that account, or zero if there is none.
pub open spec fn proceeds_of(entries: Seq<ProceedsEntry>, account: Seq<char>) -> u128
    decreases entries.len(),
{
    if entries.len() == 0 {
        0
    } else if entries[0].account@ == account {
        entries[0].amount
    } else {
        proceeds_of(entries.drop_first(), account)
    }
}

/// No entry records the account.
pub open spec fn account_absent(entries: Seq<ProceedsEntry>, account: Seq<char>) -> bool {
    forall|j: int| 0 <= j < entries.len() ==> entries[j].account@ != account
}

/// The accounts of the entries are pairwise distinct.
pub open spec fn accounts_distinct(entries: Seq<ProceedsEntry>) -> bool {
    forall|i: int, j: int|
        0 <= i < j < entries.len() ==> entries[i].account@ != entries[j].account@
}

/// The sum of all escrowed balances.
pub open spec fn escrow_total(entries: Seq<ProceedsEntry>) -> int
    decreases entries.len(),
{
    if entries.len() == 0 {
        0
    } else {
        entries[0].amount + escrow_total(entries.drop_first())
    }
}

/// An entry that matches the account, with no earlier match, carries the
/// recorded balance.
pub proof fn lemma_proceeds_found(entries: Seq<ProceedsEntry>, account: Seq<char>, i: int)
    requires
        0 <= i < entries.len(),
        entries[i].account@ == account,
        forall|j: int| 0 <= j < i ==> entries[j].account@ != account,
    ensures
        proceeds_of(entries, account) == entries[i].amount,
    decreases i,
{
    if i > 0 {
        lemma_proceeds_found(entries.drop_first(), account, i - 1);
    }
}

/// An account that no entry records has balance zero.
pub proof fn lemma_proceeds_absent(entries: Seq<ProceedsEntry>, account: Seq<char>)
    requires
        account_absent(entries, account),
    ensures
        proceeds_of(entries, account) == 0,
    decreases entries.len(),
{
    if entries.len() > 0 {
        assert forall|j: int|
            0 <= j < entries.drop_first().len() implies entries.drop_first()[j].account@
            != account by {
            assert(entries.drop_first()[j] == entries[j + 1]);
        }
        lemma_proceeds_absent(entries.drop_first(), account);
    }
}

/// Replacing the entry at `i` by one with the same account changes that
/// account's balance to the new amount and no other account's balance.
pub proof fn lemma_proceeds_update(
    entries: Seq<ProceedsEntry>,
    i: int,
    entry: ProceedsEntry,
    account: Seq<char>,
)
    requires
        0 <= i < entries.len(),
        entry.account@ == entries[i].account@,
        forall|j: int| 0 <= j < i ==> entries[j].account@ != entries[i].account@,
    ensures
        proceeds_of(entries.update(i, entry), account) == if account == entries[i].account@ {
            entry.amount
        } else {
            proceeds_of(entries, account)
        },
    decreases i,
{
    let updated = entries.update(i, entry);
    if i == 0 {
        assert(updated.drop_first() =~= entries.drop_first());
    } else {
        assert(updated.drop_first() =~= entries.drop_first().update(i - 1, entry));
        lemma_proceeds_update(entries.drop_first(), i - 1, entry, account);
    }
}

/// Appending an entry for an account that no entry records yet gives that
/// account the appended amount and changes no other account's balance.
pub proof fn lemma_proceeds_push(entries: Seq<ProceedsEntry>, entry: ProceedsEntry, account: Seq<
    char,
>)
    requires
        account_absent(entries, entry.account@),
    ensures
        proceeds_of(entries.push(entry), account) == if account == entry.account@ {
            entry.amount
        } else {
            proceeds_of(entries, account)
        },
    decreases entries.len(),
{
    let pushed = entries.push(entry);
    if entries.len() == 0 {
        assert(pushed[0] == entry);
        assert(pushed.drop_first() =~= Seq::<ProceedsEntry>::empty());
        assert(proceeds_of(pushed.drop_first(), account) == 0);
        assert(proceeds_of(entries, account) == 0);
    } else {
        assert(entries[0].account@ != entry.account@);
        assert(pushed[0] == entries[0]);
        assert(pushed.drop_first() =~= entries.drop_first().push(entry));
        assert forall|j: int|
            0 <= j < entries.drop_first().len() implies entries.drop_first()[j].account@
            != entry.account@ by {
            assert(entries.drop_first()[j] == entries[j + 1]);
        }
        lemma_proceeds_push(entries.drop_first(), entry, account);
        assert(proceeds_of(entries, account) == if entries[0].account@ == account {
            entries[0].amount
        } else {
            proceeds_of(entries.drop_first(), account)
        });
        assert(proceeds_of(pushed, account) == if pushed[0].account@ == account {
            pushed[0].amount
        } else {
            proceeds_of(pushed.drop_first(), account)
        });
    }
}

/// Replacing the entry at `i` moves the sum of all balances by the
/// difference of the amounts.
pub proof fn lemma_escrow_total_update(entries: Seq<ProceedsEntry>, i: int, entry: ProceedsEntry)
    requires
        0 <= i < entries.len(),
    ensures
        escrow_total(entries.update(i, entry)) == escrow_total(entries) - entries[i].amount
            + entry.amount,
    decreases i,
{
    let updated = entries.update(i, entry);
    if i == 0 {
        assert(updated.drop_first() =~= entries.drop_first());
    } else {
        assert(updated.drop_first() =~= entries.drop_first().update(i - 1, entry));
        lemma_escrow_total_update(entries.drop_first(), i - 1, entry);
    }
}

/// Appending an entry raises the sum of all balances by its amount.
pub proof fn lemma_escrow_total_push(entries: Seq<ProceedsEntry>, entry: ProceedsEntry)
    ensures
        escrow_total(entries.push(entry)) == escrow_total(entries) + entry.amount,
    decreases entries.len(),
{
    let pushed = entries.push(entry);
    if entries.len() == 0 {
        assert(pushed[0] == entry);
        assert(pushed.drop_first() =~= Seq::<ProceedsEntry>::empty());
        assert(escrow_total(pushed.drop_first()) == 0);
        assert(escrow_total(entries) == 0);
    } else {
        assert(pushed[0] == entries[0]);
        assert(pushed.drop_first() =~= entries.drop_first().push(entry));
        lemma_escrow_total_push(entries.drop_first(), entry);
    }
}

/// The index of the first entry recording the account, if any.
pub fn proceeds_find(entries: &Vec<ProceedsEntry>, account: &String) -> (r: Option<usize>)
    ensures
        r matches Some(i) ==> i < entries@.len() && entries@[i as int].account@ == account@ && (
        forall|j: int| 0 <= j < i ==> entries@[j].account@ != account@),
        r is None ==> account_absent(entries@, account@),
{
    let mut i: usize = 0;
    while i < entries.len()
        invariant
            0 <= i <= entries@.len(),
            forall|j: int| 0 <= j < i ==> entries@[j].account@ != account@,
        decreases entries@.len() - i,
    {
        if entries[i].account == *account {
            return Some(i);
        }
        i = i + 1;
    }
    None
}

} // verus!

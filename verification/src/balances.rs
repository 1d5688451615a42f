//! The ledger itself: the executable [`Pallet`] and its operations.

use crate::error::TransferError;
use crate::model::{after_transfer, balance_of, refusal, AccountId, Ledger};
use vstd::prelude::*;

verus! {

/// One entry of the ledger: an account and the balance written for it.
struct Entry {
    who: String,
    balance: u128,
}

/// Whether no account has two entries.
spec fn one_entry_each(entries: Seq<Entry>) -> bool {
    forall|i: int, j: int|
        0 <= i < j < entries.len() ==> (#[trigger] entries[i]).who@ != (#[trigger] entries[j]).who@
}

/// Whether `who` has an entry.
spec fn has_entry(entries: Seq<Entry>, who: AccountId) -> bool {
    exists|i: int| 0 <= i < entries.len() && (#[trigger] entries[i]).who@ == who
}

/// The place of an entry of `who`, where it has one.
spec fn entry_of(entries: Seq<Entry>, who: AccountId) -> int {
    choose|i: int| 0 <= i < entries.len() && (#[trigger] entries[i]).who@ == who
}

/// The ledger that a list of entries stands for.
spec fn ledger_of(entries: Seq<Entry>) -> Ledger {
    Map::new(
        |who: AccountId| has_entry(entries, who),
        |who: AccountId| entries[entry_of(entries, who)].balance,
    )
}

/// The balances of all accounts.
///
/// As contracts see it, a `Pallet` is the [`Ledger`] that its view `@` gives.
/// The accounts are kept in a list, in the order in which they were first
/// written and with one entry each, so that reading and writing a balance
/// take time in proportion to the number of accounts. An entry, once made,
/// stays.
pub struct Pallet {
    entries: Vec<Entry>,
}

impl View for Pallet {
    type V = Ledger;

    closed spec fn view(&self) -> Ledger {
        ledger_of(self.entries@)
    }
}

impl Pallet {
    /// No account has two entries.
    #[verifier::type_invariant]
    spec fn well_formed(&self) -> bool {
        one_entry_each(self.entries@)
    }

    /// Creates a ledger in which no account has an entry.
    pub fn new() -> (ledger: Self)
        ensures
            ledger@ == Map::<AccountId, u128>::empty(),
    {
        let ledger = Pallet { entries: Vec::new() };
        assert(ledger@ =~= Map::<AccountId, u128>::empty());
        ledger
    }

    /// Writes `amount` as the balance of `who`, whether or not the account had
    /// an entry before. No other account changes, and the account keeps its
    /// entry also where `amount` is zero.
    pub fn set_balance(&mut self, who: &String, amount: u128)
        ensures
            final(self)@ == old(self)@.insert(who@, amount),
            balance_of(final(self)@, who@) == amount,
    {
        proof {
            use_type_invariant(&*self);
        }
        let mut entries: Vec<Entry> = Vec::new();
        std::mem::swap(&mut entries, &mut self.entries);
        write(&mut entries, who, amount);
        self.entries = entries;
    }

    /// Returns the balance of `who`: the amount last written for that
    /// account, and zero if nothing was ever written for it.
    pub fn get_balance(&self, who: &String) -> (balance: u128)
        ensures
            balance == balance_of(self@, who@),
            !self@.contains_key(who@) ==> balance == 0,
    {
        proof {
            use_type_invariant(self);
        }
        match position(&self.entries, who) {
            Some(i) => self.entries[i].balance,
            None => 0,
        }
    }

    /// Moves `amount` from the balance of `caller` to the balance of `to`.
    ///
    /// The transfer is refused with "Not enough funds." when `caller` holds
    /// less than `amount`, and otherwise with "Overflow error." when the
    /// balance of `to` and `amount` together pass `u128::MAX`. A refused
    /// transfer leaves the ledger as it was. An accepted one writes both
    /// balances, each computed from the ledger as it was; where `caller` and
    /// `to` are the same account, its balance stays what it was.
    pub fn transfer(&mut self, caller: String, to: String, amount: u128) -> (res: Result<
        (),
        &'static str,
    >)
        ensures
            match refusal(old(self)@, caller@, to@, amount) {
                None => res is Ok,
                Some(reason) => res matches Err(msg) && msg@ == reason.text(),
            },
            final(self)@ == after_transfer(old(self)@, caller@, to@, amount),
    {
        let caller_balance = self.get_balance(&caller);
        let to_balance = self.get_balance(&to);
        let new_caller_balance = caller_balance.checked_sub(amount).ok_or(
            TransferError::InsufficientFunds.message(),
        )?;
        let new_to_balance = to_balance.checked_add(amount).ok_or(
            TransferError::Overflow.message(),
        )?;
        if caller == to {
            self.set_balance(&caller, caller_balance);
        } else {
            self.set_balance(&caller, new_caller_balance);
            self.set_balance(&to, new_to_balance);
        }
        Ok(())
    }
}

/// Looks for the entry of `who` and returns its index.
fn position(entries: &Vec<Entry>, who: &String) -> (found: Option<usize>)
    ensures
        match found {
            Some(i) => i < entries@.len() && entries@[i as int].who@ == who@,
            None => !has_entry(entries@, who@),
        },
{
    let mut i: usize = 0;
    while i < entries.len()
        invariant
            i <= entries@.len(),
            forall|k: int| 0 <= k < i ==> (#[trigger] entries@[k]).who@ != who@,
        decreases entries@.len() - i,
    {
        if entries[i].who == *who {
            return Some(i);
        }
        i += 1;
    }
    None
}

/// Writes `amount` into the entry of `who`, which is made if there is none.
fn write(entries: &mut Vec<Entry>, who: &String, amount: u128)
    requires
        one_entry_each(old(entries)@),
    ensures
        one_entry_each(final(entries)@),
        ledger_of(final(entries)@) == ledger_of(old(entries)@).insert(who@, amount),
{
    match position(entries, who) {
        Some(i) => {
            entries[i].balance = amount;
            proof {
                lemma_overwrite(old(entries)@, entries@, i as int);
            }
        },
        None => {
            entries.push(Entry { who: who.clone(), balance: amount });
            proof {
                lemma_append(old(entries)@, entries@.last());
            }
        },
    }
}

/// Where no account has two entries, the ledger holds for each entry's
/// account that entry's balance.
proof fn lemma_entry_is_read(entries: Seq<Entry>, i: int)
    requires
        one_entry_each(entries),
        0 <= i < entries.len(),
    ensures
        ledger_of(entries).contains_key(entries[i].who@),
        ledger_of(entries)[entries[i].who@] == entries[i].balance,
{
    let who = entries[i].who@;
    assert(has_entry(entries, who));
    let j = entry_of(entries, who);
    assert(j == i) by {
        if j < i {
            assert(entries[j].who@ != entries[i].who@);
        } else if i < j {
            assert(entries[i].who@ != entries[j].who@);
        }
    }
}

/// A new balance in the entry at `i` is an insertion for that entry's
/// account.
proof fn lemma_overwrite(before: Seq<Entry>, after: Seq<Entry>, i: int)
    requires
        one_entry_each(before),
        0 <= i < before.len(),
        after.len() == before.len(),
        after[i].who == before[i].who,
        forall|k: int| 0 <= k < before.len() && k != i ==> after[k] == before[k],
    ensures
        one_entry_each(after),
        ledger_of(after) == ledger_of(before).insert(before[i].who@, after[i].balance),
{
    assert forall|a: int, b: int| 0 <= a < b < after.len() implies
        (#[trigger] after[a]).who@ != (#[trigger] after[b]).who@ by {
        assert(before[a].who@ != before[b].who@);
    }
    let wanted = ledger_of(before).insert(before[i].who@, after[i].balance);
    assert forall|who: AccountId|
        ledger_of(after).contains_key(who) <==> wanted.contains_key(who) by {
        if has_entry(before, who) {
            assert(after[entry_of(before, who)].who@ == who);
        }
        if has_entry(after, who) {
            assert(before[entry_of(after, who)].who@ == who);
        }
    }
    assert forall|who: AccountId| ledger_of(after).contains_key(who) implies
        ledger_of(after)[who] == wanted[who] by {
        let k = entry_of(after, who);
        lemma_entry_is_read(after, k);
        lemma_entry_is_read(before, k);
    }
    assert(ledger_of(after) =~= wanted);
}

/// An entry for an account that had none is an insertion for that account.
proof fn lemma_append(before: Seq<Entry>, entry: Entry)
    requires
        one_entry_each(before),
        !has_entry(before, entry.who@),
    ensures
        one_entry_each(before.push(entry)),
        ledger_of(before.push(entry)) == ledger_of(before).insert(entry.who@, entry.balance),
{
    let after = before.push(entry);
    let last = before.len() as int;
    assert forall|a: int, b: int| 0 <= a < b < after.len() implies
        (#[trigger] after[a]).who@ != (#[trigger] after[b]).who@ by {
        if b < last {
            assert(before[a].who@ != before[b].who@);
        } else {
            assert(before[a].who@ != entry.who@);
        }
    }
    let wanted = ledger_of(before).insert(entry.who@, entry.balance);
    assert forall|who: AccountId|
        ledger_of(after).contains_key(who) <==> wanted.contains_key(who) by {
        if has_entry(before, who) {
            assert(after[entry_of(before, who)].who@ == who);
        }
        if has_entry(after, who) && entry_of(after, who) < last {
            assert(before[entry_of(after, who)].who@ == who);
        }
        assert(after[last].who@ == entry.who@);
    }
    assert forall|who: AccountId| ledger_of(after).contains_key(who) implies
        ledger_of(after)[who] == wanted[who] by {
        let k = entry_of(after, who);
        lemma_entry_is_read(after, k);
        if k < last {
            lemma_entry_is_read(before, k);
        }
    }
    assert(ledger_of(after) =~= wanted);
}

} // verus!

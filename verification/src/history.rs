//! Ledgers as they come about: by a run of writes and transfers on a new
//! ledger.
//!
//! [`Pallet::set_balance`](crate::Pallet::set_balance) and
//! [`Pallet::transfer`](crate::Pallet::transfer) are the only operations that
//! change a ledger, and their contracts say that each takes a ledger `l` to
//! [`Operation::apply`] of `l`. So every ledger that a program can hold is
//! the [`replay`] of some history.

use crate::model::{after_transfer, balance_of, refusal, AccountId, Ledger};
use vstd::prelude::*;

verus! {

/// One operation that may change a ledger, with its arguments.
pub enum Operation {
    /// `amount` is written as the balance of `who`.
    SetBalance { who: AccountId, amount: u128 },
    /// A transfer of `amount` from `caller` to `to` is asked for.
    Transfer { caller: AccountId, to: AccountId, amount: u128 },
}

impl Operation {
    /// The ledger that the operation makes of `ledger`.
    pub open spec fn apply(self, ledger: Ledger) -> Ledger {
        match self {
            Operation::SetBalance { who, amount } => ledger.insert(who, amount),
            Operation::Transfer { caller, to, amount } => after_transfer(
                ledger,
                caller,
                to,
                amount,
            ),
        }
    }

    /// Whether the operation, on `ledger`, writes a balance for `who`: a
    /// write does so for its account, an accepted transfer for its two
    /// parties, and a refused transfer for nobody.
    pub open spec fn writes(self, ledger: Ledger, who: AccountId) -> bool {
        match self {
            Operation::SetBalance { who: written, .. } => written == who,
            Operation::Transfer { caller, to, amount } => {
                &&& refusal(ledger, caller, to, amount) is None
                &&& (caller == who || to == who)
            },
        }
    }
}

/// The ledger after the operations of `history`, in their order, on a new
/// ledger.
pub open spec fn replay(history: Seq<Operation>) -> Ledger
    decreases history.len(),
{
    if history.len() == 0 {
        Map::empty()
    } else {
        history.last().apply(replay(history.drop_last()))
    }
}

/// Whether no operation of `history` writes a balance for `who`, each taken
/// on the ledger that the operations before it have made.
pub open spec fn never_written(history: Seq<Operation>, who: AccountId) -> bool {
    forall|i: int|
        0 <= i < history.len() ==> !(#[trigger] history[i]).writes(replay(history.take(i)), who)
}

/// Whatever has happened to a ledger since it was new, an account for which
/// no balance was written in that time has no entry and a balance of zero.
pub proof fn law_never_written_account_holds_nothing(history: Seq<Operation>, who: AccountId)
    requires
        never_written(history, who),
    ensures
        !replay(history).contains_key(who),
        balance_of(replay(history), who) == 0,
    decreases history.len(),
{
    if history.len() > 0 {
        let earlier = history.drop_last();
        assert forall|i: int| 0 <= i < earlier.len() implies !(#[trigger] earlier[i]).writes(
            replay(earlier.take(i)),
            who,
        ) by {
            assert(earlier.take(i) == history.take(i));
            assert(earlier[i] == history[i]);
        }
        law_never_written_account_holds_nothing(earlier, who);
        assert(history.take(history.len() - 1) == earlier);
        assert(!history.last().writes(replay(earlier), who));
    }
}

/// Whatever has happened to a ledger since it was new, an account for which
/// a balance was written in that time has an entry: entries are made and
/// never taken away.
pub proof fn law_written_account_keeps_entry(history: Seq<Operation>, who: AccountId)
    requires
        !never_written(history, who),
    ensures
        replay(history).contains_key(who),
    decreases history.len(),
{
    let earlier = history.drop_last();
    let i = choose|i: int|
        0 <= i < history.len() && (#[trigger] history[i]).writes(replay(history.take(i)), who);
    if i == history.len() - 1 {
        assert(history.take(i) == earlier);
    } else {
        assert(earlier.take(i) == history.take(i));
        assert(earlier[i] == history[i]);
        law_written_account_keeps_entry(earlier, who);
    }
}

} // verus!

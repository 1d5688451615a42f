//! The mathematical model of the ledger: a map from account identifiers to
//! balances, and what each operation means on it.

use crate::error::TransferError;
use vstd::prelude::*;

verus! {

/// An account identifier as contracts see it: the characters of its name.
pub type AccountId = Seq<char>;

/// What a ledger is: the balances that have been written, by account.
///
/// An account has an entry from the first time a balance is written for it,
/// and keeps it: nothing removes an entry.
pub type Ledger = Map<AccountId, u128>;

/// The balance of `who` in `ledger`: what was last written for that account,
/// and zero for an account that has no entry.
pub open spec fn balance_of(ledger: Ledger, who: AccountId) -> u128 {
    if ledger.contains_key(who) {
        ledger[who]
    } else {
        0
    }
}

/// Why a transfer of `amount` from `caller` to `to` is refused, if it is.
///
/// The sender's funds are examined first and the recipient's room second,
/// both on the balances before the transfer, also when the two accounts are
/// the same.
pub open spec fn refusal(ledger: Ledger, caller: AccountId, to: AccountId, amount: u128) -> Option<
    TransferError,
> {
    if balance_of(ledger, caller) < amount {
        Some(TransferError::InsufficientFunds)
    } else if balance_of(ledger, to) + amount > u128::MAX {
        Some(TransferError::Overflow)
    } else {
        None
    }
}

/// The ledger once `amount` has moved from `caller` to `to`.
///
/// Between two different accounts the sender loses the amount and the
/// recipient gains it, each counted from its balance before the transfer. An
/// account that pays itself keeps its balance, which is written back as it
/// was.
pub open spec fn moved(ledger: Ledger, caller: AccountId, to: AccountId, amount: u128) -> Ledger {
    if caller == to {
        ledger.insert(caller, balance_of(ledger, caller))
    } else {
        ledger.insert(caller, (balance_of(ledger, caller) - amount) as u128).insert(
            to,
            (balance_of(ledger, to) + amount) as u128,
        )
    }
}

/// The ledger after a transfer of `amount` from `caller` to `to` was asked
/// for: unchanged where the transfer is refused, and with the amount moved
/// where it is not.
pub open spec fn after_transfer(
    ledger: Ledger,
    caller: AccountId,
    to: AccountId,
    amount: u128,
) -> Ledger {
    if refusal(ledger, caller, to, amount) is Some {
        ledger
    } else {
        moved(ledger, caller, to, amount)
    }
}

} // verus!

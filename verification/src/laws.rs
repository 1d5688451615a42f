//! What holds of the ledger's operations, stated over the model and proved.
//!
//! [`Pallet::new`](crate::Pallet::new) returns the empty ledger,
//! [`Pallet::set_balance`](crate::Pallet::set_balance) is an insertion into
//! the ledger, [`Pallet::get_balance`](crate::Pallet::get_balance) returns
//! [`balance_of`], and [`Pallet::transfer`](crate::Pallet::transfer) answers
//! by [`refusal`] and leaves the ledger [`after_transfer`]. The laws below
//! speak of these.

use crate::error::TransferError;
use crate::model::{after_transfer, balance_of, refusal, AccountId, Ledger};
use vstd::prelude::*;

verus! {

/// In a new ledger every account has a balance of zero.
pub proof fn law_new_ledger_holds_nothing(who: AccountId)
    ensures
        balance_of(Map::<AccountId, u128>::empty(), who) == 0,
{
}

/// An account for which nothing was ever written has a balance of zero.
pub proof fn law_unwritten_account_holds_nothing(ledger: Ledger, who: AccountId)
    requires
        !ledger.contains_key(who),
    ensures
        balance_of(ledger, who) == 0,
{
}

/// After `amount` is written for `who`, the balance of `who` is exactly
/// `amount`, whatever it was before.
pub proof fn law_written_balance_is_read(ledger: Ledger, who: AccountId, amount: u128)
    ensures
        balance_of(ledger.insert(who, amount), who) == amount,
{
}

/// Writing a balance for `who` gives `who` an entry, also where the balance
/// is zero, and changes neither the balance nor the entry of any other
/// account.
pub proof fn law_write_touches_one_account(
    ledger: Ledger,
    who: AccountId,
    amount: u128,
    other: AccountId,
)
    requires
        other != who,
    ensures
        ledger.insert(who, amount).contains_key(who),
        ledger.insert(who, amount).contains_key(other) == ledger.contains_key(other),
        balance_of(ledger.insert(who, amount), other) == balance_of(ledger, other),
{
}

/// A transfer of more than the sender holds is refused for insufficient
/// funds, and the balances of sender and recipient stay what they were.
pub proof fn law_overdraft_is_refused(
    ledger: Ledger,
    caller: AccountId,
    to: AccountId,
    amount: u128,
)
    requires
        balance_of(ledger, caller) < amount,
    ensures
        refusal(ledger, caller, to, amount) == Some(TransferError::InsufficientFunds),
        after_transfer(ledger, caller, to, amount) == ledger,
        balance_of(after_transfer(ledger, caller, to, amount), caller) == balance_of(
            ledger,
            caller,
        ),
        balance_of(after_transfer(ledger, caller, to, amount), to) == balance_of(ledger, to),
{
}

/// A transfer that the sender can pay and the recipient can hold is
/// accepted. Between two different accounts the sender's balance falls by
/// exactly the amount and the recipient's rises by exactly the amount, so
/// that their sum stays what it was. The same holds of a transfer of nothing
/// from an account to itself.
pub proof fn law_transfer_moves_amount(
    ledger: Ledger,
    caller: AccountId,
    to: AccountId,
    amount: u128,
)
    requires
        balance_of(ledger, caller) >= amount,
        balance_of(ledger, to) + amount <= u128::MAX,
        caller != to || amount == 0,
    ensures
        refusal(ledger, caller, to, amount) is None,
        balance_of(after_transfer(ledger, caller, to, amount), caller) == balance_of(
            ledger,
            caller,
        ) - amount,
        balance_of(after_transfer(ledger, caller, to, amount), to) == balance_of(ledger, to)
            + amount,
        balance_of(after_transfer(ledger, caller, to, amount), caller) + balance_of(
            after_transfer(ledger, caller, to, amount),
            to,
        ) == balance_of(ledger, caller) + balance_of(ledger, to),
{
}

/// An account that pays itself an amount that it holds, and that its balance
/// has room for, is not refused and keeps its balance.
pub proof fn law_self_transfer_keeps_balance(ledger: Ledger, who: AccountId, amount: u128)
    requires
        balance_of(ledger, who) >= amount,
        balance_of(ledger, who) + amount <= u128::MAX,
    ensures
        refusal(ledger, who, who, amount) is None,
        balance_of(after_transfer(ledger, who, who, amount), who) == balance_of(ledger, who),
{
}

/// A transfer that the sender can pay, but that would take the recipient's
/// balance past `u128::MAX`, is refused for overflow, and the balances of
/// sender and recipient stay what they were.
pub proof fn law_overflow_is_refused(
    ledger: Ledger,
    caller: AccountId,
    to: AccountId,
    amount: u128,
)
    requires
        balance_of(ledger, caller) >= amount,
        balance_of(ledger, to) + amount > u128::MAX,
    ensures
        refusal(ledger, caller, to, amount) == Some(TransferError::Overflow),
        after_transfer(ledger, caller, to, amount) == ledger,
        balance_of(after_transfer(ledger, caller, to, amount), caller) == balance_of(
            ledger,
            caller,
        ),
        balance_of(after_transfer(ledger, caller, to, amount), to) == balance_of(ledger, to),
{
}

/// A transfer of nothing is always accepted, and leaves every balance what
/// it was.
pub proof fn law_transfer_of_nothing_is_accepted(
    ledger: Ledger,
    caller: AccountId,
    to: AccountId,
    other: AccountId,
)
    ensures
        refusal(ledger, caller, to, 0) is None,
        balance_of(after_transfer(ledger, caller, to, 0), other) == balance_of(ledger, other),
{
}

/// Whether or not a transfer is accepted, the balances of sender and
/// recipient add up to what they added up to before.
pub proof fn law_transfer_conserves(
    ledger: Ledger,
    caller: AccountId,
    to: AccountId,
    amount: u128,
)
    ensures
        balance_of(after_transfer(ledger, caller, to, amount), caller) + balance_of(
            after_transfer(ledger, caller, to, amount),
            to,
        ) == balance_of(ledger, caller) + balance_of(ledger, to),
{
}

/// A transfer changes neither the balance nor the entry of an account that
/// is not a party to it, and takes no account's entry away.
pub proof fn law_transfer_touches_two_accounts(
    ledger: Ledger,
    caller: AccountId,
    to: AccountId,
    amount: u128,
    other: AccountId,
)
    ensures
        other != caller && other != to ==> {
            &&& balance_of(after_transfer(ledger, caller, to, amount), other) == balance_of(
                ledger,
                other,
            )
            &&& after_transfer(ledger, caller, to, amount).contains_key(other)
                == ledger.contains_key(other)
        },
        ledger.contains_key(other) ==> after_transfer(ledger, caller, to, amount).contains_key(
            other,
        ),
{
}

/// The two refusals are reported in different words, so that the words tell
/// which of them happened.
pub proof fn law_refusals_are_told_apart()
    ensures
        TransferError::InsufficientFunds.text() != TransferError::Overflow.text(),
{
    reveal_strlit("Not enough funds.");
    reveal_strlit("Overflow error.");
    assert(TransferError::InsufficientFunds.text().len() == 17);
    assert(TransferError::Overflow.text().len() == 15);
}

} // verus!

//! The reasons for which a transfer is refused.

use vstd::prelude::*;

verus! {

/// Why a transfer was refused.
#[derive(Clone, Copy, Debug, PartialEq, Eq)]
pub enum TransferError {
    /// The sender holds less than the amount to move.
    InsufficientFunds,
    /// The recipient's balance and the amount together pass the largest
    /// balance that can be held.
    Overflow,
}

impl TransferError {
    /// The words in which the refusal is reported.
    pub open spec fn text(self) -> Seq<char> {
        match self {
            TransferError::InsufficientFunds => "Not enough funds."@,
            TransferError::Overflow => "Overflow error."@,
        }
    }

    /// Returns the words in which the refusal is reported.
    pub fn message(&self) -> (msg: &'static str)
        ensures
            msg@ == self.text(),
    {
        match self {
            TransferError::InsufficientFunds => "Not enough funds.",
            TransferError::Overflow => "Overflow error.",
        }
    }
}

} // verus!

//! An in-memory ledger of account balances.
//!
//! A [`Pallet`] maps account identifiers to unsigned 128-bit balances. An
//! account that was never written holds a balance of zero. Value moves
//! between accounts with [`Pallet::transfer`], which refuses to overdraw the
//! sender or to overflow the recipient and changes nothing when it refuses.
//!
//! Every contract is stated over [`model::Ledger`], the mathematical map that
//! a `Pallet` stands for. The module [`model`] says what each operation means
//! on that map, [`laws`] proves what follows for a single operation, and
//! [`history`] what follows for every ledger that a run of operations can
//! make.

pub mod balances;
pub mod error;
pub mod history;
pub mod laws;
pub mod model;

pub use balances::Pallet;
pub use error::TransferError;

//! A custodial escrow engine: two parties exchange two asset balances through
//! a vault whose only authority is an address derived from the maker and a
//! per-escrow seed.
//!
//! Each operation is a validation over the accounts it is handed, which
//! either refuses with an error or yields a plan of effects; `ledger::execute`
//! performs a plan as one unit on a model of those accounts.

/// Derived custody addresses and the programs' own addresses.
pub mod address;
/// Why an operation is refused.
pub mod error;
/// Checks shared by every operation.
pub mod gate;
/// Decoding of the engine's instructions.
pub mod instruction;
/// Properties of the lifecycle, proved over the operations' contracts.
pub mod laws;
/// Accounts, planned effects, and their all-or-nothing execution.
pub mod ledger;
/// Creating an escrow.
pub mod make;
/// The escrow record and its byte layout.
pub mod record;
/// Cancelling an escrow.
pub mod refund;
/// Fulfilling an escrow.
pub mod take;
/// A single-owner vault: deposit and withdraw.
pub mod vault;

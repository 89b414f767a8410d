//! The reasons for which an operation is refused.

use vstd::prelude::*;

verus! {

/// Why a settlement operation was refused.
#[derive(Clone, Copy, Debug, PartialEq, Eq, Structural)]
pub enum SettlementError {
    /// An amount of zero where tokens must move, or a proposal that says nothing.
    InvalidArgument,
    /// An arithmetic result that does not fit in 64 bits, or falls below zero.
    Overflow,
    /// The paying holding has fewer tokens than must leave it.
    InsufficientFunds,
    /// The treasury has fewer tokens than the cashback owed.
    InsufficientTreasuryFunds,
    /// The acting identity does not control the holding or record it acts on.
    Unauthorized,
}

} // verus!

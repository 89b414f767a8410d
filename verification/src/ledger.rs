//! Token holdings and the one way tokens move between them. The ledger that
//! keeps the real balances lies outside this library; what stands here is
//! what a transfer on it must do, so that every operation can say what it
//! leaves behind before the ledger is asked to act.

use vstd::prelude::*;
use anchor_lang::prelude::Pubkey;
use crate::error::SettlementError;
use crate::identity::same_key;

verus! {

/// A balance of the platform token and the identity that controls it.
#[derive(Clone, Copy, Debug, PartialEq, Eq)]
pub struct TokenHolding {
    /// The identity in whose name tokens may leave the holding.
    pub owner: Pubkey,
    /// The tokens held.
    pub balance: u64,
}

/// The two holdings after a transfer, the debited one first, or the reason
/// for which the transfer is refused. Funds are checked first, then the
/// authority, then the room left in the receiving holding.
pub open spec fn transfer_outcome(
    from: TokenHolding,
    to: TokenHolding,
    authority: Pubkey,
    amount: u64,
) -> Result<(TokenHolding, TokenHolding), SettlementError> {
    if from.balance < amount {
        Err(SettlementError::InsufficientFunds)
    } else if authority != from.owner {
        Err(SettlementError::Unauthorized)
    } else if to.balance + amount > u64::MAX {
        Err(SettlementError::Overflow)
    } else {
        Ok(
            (
                TokenHolding { owner: from.owner, balance: (from.balance - amount) as u64 },
                TokenHolding { owner: to.owner, balance: (to.balance + amount) as u64 },
            ),
        )
    }
}

/// Moves `amount` tokens from `from` to `to` in the name of `authority`. The
/// transfer is all or nothing, and the two balances together are the same
/// before and after it.
pub fn transfer(
    from: &mut TokenHolding,
    to: &mut TokenHolding,
    authority: &Pubkey,
    amount: u64,
) -> (result: Result<(), SettlementError>)
    ensures
        match transfer_outcome(*old(from), *old(to), *authority, amount) {
            Ok((debited, credited)) => result is Ok && *final(from) == debited && *final(to)
                == credited,
            Err(e) => result == Err::<(), SettlementError>(e) && *final(from) == *old(from)
                && *final(to) == *old(to),
        },
        final(from).balance + final(to).balance == old(from).balance + old(to).balance,
{
    if from.balance < amount {
        return Err(SettlementError::InsufficientFunds);
    }
    if !same_key(authority, &from.owner) {
        return Err(SettlementError::Unauthorized);
    }
    match to.balance.checked_add(amount) {
        None => Err(SettlementError::Overflow),
        Some(credited) => {
            from.balance = from.balance - amount;
            to.balance = credited;
            Ok(())
        },
    }
}

} // verus!

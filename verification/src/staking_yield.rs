//! Deposits into the staking pool, tracked per user, and the claim of yield
//! on them.

use vstd::prelude::*;
use anchor_lang::prelude::Pubkey;
use crate::error::SettlementError;
use crate::identity::same_key;
use crate::ledger::{transfer, transfer_outcome, TokenHolding};

verus! {

/// What one user has staked so far.
#[derive(Clone, Copy, Debug, PartialEq, Eq)]
pub struct StakeAccount {
    /// The identity that staked last; the record is theirs.
    pub user: Pubkey,
    /// The principal: the sum of all deposits into this record.
    pub amount: u64,
}

/// Everything one deposit reads and writes.
#[derive(Clone, Copy, Debug, PartialEq, Eq)]
pub struct Stake {
    /// The record that accumulates the deposits.
    pub stake: StakeAccount,
    /// The identity that stakes and authorizes the transfer.
    pub user: Pubkey,
    /// The holding that is debited.
    pub user_token: TokenHolding,
    /// The pool's holding, which is credited.
    pub pool_token: TokenHolding,
}

/// Everything a claim of yield reads.
#[derive(Clone, Copy, Debug, PartialEq, Eq)]
pub struct ClaimYield {
    /// The record whose yield is claimed.
    pub stake: StakeAccount,
    /// The identity that claims.
    pub user: Pubkey,
}

/// The answer to an authorized claim of yield.
#[derive(Clone, Copy, Debug, PartialEq, Eq, Structural)]
pub enum YieldClaim {
    /// No rule for accruing yield is defined, so nothing was computed and
    /// nothing was paid.
    NotImplemented,
}

/// The state after a deposit of `amount`, or the reason for which the deposit
/// is refused.
pub open spec fn stake_outcome(ctx: Stake, amount: u64) -> Result<Stake, SettlementError> {
    if amount == 0 {
        Err(SettlementError::InvalidArgument)
    } else if ctx.stake.amount + amount > u64::MAX {
        Err(SettlementError::Overflow)
    } else {
        match transfer_outcome(ctx.user_token, ctx.pool_token, ctx.user, amount) {
            Err(e) => Err(e),
            Ok((user_token, pool_token)) => Ok(
                (Stake {
                    stake: StakeAccount {
                        user: ctx.user,
                        amount: (ctx.stake.amount + amount) as u64,
                    },
                    user: ctx.user,
                    user_token,
                    pool_token,
                }),
            ),
        }
    }
}

/// Deposits `amount` into the pool: moves the tokens from the user's holding
/// and adds them to the principal of the record, which takes the staker's
/// identity whoever held it before. A refused deposit changes nothing.
pub fn stake(ctx: &mut Stake, amount: u64) -> (result: Result<(), SettlementError>)
    ensures
        match stake_outcome(*old(ctx), amount) {
            Ok(after) => result is Ok && *final(ctx) == after,
            Err(e) => result == Err::<(), SettlementError>(e) && *final(ctx) == *old(ctx),
        },
        final(ctx).stake.amount >= old(ctx).stake.amount,
        final(ctx).user_token.balance + final(ctx).pool_token.balance == old(
            ctx,
        ).user_token.balance + old(ctx).pool_token.balance,
{
    if amount == 0 {
        return Err(SettlementError::InvalidArgument);
    }
    let principal = match ctx.stake.amount.checked_add(amount) {
        Some(principal) => principal,
        None => { return Err(SettlementError::Overflow); },
    };
    let staker = ctx.user;
    match transfer(&mut ctx.user_token, &mut ctx.pool_token, &staker, amount) {
        Ok(()) => {},
        Err(e) => { return Err(e); },
    }
    ctx.stake.amount = principal;
    ctx.stake.user = staker;
    Ok(())
}

/// The answer to a claim of yield: only the identity of the record may claim,
/// and what it is told is that no yield is computed.
pub open spec fn claim_yield_outcome(ctx: ClaimYield) -> Result<YieldClaim, SettlementError> {
    if ctx.user == ctx.stake.user {
        Ok(YieldClaim::NotImplemented)
    } else {
        Err(SettlementError::Unauthorized)
    }
}

/// Answers a claim of yield. The record is only read: the principal cannot
/// change, and no tokens move.
pub fn claim_yield(ctx: &ClaimYield) -> (result: Result<YieldClaim, SettlementError>)
    ensures
        result == claim_yield_outcome(*ctx),
{
    if same_key(&ctx.user, &ctx.stake.user) {
        Ok(YieldClaim::NotImplemented)
    } else {
        Err(SettlementError::Unauthorized)
    }
}

/// Deposits add up: where two deposits in a row both succeed, the principal
/// has grown by the sum of the two, and the record belongs to the staker.
pub proof fn lemma_stakes_accumulate(ctx: Stake, first: u64, second: u64)
    ensures
        stake_outcome(ctx, first) is Ok && stake_outcome(
            stake_outcome(ctx, first)->Ok_0,
            second,
        ) is Ok ==> {
            let after = stake_outcome(stake_outcome(ctx, first)->Ok_0, second)->Ok_0;
            &&& after.stake.amount == ctx.stake.amount + first + second
            &&& after.stake.user == ctx.user
            &&& after.user_token.balance == ctx.user_token.balance - first - second
            &&& after.pool_token.balance == ctx.pool_token.balance + first + second
        },
{
}

/// A deposit that succeeds raises the principal by exactly its amount, so the
/// principal only ever grows.
pub proof fn lemma_principal_never_falls(ctx: Stake, amount: u64)
    ensures
        stake_outcome(ctx, amount) matches Ok(after) ==> after.stake.amount == ctx.stake.amount
            + amount && after.stake.amount > ctx.stake.amount,
{
}

} // verus!

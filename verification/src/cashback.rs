//! Cashback from the treasury to a user, at a rate that the user's balance
//! decides.

use vstd::prelude::*;
use anchor_lang::prelude::Pubkey;
use crate::error::SettlementError;
use crate::ledger::{transfer, transfer_outcome, TokenHolding};
use crate::primitives::{percentage, tier_rate};

verus! {

/// The balance above which a holder earns the premium rate.
pub const TIER_THRESHOLD: u64 = 10_000;

/// The cashback rate, in percent, for a balance above the threshold.
pub const PREMIUM_RATE: u8 = 5;

/// The cashback rate, in percent, for every other balance.
pub const STANDARD_RATE: u8 = 2;

/// The record of the cashback last paid to a user.
#[derive(Clone, Copy, Debug, PartialEq, Eq, Structural)]
pub struct Cashback {
    /// The tokens paid back.
    pub amount: u64,
}

/// Everything one cashback payout reads and writes.
#[derive(Clone, Copy, Debug, PartialEq, Eq)]
pub struct ApplyCashback {
    /// The record that the payout overwrites.
    pub cashback: Cashback,
    /// The identity that asks for the cashback.
    pub user: Pubkey,
    /// The user's holding: its balance decides the tier, and it is credited.
    pub user_token: TokenHolding,
    /// The treasury's holding, which is debited.
    pub treasury_token: TokenHolding,
    /// The identity in whose name the treasury pays.
    pub treasury_authority: Pubkey,
}

/// The cashback rate for a balance, in percent: five strictly above ten
/// thousand tokens, two otherwise.
pub open spec fn cashback_rate_of(balance: u64) -> u8 {
    if balance > 10_000 {
        5
    } else {
        2
    }
}

/// The cashback on `amount` for a holder with `balance`, rounded down.
pub open spec fn cashback_of(amount: u64, balance: u64) -> int {
    (amount * cashback_rate_of(balance)) / 100
}

/// The state after a cashback payout on `amount`, or the reason for which the
/// payout is refused.
pub open spec fn cashback_outcome(ctx: ApplyCashback, amount: u64) -> Result<
    ApplyCashback,
    SettlementError,
> {
    if amount * cashback_rate_of(ctx.user_token.balance) > u64::MAX {
        Err(SettlementError::Overflow)
    } else {
        match transfer_outcome(
            ctx.treasury_token,
            ctx.user_token,
            ctx.treasury_authority,
            cashback_of(amount, ctx.user_token.balance) as u64,
        ) {
            Err(SettlementError::InsufficientFunds) => Err(
                SettlementError::InsufficientTreasuryFunds,
            ),
            Err(e) => Err(e),
            Ok((treasury_token, user_token)) => Ok(
                (ApplyCashback {
                    cashback: Cashback {
                        amount: cashback_of(amount, ctx.user_token.balance) as u64,
                    },
                    user: ctx.user,
                    user_token,
                    treasury_token,
                    treasury_authority: ctx.treasury_authority,
                }),
            ),
        }
    }
}

/// Picks the cashback rate that a balance earns.
pub fn cashback_rate(balance: u64) -> (rate: u8)
    ensures
        rate == cashback_rate_of(balance),
        rate == 5 <==> balance > 10_000,
        rate == 2 <==> balance <= 10_000,
{
    tier_rate(balance, TIER_THRESHOLD, PREMIUM_RATE, STANDARD_RATE)
}

/// Pays the cashback on `amount` from the treasury to the user, at the rate
/// that the user's balance earns at this moment, and records what was paid. A
/// refused payout changes nothing.
pub fn apply_cashback(ctx: &mut ApplyCashback, amount: u64) -> (result: Result<
    (),
    SettlementError,
>)
    ensures
        match cashback_outcome(*old(ctx), amount) {
            Ok(after) => result is Ok && *final(ctx) == after,
            Err(e) => result == Err::<(), SettlementError>(e) && *final(ctx) == *old(ctx),
        },
        result is Ok ==> final(ctx).cashback.amount == cashback_of(
            amount,
            old(ctx).user_token.balance,
        ),
        final(ctx).user_token.balance + final(ctx).treasury_token.balance == old(
            ctx,
        ).user_token.balance + old(ctx).treasury_token.balance,
{
    let rate = cashback_rate(ctx.user_token.balance);
    let cashback = match percentage(amount, rate) {
        Ok(cashback) => cashback,
        Err(e) => { return Err(e); },
    };
    let authority = ctx.treasury_authority;
    match transfer(&mut ctx.treasury_token, &mut ctx.user_token, &authority, cashback) {
        Ok(()) => {},
        Err(SettlementError::InsufficientFunds) => {
            return Err(SettlementError::InsufficientTreasuryFunds);
        },
        Err(e) => { return Err(e); },
    }
    ctx.cashback.amount = cashback;
    Ok(())
}

/// The cashback on an amount depends on the amount and the user's balance
/// alone: two payouts on the same amount to users with the same balance pay
/// the same, whatever else differs between them.
pub proof fn lemma_cashback_repeatable(first: ApplyCashback, second: ApplyCashback, amount: u64)
    requires
        first.user_token.balance == second.user_token.balance,
    ensures
        cashback_of(amount, first.user_token.balance) == cashback_of(
            amount,
            second.user_token.balance,
        ),
        cashback_outcome(first, amount) is Ok && cashback_outcome(second, amount) is Ok
            ==> cashback_outcome(first, amount)->Ok_0.cashback == cashback_outcome(
            second,
            amount,
        )->Ok_0.cashback,
{
}

/// What a payout records is the rate's share of the amount, rounded down: two
/// percent up to a balance of ten thousand, five percent above it.
pub proof fn lemma_cashback_formula(ctx: ApplyCashback, amount: u64)
    ensures
        cashback_outcome(ctx, amount) matches Ok(after) ==> after.cashback.amount == (amount * (
        if ctx.user_token.balance > 10_000 {
            5int
        } else {
            2int
        })) / 100,
{
}

} // verus!

//! Arithmetic shared by all settlement operations: shares of an amount at a
//! rate, rounded down, with every product checked against 64 bits.

use vstd::prelude::*;
use crate::error::SettlementError;

verus! {

/// How many basis points make a whole.
pub const BPS_PER_WHOLE: u64 = 10_000;

/// How many percent make a whole.
pub const PERCENT_PER_WHOLE: u64 = 100;

/// The part of `total` that a rate of `bps` basis points takes, rounded down.
pub open spec fn bps_share(total: u64, bps: u64) -> int {
    (total * bps) / 10_000
}

/// The part of `amount` that a rate of `rate` percent takes, rounded down.
pub open spec fn percent_share(amount: u64, rate: u8) -> int {
    (amount * rate) / 100
}

/// The three parts that a total is divided into. They always add up to the total.
#[derive(Clone, Copy, Debug, PartialEq, Eq, Structural)]
pub struct Split {
    /// What is left for the recipient.
    pub net: u64,
    /// The fee taken.
    pub fee: u64,
    /// The part to be burned.
    pub burn: u64,
}

/// The split of `total` at the two rates, or `Overflow` where a product of the
/// total and a rate leaves 64 bits or the two shares together exceed the total.
pub open spec fn split_outcome(total: u64, fee_bps: u64, burn_bps: u64) -> Result<
    Split,
    SettlementError,
> {
    if total * fee_bps > u64::MAX || total * burn_bps > u64::MAX {
        Err(SettlementError::Overflow)
    } else if bps_share(total, fee_bps) + bps_share(total, burn_bps) > total {
        Err(SettlementError::Overflow)
    } else {
        Ok(
            (Split {
                net: (total - bps_share(total, fee_bps) - bps_share(total, burn_bps)) as u64,
                fee: bps_share(total, fee_bps) as u64,
                burn: bps_share(total, burn_bps) as u64,
            }),
        )
    }
}

/// Divides `total` into a fee, a burn and the remainder, with both rates in
/// basis points and both shares rounded down.
pub fn split_amount(total: u64, fee_bps: u64, burn_bps: u64) -> (result: Result<
    Split,
    SettlementError,
>)
    ensures
        result == split_outcome(total, fee_bps, burn_bps),
        result matches Ok(split) ==> split.net + split.fee + split.burn == total,
{
    let fee_product = match total.checked_mul(fee_bps) {
        Some(product) => product,
        None => { return Err(SettlementError::Overflow); },
    };
    let burn_product = match total.checked_mul(burn_bps) {
        Some(product) => product,
        None => { return Err(SettlementError::Overflow); },
    };
    let fee: u64 = fee_product / BPS_PER_WHOLE;
    let burn: u64 = burn_product / BPS_PER_WHOLE;
    let taken: u64 = fee + burn;
    if taken > total {
        return Err(SettlementError::Overflow);
    }
    Ok(Split { net: total - taken, fee, burn })
}

/// The rate for a balance: the high one strictly above the threshold, the low
/// one at the threshold and below it.
pub open spec fn tier_rate_of(balance: u64, threshold: u64, high_rate: u8, low_rate: u8) -> u8 {
    if balance > threshold {
        high_rate
    } else {
        low_rate
    }
}

/// Picks the rate that a balance earns.
pub fn tier_rate(balance: u64, threshold: u64, high_rate: u8, low_rate: u8) -> (rate: u8)
    ensures
        rate == tier_rate_of(balance, threshold, high_rate, low_rate),
{
    if balance > threshold {
        high_rate
    } else {
        low_rate
    }
}

/// `rate` percent of `amount`, rounded down, or `Overflow` where the product of
/// the two leaves 64 bits.
pub open spec fn percentage_outcome(amount: u64, rate: u8) -> Result<u64, SettlementError> {
    if amount * rate > u64::MAX {
        Err(SettlementError::Overflow)
    } else {
        Ok(percent_share(amount, rate) as u64)
    }
}

/// Computes `rate` percent of `amount`, multiplying before dividing.
pub fn percentage(amount: u64, rate: u8) -> (result: Result<u64, SettlementError>)
    ensures
        result == percentage_outcome(amount, rate),
{
    match amount.checked_mul(rate as u64) {
        Some(product) => Ok(product / PERCENT_PER_WHOLE),
        None => Err(SettlementError::Overflow),
    }
}

/// A rate of a hundred basis points takes a hundredth and a rate of ten a
/// thousandth, rounded down in both cases.
pub proof fn lemma_bps_share_of_round_rates(total: u64)
    ensures
        bps_share(total, 100) == total / 100,
        bps_share(total, 10) == total / 1000,
{
}

} // verus!

//! Payments from a user to a restaurant. Of each payment a fee of one percent
//! and a burn of a tenth of a percent are computed; the remainder is moved.

use vstd::prelude::*;
use anchor_lang::prelude::Pubkey;
use crate::error::SettlementError;
use crate::ledger::{transfer, transfer_outcome, TokenHolding};
use crate::primitives::{lemma_bps_share_of_round_rates, split_amount};

verus! {

/// The platform fee on a payment, in basis points: one percent.
pub const FEE_BPS: u64 = 100;

/// The part of a payment that is to be burned, in basis points: a tenth of a percent.
pub const BURN_BPS: u64 = 10;

/// The fee on a payment of `amount`: a hundredth, rounded down.
pub open spec fn payment_fee(amount: u64) -> u64 {
    amount / 100
}

/// The burn on a payment of `amount`: a thousandth, rounded down.
pub open spec fn payment_burn(amount: u64) -> u64 {
    amount / 1000
}

/// What reaches the restaurant of a payment of `amount`.
pub open spec fn payment_net(amount: u64) -> u64 {
    (amount - payment_fee(amount) - payment_burn(amount)) as u64
}

/// The record of one payment.
#[derive(Clone, Copy, Debug, PartialEq, Eq, Structural)]
pub struct Payment {
    /// The amount the payer was charged for.
    pub amount: u64,
    /// The cashback tier that the caller named; stored, never checked here.
    pub cashback_rate: u8,
    /// The fee computed on the amount.
    pub fee: u64,
    /// The burn computed on the amount.
    pub burn: u64,
}

/// Everything one payment reads and writes.
#[derive(Clone, Copy, Debug, PartialEq, Eq)]
pub struct ProcessPayment {
    /// The record that the payment fills.
    pub payment: Payment,
    /// The identity that pays and authorizes the transfer.
    pub user: Pubkey,
    /// The holding that is debited.
    pub user_token: TokenHolding,
    /// The restaurant's holding, which is credited.
    pub restaurant_token: TokenHolding,
}

/// What a payment moved and what it only computed. The fee and the burn are
/// not taken from the payer: no pool receives the one and nothing destroys
/// the other, so both are reported as unrouted.
#[derive(Clone, Copy, Debug, PartialEq, Eq, Structural)]
pub struct Settlement {
    /// Tokens moved from the payer to the restaurant.
    pub transferred: u64,
    /// The fee, computed and left with the payer.
    pub fee_unrouted: u64,
    /// The burn, computed and left with the payer.
    pub burn_unrouted: u64,
}

/// The state after a payment of `amount` together with its settlement, or the
/// reason for which the payment is refused.
pub open spec fn payment_outcome(ctx: ProcessPayment, amount: u64, cashback_rate: u8) -> Result<
    (ProcessPayment, Settlement),
    SettlementError,
> {
    if amount == 0 {
        Err(SettlementError::InvalidArgument)
    } else if amount * FEE_BPS > u64::MAX {
        Err(SettlementError::Overflow)
    } else {
        match transfer_outcome(
            ctx.user_token,
            ctx.restaurant_token,
            ctx.user,
            payment_net(amount),
        ) {
            Err(e) => Err(e),
            Ok((payer, restaurant)) => Ok(
                (
                    ProcessPayment {
                        payment: Payment {
                            amount,
                            cashback_rate,
                            fee: payment_fee(amount),
                            burn: payment_burn(amount),
                        },
                        user: ctx.user,
                        user_token: payer,
                        restaurant_token: restaurant,
                    },
                    Settlement {
                        transferred: payment_net(amount),
                        fee_unrouted: payment_fee(amount),
                        burn_unrouted: payment_burn(amount),
                    },
                ),
            ),
        }
    }
}

/// Settles a payment of `amount` from the payer to the restaurant: computes
/// the fee and the burn, moves the remainder and fills the payment record. A
/// refused payment changes nothing.
pub fn process_payment(ctx: &mut ProcessPayment, amount: u64, cashback_rate: u8) -> (result: Result<
    Settlement,
    SettlementError,
>)
    ensures
        match payment_outcome(*old(ctx), amount, cashback_rate) {
            Ok((after, settlement)) => result == Ok::<Settlement, SettlementError>(settlement)
                && *final(ctx) == after,
            Err(e) => result == Err::<Settlement, SettlementError>(e) && *final(ctx) == *old(ctx),
        },
        result matches Ok(settlement) ==> settlement.transferred + settlement.fee_unrouted
            + settlement.burn_unrouted == amount,
        final(ctx).user_token.balance + final(ctx).restaurant_token.balance == old(
            ctx,
        ).user_token.balance + old(ctx).restaurant_token.balance,
{
    if amount == 0 {
        return Err(SettlementError::InvalidArgument);
    }
    proof {
        lemma_bps_share_of_round_rates(amount);
    }
    let split = match split_amount(amount, FEE_BPS, BURN_BPS) {
        Ok(split) => split,
        Err(e) => { return Err(e); },
    };
    let payer = ctx.user;
    match transfer(&mut ctx.user_token, &mut ctx.restaurant_token, &payer, split.net) {
        Ok(()) => {},
        Err(e) => { return Err(e); },
    }
    ctx.payment = Payment { amount, cashback_rate, fee: split.fee, burn: split.burn };
    Ok(Settlement { transferred: split.net, fee_unrouted: split.fee, burn_unrouted: split.burn })
}

/// Nothing is lost in a payment: the fee is a hundredth and the burn a
/// thousandth of the amount, both rounded down, the net is what remains, and
/// the three add up to the amount.
pub proof fn lemma_payment_parts_add_up(amount: u64)
    ensures
        payment_fee(amount) == amount / 100,
        payment_burn(amount) == amount / 1000,
        payment_net(amount) == amount - amount / 100 - amount / 1000,
        payment_fee(amount) + payment_burn(amount) + payment_net(amount) == amount,
{
}

/// A payment whose net exceeds the payer's balance is refused for want of
/// funds, whoever authorized it, provided the amount is small enough for the
/// fee to be computed.
pub proof fn lemma_payment_beyond_balance_is_refused(
    ctx: ProcessPayment,
    amount: u64,
    cashback_rate: u8,
)
    requires
        amount * FEE_BPS <= u64::MAX,
        ctx.user_token.balance < payment_net(amount),
    ensures
        payment_outcome(ctx, amount, cashback_rate) == Err::<
            (ProcessPayment, Settlement),
            SettlementError,
        >(SettlementError::InsufficientFunds),
{
}

/// A settled payment debits the payer by the net alone and credits the
/// restaurant by the same: the fee and the burn stay where they were.
pub proof fn lemma_settled_payment_moves_the_net(
    ctx: ProcessPayment,
    amount: u64,
    cashback_rate: u8,
)
    ensures
        payment_outcome(ctx, amount, cashback_rate) matches Ok((after, settlement)) ==> {
            &&& after.user_token.balance == ctx.user_token.balance - payment_net(amount)
            &&& after.restaurant_token.balance == ctx.restaurant_token.balance + payment_net(
                amount,
            )
            &&& after.payment.fee + after.payment.burn + settlement.transferred == amount
            &&& after.payment.amount == amount
            &&& after.payment.cashback_rate == cashback_rate
            &&& ctx.user == ctx.user_token.owner
        },
{
}

} // verus!

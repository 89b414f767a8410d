use anchor_lang::prelude::Pubkey;
use tastefi::error::SettlementError;
use tastefi::ledger::TokenHolding;
use tastefi::payment_processing::{process_payment, Payment, ProcessPayment, Settlement};

fn key(tag: u8) -> Pubkey {
    Pubkey::new_from_array([tag; 32])
}

fn blank_payment() -> Payment {
    Payment { amount: 0, cashback_rate: 0, fee: 0, burn: 0 }
}

fn payment_between(payer_balance: u64, restaurant_balance: u64) -> ProcessPayment {
    ProcessPayment {
        payment: blank_payment(),
        user: key(1),
        user_token: TokenHolding { owner: key(1), balance: payer_balance },
        restaurant_token: TokenHolding { owner: key(2), balance: restaurant_balance },
    }
}

#[test]
fn payment_of_ten_thousand_moves_only_the_net() {
    let mut ctx = payment_between(100_000, 0);
    let settled = process_payment(&mut ctx, 10_000, 5);
    assert_eq!(
        settled,
        Ok(Settlement { transferred: 9_890, fee_unrouted: 100, burn_unrouted: 10 })
    );
    assert_eq!(ctx.payment, Payment { amount: 10_000, cashback_rate: 5, fee: 100, burn: 10 });
    assert_eq!(ctx.restaurant_token.balance, 9_890);
    // The fee and the burn stay with the payer: only the net has left.
    assert_eq!(ctx.user_token.balance, 90_110);
    assert_eq!(ctx.user_token.balance, 100_000 - 9_890);
    assert_ne!(ctx.user_token.balance, 100_000 - 10_000);
    assert_eq!(ctx.user_token.balance + ctx.restaurant_token.balance, 100_000);
}

#[test]
fn payment_beyond_the_balance_is_refused_and_changes_nothing() {
    let mut ctx = payment_between(9_889, 7);
    let before = ctx;
    assert_eq!(process_payment(&mut ctx, 10_000, 2), Err(SettlementError::InsufficientFunds));
    assert_eq!(ctx, before);
}

#[test]
fn payment_needs_the_net_and_no_more() {
    let mut ctx = payment_between(9_890, 0);
    assert!(process_payment(&mut ctx, 10_000, 2).is_ok());
    assert_eq!(ctx.user_token.balance, 0);
    assert_eq!(ctx.restaurant_token.balance, 9_890);
}

#[test]
fn payment_parts_add_up_to_the_amount() {
    for amount in [1u64, 9, 99, 100, 101, 999, 1_000, 1_001, 54_321, 987_654_321] {
        let mut ctx = payment_between(u64::MAX, 0);
        let settled = process_payment(&mut ctx, amount, 2).unwrap();
        assert_eq!(settled.fee_unrouted, amount / 100);
        assert_eq!(settled.burn_unrouted, amount / 1000);
        assert_eq!(settled.transferred, amount - amount / 100 - amount / 1000);
        assert_eq!(settled.transferred + settled.fee_unrouted + settled.burn_unrouted, amount);
        assert_eq!(ctx.payment.fee + ctx.payment.burn + settled.transferred, amount);
    }
}

#[test]
fn payment_too_small_for_a_fee_moves_everything() {
    let mut ctx = payment_between(500, 0);
    assert_eq!(
        process_payment(&mut ctx, 99, 2),
        Ok(Settlement { transferred: 99, fee_unrouted: 0, burn_unrouted: 0 })
    );
    assert_eq!(ctx.payment, Payment { amount: 99, cashback_rate: 2, fee: 0, burn: 0 });
}

#[test]
fn payment_of_nothing_is_refused() {
    let mut ctx = payment_between(500, 3);
    let before = ctx;
    assert_eq!(process_payment(&mut ctx, 0, 2), Err(SettlementError::InvalidArgument));
    assert_eq!(ctx, before);
}

#[test]
fn payment_too_large_for_the_fee_arithmetic_is_refused() {
    let mut ctx = payment_between(u64::MAX, 0);
    let before = ctx;
    assert_eq!(process_payment(&mut ctx, u64::MAX, 2), Err(SettlementError::Overflow));
    assert_eq!(
        process_payment(&mut ctx, u64::MAX / 100 + 1, 2),
        Err(SettlementError::Overflow)
    );
    assert_eq!(ctx, before);
    assert!(process_payment(&mut ctx, u64::MAX / 100, 2).is_ok());
}

#[test]
fn payment_from_a_holding_of_another_is_refused() {
    let mut ctx = payment_between(100_000, 0);
    ctx.user = key(3);
    let before = ctx;
    assert_eq!(process_payment(&mut ctx, 10_000, 2), Err(SettlementError::Unauthorized));
    assert_eq!(ctx, before);
}

#[test]
fn payment_that_would_overfill_the_restaurant_is_refused() {
    let mut ctx = payment_between(100_000, u64::MAX - 9_889);
    let before = ctx;
    assert_eq!(process_payment(&mut ctx, 10_000, 2), Err(SettlementError::Overflow));
    assert_eq!(ctx, before);
}

#[test]
fn payment_stores_the_rate_it_was_given() {
    let mut ctx = payment_between(100_000, 0);
    assert!(process_payment(&mut ctx, 1_000, 77).is_ok());
    assert_eq!(ctx.payment.cashback_rate, 77);
}

#[test]
fn payment_overwrites_the_record() {
    let mut ctx = payment_between(100_000, 0);
    ctx.payment = Payment { amount: 5, cashback_rate: 5, fee: 5, burn: 5 };
    assert!(process_payment(&mut ctx, 2_000, 2).is_ok());
    assert_eq!(ctx.payment, Payment { amount: 2_000, cashback_rate: 2, fee: 20, burn: 2 });
}

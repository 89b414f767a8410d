use anchor_lang::prelude::Pubkey;
use tastefi::error::SettlementError;
use tastefi::ledger::{transfer, TokenHolding};

fn key(tag: u8) -> Pubkey {
    Pubkey::new_from_array([tag; 32])
}

fn holding(owner: u8, balance: u64) -> TokenHolding {
    TokenHolding { owner: key(owner), balance }
}

#[test]
fn transfer_debits_and_credits_the_same_amount() {
    let mut from = holding(1, 500);
    let mut to = holding(2, 40);
    assert_eq!(transfer(&mut from, &mut to, &key(1), 120), Ok(()));
    assert_eq!(from, holding(1, 380));
    assert_eq!(to, holding(2, 160));
    assert_eq!(from.balance + to.balance, 540);
}

#[test]
fn transfer_of_the_whole_balance_empties_the_holding() {
    let mut from = holding(1, 500);
    let mut to = holding(2, 0);
    assert_eq!(transfer(&mut from, &mut to, &key(1), 500), Ok(()));
    assert_eq!(from.balance, 0);
    assert_eq!(to.balance, 500);
}

#[test]
fn transfer_of_nothing_changes_nothing() {
    let mut from = holding(1, 0);
    let mut to = holding(2, 9);
    assert_eq!(transfer(&mut from, &mut to, &key(1), 0), Ok(()));
    assert_eq!(from, holding(1, 0));
    assert_eq!(to, holding(2, 9));
}

#[test]
fn transfer_beyond_the_balance_is_refused() {
    let mut from = holding(1, 119);
    let mut to = holding(2, 40);
    assert_eq!(
        transfer(&mut from, &mut to, &key(1), 120),
        Err(SettlementError::InsufficientFunds)
    );
    assert_eq!(from, holding(1, 119));
    assert_eq!(to, holding(2, 40));
}

#[test]
fn transfer_by_a_stranger_is_refused() {
    let mut from = holding(1, 500);
    let mut to = holding(2, 40);
    assert_eq!(transfer(&mut from, &mut to, &key(2), 120), Err(SettlementError::Unauthorized));
    assert_eq!(transfer(&mut from, &mut to, &key(3), 120), Err(SettlementError::Unauthorized));
    assert_eq!(from, holding(1, 500));
    assert_eq!(to, holding(2, 40));
}

#[test]
fn transfer_tells_keys_apart_by_every_byte() {
    let mut last_byte_off = [1u8; 32];
    last_byte_off[31] = 2;
    let mut from = holding(1, 500);
    let mut to = holding(2, 40);
    assert_eq!(
        transfer(&mut from, &mut to, &Pubkey::new_from_array(last_byte_off), 1),
        Err(SettlementError::Unauthorized)
    );
    assert_eq!(transfer(&mut from, &mut to, &Pubkey::new_from_array([1u8; 32]), 1), Ok(()));
}

#[test]
fn transfer_checks_funds_before_authority() {
    let mut from = holding(1, 5);
    let mut to = holding(2, 0);
    assert_eq!(
        transfer(&mut from, &mut to, &key(9), 6),
        Err(SettlementError::InsufficientFunds)
    );
}

#[test]
fn transfer_that_would_overfill_the_recipient_is_refused() {
    let mut from = holding(1, 10);
    let mut to = holding(2, u64::MAX - 5);
    assert_eq!(transfer(&mut from, &mut to, &key(1), 6), Err(SettlementError::Overflow));
    assert_eq!(from, holding(1, 10));
    assert_eq!(to, holding(2, u64::MAX - 5));
    assert_eq!(transfer(&mut from, &mut to, &key(1), 5), Ok(()));
    assert_eq!(to.balance, u64::MAX);
}

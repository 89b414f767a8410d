//! Settlement rules of a tokenized payment and loyalty platform for
//! restaurants: how a payment is split, which cashback a holder earns, how
//! stakes and votes accumulate. Every operation works on plain values, says
//! in its contract what it leaves behind, and either completes or changes
//! nothing. Moving the tokens on the ledger and storing the records is left
//! to the caller.

pub mod cashback;
pub mod error;
pub mod governance;
pub mod identity;
pub mod ledger;
pub mod menu_storage;
pub mod payment_processing;
pub mod primitives;
pub mod restaurant_dashboard;
pub mod staking_yield;

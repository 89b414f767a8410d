//! The pointer to a restaurant's menu.

use vstd::prelude::*;
use anchor_lang::prelude::Pubkey;
use crate::error::SettlementError;

verus! {

/// Where a restaurant's menu is found.
#[derive(Debug, PartialEq, Eq)]
pub struct MenuData {
    /// The content address of the menu.
    pub ipfs_hash: String,
    /// The restaurant that the menu belongs to.
    pub restaurant: Pubkey,
}

/// Everything the storing of a menu reads and writes.
#[derive(Debug, PartialEq, Eq)]
pub struct StoreMenuData {
    /// The record that is written.
    pub menu: MenuData,
    /// The identity of the restaurant that writes it.
    pub restaurant: Pubkey,
}

/// Writes the record anew: the content address as given, and the writing
/// restaurant as the one the menu belongs to. Whether that identity may write
/// is not decided here.
pub fn store_menu_data(ctx: &mut StoreMenuData, ipfs_hash: String) -> (result: Result<
    (),
    SettlementError,
>)
    ensures
        result is Ok,
        final(ctx).menu == (MenuData { ipfs_hash, restaurant: old(ctx).restaurant }),
        final(ctx).restaurant == old(ctx).restaurant,
{
    ctx.menu.ipfs_hash = ipfs_hash;
    ctx.menu.restaurant = ctx.restaurant;
    Ok(())
}

} // verus!

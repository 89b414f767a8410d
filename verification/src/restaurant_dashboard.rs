//! The profile that a restaurant keeps of itself.

use vstd::prelude::*;
use anchor_lang::prelude::Pubkey;
use crate::error::SettlementError;

verus! {

/// What a restaurant shows of itself.
#[derive(Debug, PartialEq, Eq)]
pub struct RestaurantProfile {
    /// The restaurant's name.
    pub name: String,
    /// The content address of the restaurant's menu.
    pub ipfs_hash: String,
    /// The identity that wrote the profile.
    pub owner: Pubkey,
}

/// Everything an update of a profile reads and writes.
#[derive(Debug, PartialEq, Eq)]
pub struct UpdateRestaurantProfile {
    /// The profile that is written.
    pub restaurant_profile: RestaurantProfile,
    /// The identity that writes it.
    pub owner: Pubkey,
}

/// Writes the profile anew: the name and the content address as given, and
/// the writing identity as its owner. Whether that identity may write is not
/// decided here.
pub fn update_restaurant_profile(
    ctx: &mut UpdateRestaurantProfile,
    name: String,
    ipfs_hash: String,
) -> (result: Result<(), SettlementError>)
    ensures
        result is Ok,
        final(ctx).restaurant_profile == (RestaurantProfile {
            name,
            ipfs_hash,
            owner: old(ctx).owner,
        }),
        final(ctx).owner == old(ctx).owner,
{
    ctx.restaurant_profile.name = name;
    ctx.restaurant_profile.ipfs_hash = ipfs_hash;
    ctx.restaurant_profile.owner = ctx.owner;
    Ok(())
}

} // verus!

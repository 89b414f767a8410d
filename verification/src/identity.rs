//! Identities. Whoever pays, stakes, votes or owns a record is named by a
//! `Pubkey`. The settlement rules never look inside a key: they carry it
//! from one record to another and ask whether two keys are the same.

use vstd::prelude::*;

verus! {

/// `Pubkey`, the 32-byte key that names an identity. Nothing is assumed of
/// what a key holds.
#[verifier::external_type_specification]
#[verifier::external_body]
pub struct ExPubkey(anchor_lang::prelude::Pubkey);

/// Calls `Pubkey`'s `==`, which `Pubkey` derives over its 32 bytes. Taken on
/// trust: the answer is `true` exactly when the two keys are the same key.
#[verifier::external_body]
pub(crate) fn same_key(a: &anchor_lang::prelude::Pubkey, b: &anchor_lang::prelude::Pubkey) -> (same:
    bool)
    ensures
        same == (*a == *b),
{
    a == b
}

} // verus!

use vstd::prelude::*;

use anchor_lang::prelude::Pubkey;

verus! {

/// The address type of the chain, carried through the program's accounts.
#[verifier::external_type_specification]
#[verifier::external_body]
pub struct ExPubkey(anchor_lang::prelude::Pubkey);

/// Calls `==` on two `Pubkey`s. Its impl is the derived `PartialEq` of the
/// 32-byte array the key wraps, so it answers `true` exactly when both are
/// the same key.
#[verifier::external_body]
pub(crate) fn keys_equal(a: &Pubkey, b: &Pubkey) -> (r: bool)
    ensures
        r == (*a == *b),
{
    *a == *b
}

} // verus!

use vstd::prelude::*;
use anchor_lang::AccountDeserialize;

verus! {

/// Whether `anchor_spl::token::Mint::try_deserialize` accepts these bytes as
/// the state of a mint.
pub uninterp spec fn decodes_as_mint(data: Seq<u8>) -> bool;

/// Whether `anchor_spl::token::TokenAccount::try_deserialize` accepts these
/// bytes as the state of a token account.
pub uninterp spec fn decodes_as_token_account(data: Seq<u8>) -> bool;

/// Trusted: calls `anchor_spl::token::Mint::try_deserialize` on the bytes and
/// reports whether it succeeded. The decoder reads nothing but the bytes, so
/// the contract only gives its verdict the name `decodes_as_mint`.
#[verifier::external_body]
pub(crate) fn is_mint(data: &Vec<u8>) -> (ok: bool)
    ensures
        ok == decodes_as_mint(data@),
{
    let mut bytes: &[u8] = data.as_slice();
    anchor_spl::token::Mint::try_deserialize(&mut bytes).is_ok()
}

/// Trusted: calls `anchor_spl::token::TokenAccount::try_deserialize` on the
/// bytes and reports whether it succeeded. The decoder reads nothing but the
/// bytes, so the contract only gives its verdict the name
/// `decodes_as_token_account`.
#[verifier::external_body]
pub(crate) fn is_token_account(data: &Vec<u8>) -> (ok: bool)
    ensures
        ok == decodes_as_token_account(data@),
{
    let mut bytes: &[u8] = data.as_slice();
    anchor_spl::token::TokenAccount::try_deserialize(&mut bytes).is_ok()
}

} // verus!

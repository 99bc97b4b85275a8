//! Read-only view of an external token account, consulted only for the sell
//! operation's before/after reporting: its mint identifier and its balance.

use vstd::prelude::*;
use vstd::bytes::spec_u64_from_le_bytes;
use solana_program::program_pack::Pack;
use crate::ids::AccountId;

verus! {

/// What the sell report reads out of a token account: the mint it belongs to
/// and its `u64` balance.
#[derive(Debug)]
pub struct TokenView {
    pub mint: AccountId,
    pub amount: u64,
}

/// A well-formed optional-field tag of the token-account layout: four bytes,
/// either all zero (absent) or `[1, 0, 0, 0]` (present).
pub open spec fn valid_option_tag(tag: Seq<u8>) -> bool {
    tag == seq![0u8, 0u8, 0u8, 0u8] || tag == seq![1u8, 0u8, 0u8, 0u8]
}

/// A byte image that parses as an initialized token account: exactly 165
/// bytes; the optional-field tags of the delegate (bytes 72..76), native
/// marker (109..113) and close authority (129..133) each well formed; and the
/// state byte at 108 marking the account initialized or frozen.
pub open spec fn valid_token_image(data: Seq<u8>) -> bool {
    &&& data.len() == 165
    &&& valid_option_tag(data.subrange(72, 76))
    &&& valid_option_tag(data.subrange(109, 113))
    &&& valid_option_tag(data.subrange(129, 133))
    &&& (data[108] == 1 || data[108] == 2)
}

/// Relies on `spl_token::state::Account::unpack`: it succeeds exactly on a
/// 165-byte image whose three optional-field tags are well formed and whose
/// state byte marks it initialized or frozen; the mint identifier occupies
/// bytes 0..32 and the amount is the little-endian `u64` in bytes 64..72.
#[verifier::external_body]
fn unpack_token_account(data: &[u8]) -> (r: Option<(Vec<u8>, u64)>)
    ensures
        r matches Some(p) ==> {
            &&& p.0@ == data@.subrange(0, 32)
            &&& p.1 == spec_u64_from_le_bytes(data@.subrange(64, 72))
        },
        r is Some <==> valid_token_image(data@),
{
    match spl_token::state::Account::unpack(data) {
        Ok(acc) => Some((acc.mint.to_bytes().to_vec(), acc.amount)),
        Err(_) => None,
    }
}

/// Parses a raw token-account image into the fields the report consults,
/// exactly when the image is a valid initialized token account.
pub fn read_token_account(data: &[u8]) -> (r: Option<TokenView>)
    ensures
        r matches Some(t) ==> {
            &&& t.mint@ == data@.subrange(0, 32)
            &&& t.mint.wf()
            &&& t.amount == spec_u64_from_le_bytes(data@.subrange(64, 72))
        },
        r is Some <==> valid_token_image(data@),
{
    match unpack_token_account(data) {
        Some((mint_bytes, amount)) => match AccountId::from_bytes(mint_bytes) {
            Some(mint) => Some(TokenView { mint, amount }),
            None => None,
        },
        None => None,
    }
}

/// The balance held by a raw token-account image, exactly when it parses.
pub fn token_balance(data: &[u8]) -> (r: Option<u64>)
    ensures
        r matches Some(a) ==> a == spec_u64_from_le_bytes(data@.subrange(64, 72)),
        r is Some <==> valid_token_image(data@),
{
    match read_token_account(data) {
        Some(t) => Some(t.amount),
        None => None,
    }
}

} // verus!

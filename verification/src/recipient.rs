//! Syntactic validation of the recipient identity against the ledger's
//! address format.

use vstd::prelude::*;

verus! {

use std::str::FromStr;

/// Whether a string parses as a ledger address: a base58 rendering of exactly
/// 32 bytes, at most 44 characters long. The exact set of accepted strings is
/// the parser's; it depends on the characters alone.
pub uninterp spec fn pubkey_accepts(s: Seq<char>) -> bool;

/// Relies on solana_sdk::pubkey::Pubkey::from_str: accepts exactly the
/// base58-encoded 32-byte addresses, deciding by the characters alone.
#[verifier::external_body]
pub(crate) fn recipient_is_valid(public_key: &str) -> (r: bool)
    ensures
        r == pubkey_accepts(public_key@),
{
    solana_sdk::pubkey::Pubkey::from_str(public_key).is_ok()
}

} // verus!

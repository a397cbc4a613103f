//! The ordered gate pipeline of a grant request.
//!
//! A request passes challenge verification, identity parsing and the rate
//! limit in that strict order; the first failing gate decides the outcome
//! and no later gate runs. The two gates that need the ledger — the balance
//! check and the transfer itself — run after these, outside the stores, so
//! a failure there still burns the caller's 24-hour window; that ordering is
//! deliberate, to keep balance-check spam from bypassing the rate limit.

use vstd::prelude::*;

verus! {

use vstd::string::StringExecFns;
use crate::challenge::MathChallengeStore;
use crate::challenge::challenge_after_verify;
use crate::challenge::challenge_grants;
use crate::error::FaucetError;
use crate::rate_limit::RateLimiter;
use crate::rate_limit::acquire_grants;
use crate::rate_limit::acquire_result_map;
use crate::recipient::pubkey_accepts;
use crate::recipient::recipient_is_valid;
use crate::text::client_hint;
use crate::text::rate_limit_key;
use crate::text::spec_client_hint;
use crate::text::spec_rate_key;

/// The fixed amount each grant transfers: one whole token, in lamports.
pub const AIRDROP_LAMPORTS: u64 = 1_000_000_000;

/// What the faucet balance must hold beyond the transfer amount, reserved
/// for the transaction fee.
pub const FEE_RESERVE_LAMPORTS: u64 = 5_000;

/// The view of the optional forwarded-for header value.
pub open spec fn view_forwarded(forwarded: Option<&str>) -> Option<Seq<char>> {
    match forwarded {
        Option::None => Option::None,
        Option::Some(s) => Option::Some(s@),
    }
}

/// The rate-limit key a request is bucketed under: recipient identity and
/// client hint, joined by a colon.
pub open spec fn spec_request_key(public_key: Seq<char>, forwarded: Option<Seq<char>>) -> Seq<
    char,
> {
    spec_rate_key(public_key, spec_client_hint(forwarded))
}

/// The in-memory gates of a grant request, in strict order: challenge
/// verification, then identity parsing, then the rate limit. The first
/// failing gate decides the outcome; `Ok` means all three passed and the
/// request may go on to the ledger.
pub fn run_request_gates(
    math: &mut MathChallengeStore,
    limiter: &mut RateLimiter,
    public_key: &str,
    session_id: &str,
    answer: i32,
    forwarded_for: Option<&str>,
    now: i64,
) -> (r: Result<(), FaucetError>)
    ensures
        final(math)@ == challenge_after_verify(old(math)@, session_id@, answer, now),
        !challenge_grants(old(math)@, session_id@, answer, now) ==> (r matches Err(
            FaucetError::MathVerificationFailed,
        ) && final(limiter)@ == old(limiter)@),
        challenge_grants(old(math)@, session_id@, answer, now) && !pubkey_accepts(public_key@) ==> (
        r matches Err(FaucetError::InvalidPublicKey) && final(limiter)@ == old(limiter)@),
        challenge_grants(old(math)@, session_id@, answer, now) && pubkey_accepts(public_key@) ==> (
        final(limiter)@ == acquire_result_map(
            old(limiter)@,
            spec_request_key(public_key@, view_forwarded(forwarded_for)),
            now,
        ) && (r is Ok <==> acquire_grants(
            old(limiter)@,
            spec_request_key(public_key@, view_forwarded(forwarded_for)),
            now,
        )) && (r is Err ==> r matches Err(FaucetError::RateLimited))),
{
    if !math.verify_answer(session_id, answer, now) {
        return Err(FaucetError::MathVerificationFailed);
    }
    if !recipient_is_valid(public_key) {
        return Err(FaucetError::InvalidPublicKey);
    }
    let hint = client_hint(forwarded_for);
    let key = rate_limit_key(public_key, hint);
    if !limiter.check_and_update(key.as_str(), now) {
        return Err(FaucetError::RateLimited);
    }
    Ok(())
}

/// The balance gate: the faucet must hold the transfer amount plus the fee
/// reserve. Succeeds exactly on a sufficient balance; the only failure is
/// `InsufficientFunds`.
pub fn check_balance(faucet_balance: u64) -> (r: Result<(), FaucetError>)
    ensures
        r is Ok <==> faucet_balance >= AIRDROP_LAMPORTS + FEE_RESERVE_LAMPORTS,
        r is Err ==> r matches Err(FaucetError::InsufficientFunds),
{
    if faucet_balance < AIRDROP_LAMPORTS + FEE_RESERVE_LAMPORTS {
        Err(FaucetError::InsufficientFunds)
    } else {
        Ok(())
    }
}

/// The instruction data of the ledger's system transfer: the transfer
/// discriminant (2) and the amount, each little-endian.
pub fn transfer_instruction_data(lamports: u64) -> (r: Vec<u8>)
    ensures
        r@ == vstd::bytes::spec_u32_to_le_bytes(2u32) + vstd::bytes::spec_u64_to_le_bytes(lamports),
{
    let mut r = vstd::bytes::u32_to_le_bytes(2);
    let mut amount = vstd::bytes::u64_to_le_bytes(lamports);
    r.append(&mut amount);
    r
}

/// What a successful grant answers the client: the transaction signature and
/// a confirmation message naming the recipient.
pub struct AirdropResponse {
    pub signature: String,
    pub message: String,
}

/// Builds the success response for a confirmed transfer.
pub fn grant_response(signature: String, recipient: &str) -> (r: AirdropResponse)
    ensures
        r.signature@ == signature@,
        r.message@ == "Successfully airdropped 1 XNT to "@ + recipient@,
{
    let message = String::from_str("Successfully airdropped 1 XNT to ").concat(recipient);
    AirdropResponse { signature, message }
}

} // verus!

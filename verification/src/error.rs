//! The outcome taxonomy of a failed grant request, with its mapping to HTTP
//! status codes and client-facing messages.

use vstd::prelude::*;

verus! {

use vstd::string::StringExecFns;

/// Every way a grant request can fail. Each variant is terminal: the first
/// failing gate of the pipeline decides the variant and no later gate runs.
#[derive(Debug)]
pub enum FaucetError {
    /// The recipient string does not parse as a ledger address.
    InvalidPublicKey,
    /// The rate-limit key has been granted within the last 24 hours.
    RateLimited,
    /// The ledger collaborator failed; the detail string is its own account
    /// of the failure, surfaced opaquely.
    SolanaError(String),
    /// The faucet balance cannot cover the transfer plus the reserved fee.
    InsufficientFunds,
    /// The math challenge was absent, expired, or answered wrongly.
    MathVerificationFailed,
}

/// The HTTP status that each outcome maps to.
pub open spec fn spec_status_code(e: FaucetError) -> u16 {
    match e {
        FaucetError::InvalidPublicKey => 400,
        FaucetError::RateLimited => 429,
        FaucetError::SolanaError(_) => 500,
        FaucetError::InsufficientFunds => 503,
        FaucetError::MathVerificationFailed => 400,
    }
}

/// The client-facing message of each outcome.
pub open spec fn spec_message(e: FaucetError) -> Seq<char> {
    match e {
        FaucetError::InvalidPublicKey => "Invalid public key format"@,
        FaucetError::RateLimited => "Too many requests, please try again in 24 hours"@,
        FaucetError::SolanaError(detail) => "Solana network error: "@ + detail@,
        FaucetError::InsufficientFunds => "Insufficient funds"@,
        FaucetError::MathVerificationFailed => "Math challenge verification failed"@,
    }
}

impl FaucetError {
    pub fn status_code(&self) -> (code: u16)
        ensures
            code == spec_status_code(*self),
    {
        match self {
            FaucetError::InvalidPublicKey => 400,
            FaucetError::RateLimited => 429,
            FaucetError::SolanaError(_) => 500,
            FaucetError::InsufficientFunds => 503,
            FaucetError::MathVerificationFailed => 400,
        }
    }

    pub fn message(&self) -> (msg: String)
        ensures
            msg@ == spec_message(*self),
    {
        match self {
            FaucetError::InvalidPublicKey => String::from_str("Invalid public key format"),
            FaucetError::RateLimited => String::from_str(
                "Too many requests, please try again in 24 hours",
            ),
            FaucetError::SolanaError(detail) => String::from_str("Solana network error: ").concat(
                detail.as_str(),
            ),
            FaucetError::InsufficientFunds => String::from_str("Insufficient funds"),
            FaucetError::MathVerificationFailed => String::from_str(
                "Math challenge verification failed",
            ),
        }
    }
}

} // verus!

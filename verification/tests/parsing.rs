//! The text helpers, the recipient address syntax, and the keypair file
//! contents.

use faucet_core::challenge::MathChallengeStore;
use faucet_core::error::FaucetError;
use faucet_core::keypair_file::{keypair_bytes_from_json, KeypairFileError, KEYPAIR_BYTES};
use faucet_core::pipeline::run_request_gates;
use faucet_core::rate_limit::RateLimiter;
use faucet_core::text::{client_hint, decimal_string, question_string, rate_limit_key};

// Runs a fresh, otherwise-passing request for the given recipient; whether
// the identity gate accepted it shows in the outcome.
fn recipient_accepted(public_key: &str) -> bool {
    let mut math = MathChallengeStore::new();
    let mut limiter = RateLimiter::new();
    math.issue_with_operands(3, 4, "S".to_string(), 0);
    match run_request_gates(&mut math, &mut limiter, public_key, "S", 7, None, 1) {
        Ok(()) => true,
        Err(FaucetError::InvalidPublicKey) => false,
        Err(e) => panic!("unexpected outcome: {}", e.message()),
    }
}

#[test]
fn decimal_renders_one_and_two_digit_numbers() {
    assert_eq!(decimal_string(0), "0");
    assert_eq!(decimal_string(7), "7");
    assert_eq!(decimal_string(10), "10");
    assert_eq!(decimal_string(42), "42");
    assert_eq!(decimal_string(99), "99");
}

#[test]
fn question_renders_operands_around_plus() {
    assert_eq!(question_string(3, 4), "3 + 4 = ?");
    assert_eq!(question_string(20, 20), "20 + 20 = ?");
    assert_eq!(question_string(1, 19), "1 + 19 = ?");
}

#[test]
fn client_hint_defaults_to_unknown() {
    assert_eq!(client_hint(None), "unknown");
}

#[test]
fn client_hint_takes_first_forwarded_entry() {
    assert_eq!(client_hint(Some("1.2.3.4")), "1.2.3.4");
    assert_eq!(client_hint(Some("1.2.3.4,5.6.7.8")), "1.2.3.4");
    assert_eq!(client_hint(Some("1.2.3.4, 5.6.7.8, 9.9.9.9")), "1.2.3.4");
    assert_eq!(client_hint(Some("")), "");
    assert_eq!(client_hint(Some(",tail")), "");
}

#[test]
fn rate_key_joins_identity_and_hint() {
    assert_eq!(rate_limit_key("pk", "1.2.3.4"), "pk:1.2.3.4");
    assert_eq!(rate_limit_key("pk", "unknown"), "pk:unknown");
}

#[test]
fn recipient_syntax_accepts_real_addresses() {
    assert!(recipient_accepted("11111111111111111111111111111111"));
    assert!(recipient_accepted("So11111111111111111111111111111111111111112"));
}

#[test]
fn recipient_syntax_rejects_malformed_strings() {
    assert!(!recipient_accepted(""));
    assert!(!recipient_accepted("not-a-key!"));
    // 0, O, I and l are outside the base58 alphabet.
    assert!(!recipient_accepted("0OIl1111111111111111111111111111"));
    // Too short to hold 32 bytes.
    assert!(!recipient_accepted("abc"));
    // More than 44 characters can never decode to 32 bytes.
    assert!(!recipient_accepted("111111111111111111111111111111111111111111111"));
}

#[test]
fn keypair_file_accepts_exactly_64_bytes() {
    let mut json = String::from("[");
    for i in 0..KEYPAIR_BYTES {
        if i > 0 {
            json.push(',');
        }
        json.push_str(&(i as u8).to_string());
    }
    json.push(']');
    let bytes = keypair_bytes_from_json(&json).expect("64 bytes parse");
    assert_eq!(bytes.len(), KEYPAIR_BYTES);
    assert_eq!(bytes[0], 0);
    assert_eq!(bytes[63], 63);
}

#[test]
fn keypair_file_rejects_wrong_length() {
    let r = keypair_bytes_from_json("[1,2,3]");
    assert!(matches!(r, Err(KeypairFileError::WrongLength(3))));
}

#[test]
fn keypair_file_rejects_non_json() {
    assert!(matches!(
        keypair_bytes_from_json("not json"),
        Err(KeypairFileError::Unparsable)
    ));
    // A value outside 0..=255 is not a byte array.
    assert!(matches!(
        keypair_bytes_from_json("[256]"),
        Err(KeypairFileError::Unparsable)
    ));
}

#[test]
fn transfer_data_encodes_discriminant_and_amount() {
    let data = faucet_core::pipeline::transfer_instruction_data(1_000_000_000);
    assert_eq!(
        data,
        vec![2, 0, 0, 0, 0x00, 0xCA, 0x9A, 0x3B, 0x00, 0x00, 0x00, 0x00]
    );
    let one = faucet_core::pipeline::transfer_instruction_data(1);
    assert_eq!(one, vec![2, 0, 0, 0, 1, 0, 0, 0, 0, 0, 0, 0]);
}

#[test]
fn question_round_trips_all_operands() {
    for a in 1..=20 {
        for b in 1..=20 {
            assert_eq!(question_string(a, b), format!("{} + {} = ?", a, b));
        }
    }
}

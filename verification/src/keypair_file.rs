//! Parsing and validation of the faucet keypair file's contents: a JSON
//! array holding the 64 secret-key bytes. Reading the file from disk and
//! turning the bytes into a signing key stay outside the library.

use vstd::prelude::*;

verus! {

/// The number of bytes a keypair file must hold.
pub const KEYPAIR_BYTES: usize = 64;

/// What a string parses to as a JSON array of bytes, if anything; it depends
/// on the characters alone.
pub uninterp spec fn json_byte_array(s: Seq<char>) -> Option<Seq<u8>>;

/// Relies on serde_json::from_str::<Vec<u8>>: parses a JSON array of numbers
/// in 0..=255, deciding by the characters alone.
#[verifier::external_body]
fn parse_byte_array(s: &str) -> (r: Option<Vec<u8>>)
    ensures
        r is Some <==> json_byte_array(s@) is Some,
        r matches Some(v) ==> json_byte_array(s@) == Some(v@),
{
    serde_json::from_str::<Vec<u8>>(s).ok()
}

/// Why a keypair file's contents were rejected.
#[derive(Debug)]
pub enum KeypairFileError {
    /// The contents are not a JSON array of bytes.
    Unparsable,
    /// The array parsed but holds this many bytes instead of 64.
    WrongLength(usize),
}

/// Extracts the 64 secret-key bytes from the JSON contents of a keypair
/// file: succeeds exactly when the contents parse as a byte array of length
/// 64, and says which of the two checks failed otherwise.
pub fn keypair_bytes_from_json(contents: &str) -> (r: Result<Vec<u8>, KeypairFileError>)
    ensures
        match r {
            Ok(v) => json_byte_array(contents@) == Some(v@) && v@.len() == KEYPAIR_BYTES,
            Err(KeypairFileError::Unparsable) => json_byte_array(contents@) is None,
            Err(KeypairFileError::WrongLength(n)) => (json_byte_array(contents@) matches Some(bytes)
                && bytes.len() == n && n != KEYPAIR_BYTES),
        },
{
    match parse_byte_array(contents) {
        None => Err(KeypairFileError::Unparsable),
        Some(v) => {
            if v.len() == KEYPAIR_BYTES {
                Ok(v)
            } else {
                Err(KeypairFileError::WrongLength(v.len()))
            }
        },
    }
}

} // verus!

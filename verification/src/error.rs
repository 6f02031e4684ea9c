//! What a codec returns when it cannot encode or decode.

use vstd::prelude::*;

verus! {

/// The error type of the `bs58` crate's decoder. Its contents are not
/// inspected here; a value is only carried to the caller.
#[verifier::external_type_specification]
#[verifier::external_body]
pub struct ExBase58Error(bs58::decode::Error);

/// The error type of the `base64` crate's decoder. Its contents are not
/// inspected here; a value is only carried to the caller.
#[verifier::external_type_specification]
#[verifier::external_body]
pub struct ExBase64Error(base64::DecodeError);

/// Why an encoder refused its input.
#[derive(Clone, Copy, Debug, PartialEq, Eq)]
pub enum EncodeFailure {
    /// The integer is not a tag of the field's enumeration.
    UnknownTag,
}

/// The decoder's own account of text that it could not parse.
#[derive(Debug, PartialEq, Eq)]
pub enum Cause {
    /// The Base58 decoder's error.
    Base58(bs58::decode::Error),
    /// The Base64 decoder's error, in either alphabet.
    Base64(base64::DecodeError),
}

/// Why a decoder refused its input.
#[derive(Debug, PartialEq, Eq)]
pub enum DecodeFailure {
    /// The text is none of the field's tokens.
    UnknownToken,
    /// The text is not well-formed in the expected byte encoding.
    InvalidEncoding(Cause),
    /// The decoded bytes are not as many as the fixed-width value needs.
    InvalidLength,
}

} // verus!

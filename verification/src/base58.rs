//! Byte buffers as Base58 text in the Bitcoin alphabet.
//!
//! The conversion itself is the `bs58` crate's. What this module assumes of
//! it is written on [`encode_bytes`] and [`decode_text`]; everything else is
//! proved.

use vstd::prelude::*;
use crate::error::{Cause, DecodeFailure};

verus! {

/// The text that `bs58` writes for a byte sequence.
pub uninterp spec fn base58_text(bytes: Seq<u8>) -> Seq<char>;

/// The bytes that `bs58` reads from a text, where it accepts the text.
pub uninterp spec fn base58_bytes(text: Seq<char>) -> Option<Seq<u8>>;

/// Whether `symbol` belongs to the Bitcoin alphabet: the digits and the
/// Latin letters without `0`, `O`, `I` and `l`.
pub open spec fn is_symbol(symbol: char) -> bool {
    ||| '1' <= symbol <= '9'
    ||| 'A' <= symbol <= 'H'
    ||| 'J' <= symbol <= 'N'
    ||| 'P' <= symbol <= 'Z'
    ||| 'a' <= symbol <= 'k'
    ||| 'm' <= symbol <= 'z'
}

/// Whether every character of `text` belongs to the alphabet. The empty
/// text does.
pub open spec fn well_formed(text: Seq<char>) -> bool {
    forall|i: int| 0 <= i < text.len() ==> is_symbol(#[trigger] text[i])
}

/// Calls `bs58::encode(..).into_string()`, which encodes with the Bitcoin
/// alphabet.
///
/// Assumed of it: the text depends on the bytes alone, holds only symbols
/// of the alphabet, and is read back by the decoder as the same bytes.
#[verifier::external_body]
fn encode_bytes(bytes: &[u8]) -> (text: String)
    ensures
        text@ == base58_text(bytes@),
        well_formed(text@),
        base58_bytes(text@) == Some(bytes@),
{
    bs58::encode(bytes).into_string()
}

/// Calls `bs58::decode(..).into_vec()`, which decodes with the Bitcoin
/// alphabet into a vector that it sizes itself.
///
/// Assumed of it: whether it accepts a text, and the bytes that it then
/// returns, depend on the text alone, and it accepts exactly the texts
/// whose characters all belong to the alphabet.
#[verifier::external_body]
fn decode_text(text: &str) -> (outcome: Result<Vec<u8>, bs58::decode::Error>)
    ensures
        outcome is Ok <==> base58_bytes(text@) is Some,
        outcome matches Ok(bytes) ==> base58_bytes(text@) == Some(bytes@),
        outcome is Ok <==> well_formed(text@),
{
    bs58::decode(text).into_vec()
}

/// What the codec returns for an outcome of the decoder: the bytes as they
/// are, or the decoder's error as the cause of an invalid encoding.
pub fn decoded(outcome: Result<Vec<u8>, bs58::decode::Error>) -> (r: Result<
    Vec<u8>,
    DecodeFailure,
>)
    ensures
        r == match outcome {
            Ok(bytes) => Ok::<Vec<u8>, DecodeFailure>(bytes),
            Err(cause) => Err::<Vec<u8>, DecodeFailure>(
                DecodeFailure::InvalidEncoding(Cause::Base58(cause)),
            ),
        },
{
    match outcome {
        Ok(bytes) => Ok(bytes),
        Err(cause) => Err(DecodeFailure::InvalidEncoding(Cause::Base58(cause))),
    }
}

/// The textual form of a byte buffer, in symbols of the alphabet. Every
/// buffer has one, the empty buffer too, and decoding it gives the buffer
/// back.
pub fn serialize(bytes: &[u8]) -> (text: String)
    ensures
        text@ == base58_text(bytes@),
        well_formed(text@),
        base58_bytes(text@) == Some(bytes@),
{
    encode_bytes(bytes)
}

/// The byte buffer of a textual form. An absent text stands for the empty
/// buffer. A present text is refused as an invalid encoding exactly when
/// one of its characters is outside the alphabet.
pub fn deserialize(text: Option<&str>) -> (r: Result<Vec<u8>, DecodeFailure>)
    ensures
        match text {
            None => r matches Ok(buffer) && buffer@ == Seq::<u8>::empty(),
            Some(present) => match base58_bytes(present@) {
                Some(bytes) => r matches Ok(buffer) && buffer@ == bytes,
                None => r matches Err(DecodeFailure::InvalidEncoding(Cause::Base58(_))),
            },
        },
        text matches Some(present) ==> (r is Ok <==> well_formed(present@)),
{
    match text {
        None => Ok(Vec::new()),
        Some(present) => decoded(decode_text(present)),
    }
}

} // verus!

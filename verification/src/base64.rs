//! Byte buffers as Base64 text in the standard alphabet, with padding.
//!
//! The conversion itself is the `base64` crate's. What this module assumes
//! of it is written on [`encode_bytes`] and [`decode_text`]; everything
//! else is proved.

use vstd::prelude::*;
use crate::error::{Cause, DecodeFailure};

verus! {

/// The text that `base64::encode` writes for a byte sequence.
pub uninterp spec fn base64_text(bytes: Seq<u8>) -> Seq<char>;

/// The bytes that `base64::decode` reads from a text, where it accepts the
/// text.
pub uninterp spec fn base64_bytes(text: Seq<char>) -> Option<Seq<u8>>;

/// Whether `symbol` may stand in standard Base64 text: a Latin letter, a
/// digit, `+`, `/`, or the padding sign `=`.
pub open spec fn is_symbol(symbol: char) -> bool {
    ||| 'A' <= symbol <= 'Z'
    ||| 'a' <= symbol <= 'z'
    ||| '0' <= symbol <= '9'
    ||| symbol == '+'
    ||| symbol == '/'
    ||| symbol == '='
}

/// The length of the padded text for `count` bytes: four characters for
/// every three bytes, the last group filled up.
pub open spec fn padded_len(count: nat) -> nat {
    (count + 2) / 3 * 4
}

/// Whether every character of `text` may stand in standard Base64 text.
/// Such a text can still be malformed, in its length or its padding.
pub open spec fn in_alphabet(text: Seq<char>) -> bool {
    forall|i: int| 0 <= i < text.len() ==> is_symbol(#[trigger] text[i])
}

/// Calls `base64::encode`, which encodes with the standard alphabet and
/// pads the text.
///
/// Assumed of it: the text depends on the bytes alone, holds only
/// characters of the alphabet, has the padded length, and is read back by
/// the decoder as the same bytes. The call panics where the text's length
/// would overflow, which no slice is long enough to cause.
#[verifier::external_body]
pub(crate) fn encode_bytes(bytes: &[u8]) -> (text: String)
    ensures
        text@ == base64_text(bytes@),
        in_alphabet(text@),
        text@.len() == padded_len(bytes@.len()),
        base64_bytes(text@) == Some(bytes@),
{
    ::base64::encode(bytes)
}

/// Calls `base64::decode`, which decodes with the standard alphabet.
///
/// Assumed of it: whether it accepts a text, and the bytes that it then
/// returns, depend on the text alone, and it accepts no text with a
/// character that is neither a symbol of the alphabet nor the padding sign.
#[verifier::external_body]
pub(crate) fn decode_text(text: &str) -> (outcome: Result<Vec<u8>, ::base64::DecodeError>)
    ensures
        outcome is Ok <==> base64_bytes(text@) is Some,
        outcome matches Ok(bytes) ==> base64_bytes(text@) == Some(bytes@),
        outcome is Ok ==> in_alphabet(text@),
{
    ::base64::decode(text)
}

/// What a codec returns for an outcome of the decoder: the bytes as they
/// are, or the decoder's error as the cause of an invalid encoding.
pub fn decoded(outcome: Result<Vec<u8>, ::base64::DecodeError>) -> (r: Result<
    Vec<u8>,
    DecodeFailure,
>)
    ensures
        r == match outcome {
            Ok(bytes) => Ok::<Vec<u8>, DecodeFailure>(bytes),
            Err(cause) => Err::<Vec<u8>, DecodeFailure>(
                DecodeFailure::InvalidEncoding(Cause::Base64(cause)),
            ),
        },
{
    match outcome {
        Ok(bytes) => Ok(bytes),
        Err(cause) => Err(DecodeFailure::InvalidEncoding(Cause::Base64(cause))),
    }
}

/// The textual form of a byte buffer, in characters of the alphabet and
/// padded. Every buffer has one, the empty buffer too, and decoding it
/// gives the buffer back.
pub fn serialize(bytes: &[u8]) -> (text: String)
    ensures
        text@ == base64_text(bytes@),
        in_alphabet(text@),
        text@.len() == padded_len(bytes@.len()),
        base64_bytes(text@) == Some(bytes@),
{
    encode_bytes(bytes)
}

/// The byte buffer of a textual form. A text that the decoder does not
/// accept is refused as an invalid encoding, and no other text is. One
/// with a character outside the alphabet is never accepted.
pub fn deserialize(text: &str) -> (r: Result<Vec<u8>, DecodeFailure>)
    ensures
        match base64_bytes(text@) {
            Some(bytes) => r matches Ok(buffer) && buffer@ == bytes,
            None => r matches Err(DecodeFailure::InvalidEncoding(Cause::Base64(_))),
        },
        !in_alphabet(text@) ==> r is Err,
{
    decoded(decode_text(text))
}

} // verus!

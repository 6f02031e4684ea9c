//! 64-bit words as the standard Base64 text of their eight bytes, most
//! significant byte first.
//!
//! The byte order is laid down here and proved to be read back as written.
//! The calls that write and read it are the `byteorder` crate's, through
//! `bytes`; what is assumed of them is written on [`write_u64_into`] and
//! [`read_u64`].

use vstd::prelude::*;
#[allow(deprecated)]
use bytes::{BigEndian, ByteOrder};
use crate::base64::{base64_bytes, base64_text, decode_text, decoded, encode_bytes};
use crate::error::{Cause, DecodeFailure};

verus! {

/// The byte of `word` that starts `shift` bits above its least significant
/// bit.
pub open spec fn byte_at(word: u64, shift: u64) -> u8 {
    ((word >> shift) & 0xff) as u8
}

/// The eight bytes of a word, most significant first.
pub open spec fn be_bytes(word: u64) -> Seq<u8> {
    seq![
        byte_at(word, 56),
        byte_at(word, 48),
        byte_at(word, 40),
        byte_at(word, 32),
        byte_at(word, 24),
        byte_at(word, 16),
        byte_at(word, 8),
        byte_at(word, 0),
    ]
}

/// The word made of eight bytes, the most significant given first.
pub open spec fn word_with(b0: u8, b1: u8, b2: u8, b3: u8, b4: u8, b5: u8, b6: u8, b7: u8) -> u64 {
    ((b0 as u64) << 56) | ((b1 as u64) << 48) | ((b2 as u64) << 40) | ((b3 as u64) << 32) | ((
    b4 as u64) << 24) | ((b5 as u64) << 16) | ((b6 as u64) << 8) | (b7 as u64)
}

/// The word whose bytes, most significant first, are the first eight of
/// `bytes`.
pub open spec fn be_word(bytes: Seq<u8>) -> u64 {
    word_with(
        bytes[0],
        bytes[1],
        bytes[2],
        bytes[3],
        bytes[4],
        bytes[5],
        bytes[6],
        bytes[7],
    )
}

/// The word that a text stands for: the text is Base64 for exactly eight
/// bytes, and the word is read from them.
pub open spec fn word_of(text: Seq<char>) -> Option<u64> {
    match base64_bytes(text) {
        Some(bytes) => if bytes.len() == 8 {
            Some(be_word(bytes))
        } else {
            None
        },
        None => None,
    }
}

/// A word is read back from its eight bytes.
pub proof fn word_round_trip(word: u64)
    ensures
        be_bytes(word).len() == 8,
        be_word(be_bytes(word)) == word,
{
    assert(word_with(
        byte_at(word, 56),
        byte_at(word, 48),
        byte_at(word, 40),
        byte_at(word, 32),
        byte_at(word, 24),
        byte_at(word, 16),
        byte_at(word, 8),
        byte_at(word, 0),
    ) == word) by (bit_vector);
}

/// Eight bytes are written back from the word that was read from them.
pub proof fn bytes_round_trip(bytes: Seq<u8>)
    requires
        bytes.len() == 8,
    ensures
        be_bytes(be_word(bytes)) == bytes,
{
    let b0 = bytes[0];
    let b1 = bytes[1];
    let b2 = bytes[2];
    let b3 = bytes[3];
    let b4 = bytes[4];
    let b5 = bytes[5];
    let b6 = bytes[6];
    let b7 = bytes[7];
    let word = word_with(b0, b1, b2, b3, b4, b5, b6, b7);
    assert(byte_at(word, 56) == b0 && byte_at(word, 48) == b1 && byte_at(word, 40) == b2
        && byte_at(word, 32) == b3 && byte_at(word, 24) == b4 && byte_at(word, 16) == b5
        && byte_at(word, 8) == b6 && byte_at(word, 0) == b7) by (bit_vector)
        requires
            word == word_with(b0, b1, b2, b3, b4, b5, b6, b7),
    ;
    assert(be_bytes(word) =~= bytes);
}

/// Calls `BigEndian::write_u64_into` on the one word. The call panics
/// unless the buffer has eight bytes for each word.
///
/// Assumed of it: it overwrites the buffer with the word's bytes, most
/// significant first.
#[verifier::external_body]
fn write_u64_into(word: u64, buffer: &mut Vec<u8>)
    requires
        old(buffer)@.len() == 8,
    ensures
        final(buffer)@ == be_bytes(word),
{
    BigEndian::write_u64_into(&[word], buffer.as_mut_slice())
}

/// Calls `BigEndian::read_u64`. The call panics on fewer than eight bytes.
///
/// Assumed of it: it reads the first eight bytes as a word, most
/// significant first.
#[verifier::external_body]
fn read_u64(bytes: &[u8]) -> (word: u64)
    requires
        bytes@.len() >= 8,
    ensures
        word == be_word(bytes@),
{
    BigEndian::read_u64(bytes)
}

/// The eight bytes of a word, most significant first, before any text
/// encoding.
pub fn word_bytes(word: u64) -> (bytes: Vec<u8>)
    ensures
        bytes@ == be_bytes(word),
{
    let mut bytes: Vec<u8> = vec![0u8; 8];
    write_u64_into(word, &mut bytes);
    bytes
}

/// The word of a decoded buffer. A buffer of any length but eight is
/// refused as of invalid length: nothing is cut off and nothing is read
/// past the end.
pub fn word_from_bytes(bytes: &[u8]) -> (r: Result<u64, DecodeFailure>)
    ensures
        r == if bytes@.len() == 8 {
            Ok::<u64, DecodeFailure>(be_word(bytes@))
        } else {
            Err::<u64, DecodeFailure>(DecodeFailure::InvalidLength)
        },
{
    if bytes.len() == 8 {
        Ok(read_u64(bytes))
    } else {
        Err(DecodeFailure::InvalidLength)
    }
}

/// The textual form of a word: standard Base64 of its eight bytes, most
/// significant first. Every word has one, and decoding it gives the word
/// back.
pub fn serialize(word: &u64) -> (text: String)
    ensures
        text@ == base64_text(be_bytes(*word)),
        text@.len() == 12,
        word_of(text@) == Some(*word),
{
    proof {
        word_round_trip(*word);
    }
    let bytes = word_bytes(*word);
    encode_bytes(bytes.as_slice())
}

/// The word of a textual form. A text that the Base64 decoder does not
/// accept is refused as an invalid encoding; one that stands for any
/// number of bytes but eight is refused as of invalid length.
pub fn deserialize(text: &str) -> (r: Result<u64, DecodeFailure>)
    ensures
        match base64_bytes(text@) {
            Some(bytes) => r == if bytes.len() == 8 {
                Ok::<u64, DecodeFailure>(be_word(bytes))
            } else {
                Err::<u64, DecodeFailure>(DecodeFailure::InvalidLength)
            },
            None => r matches Err(DecodeFailure::InvalidEncoding(Cause::Base64(_))),
        },
        match word_of(text@) {
            Some(word) => r == Ok::<u64, DecodeFailure>(word),
            None => r is Err,
        },
{
    match decoded(decode_text(text)) {
        Ok(bytes) => word_from_bytes(bytes.as_slice()),
        Err(failure) => Err(failure),
    }
}

} // verus!

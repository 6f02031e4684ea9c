use field_codecs::error::{Cause, DecodeFailure};
use field_codecs::{base58, base64, base64_url};

fn every_byte_twice() -> Vec<u8> {
    let mut bytes = Vec::new();
    for round in 0..2u8 {
        for byte in 0..=255u8 {
            bytes.push(byte.wrapping_mul(round.wrapping_mul(6).wrapping_add(1)));
        }
    }
    bytes
}

fn patterned(len: usize) -> Vec<u8> {
    let mut bytes = Vec::with_capacity(len);
    let mut state: u32 = 0x2545_f491;
    for _ in 0..len {
        state = state.wrapping_mul(1_664_525).wrapping_add(1_013_904_223);
        bytes.push((state >> 24) as u8);
    }
    bytes
}

#[test]
fn base58_writes_the_bitcoin_alphabet() {
    assert_eq!(base58::serialize(&[0x04, 0x30, 0x5e, 0x2b, 0x24, 0x73, 0xf0, 0x58]), "he11owor1d");
    assert_eq!(base58::serialize(b"hello world"), "StV1DL6CwTryKyV");
    assert_eq!(base58::serialize(&[0xff, 0xff, 0xff, 0xff]), "7YXq9G");
    assert_eq!(base58::serialize(b"a"), "2g");
}

#[test]
fn base58_keeps_leading_zero_bytes() {
    assert_eq!(base58::serialize(&[0]), "1");
    assert_eq!(base58::serialize(&[0, 0, 1]), "112");
    assert_eq!(base58::deserialize(Some("11")), Ok(vec![0, 0]));
    assert_eq!(base58::deserialize(Some("112")), Ok(vec![0, 0, 1]));
}

#[test]
fn base58_of_the_empty_buffer_is_empty() {
    assert_eq!(base58::serialize(&[]), "");
    assert_eq!(base58::deserialize(Some("")), Ok(vec![]));
}

#[test]
fn base58_reads_its_text() {
    assert_eq!(
        base58::deserialize(Some("he11owor1d")),
        Ok(vec![0x04, 0x30, 0x5e, 0x2b, 0x24, 0x73, 0xf0, 0x58])
    );
    assert_eq!(base58::deserialize(Some("EUYUqQf")), Ok(b"world".to_vec()));
}

#[test]
fn base58_absent_text_is_the_empty_buffer() {
    assert_eq!(base58::deserialize(None), Ok(vec![]));
}

#[test]
fn base58_refuses_characters_outside_the_alphabet() {
    assert_eq!(
        base58::deserialize(Some("hello world")),
        Err(DecodeFailure::InvalidEncoding(Cause::Base58(
            bs58::decode::Error::InvalidCharacter { character: 'l', index: 2 }
        )))
    );
    assert_eq!(
        base58::deserialize(Some("he11o\u{1f1f3}\u{1f1ff}")),
        Err(DecodeFailure::InvalidEncoding(Cause::Base58(
            bs58::decode::Error::NonAsciiCharacter { index: 5 }
        )))
    );
    for text in ["0", "O", "I", "l", "he11o wor1d", "abc=", "+", " 2g", "2g\n"] {
        assert!(
            matches!(
                base58::deserialize(Some(text)),
                Err(DecodeFailure::InvalidEncoding(Cause::Base58(_)))
            ),
            "{:?}",
            text
        );
    }
}

#[test]
fn base58_accepts_every_symbol_of_the_alphabet() {
    let alphabet = "123456789ABCDEFGHJKLMNPQRSTUVWXYZabcdefghijkmnopqrstuvwxyz";
    let bytes = base58::deserialize(Some(alphabet)).unwrap();
    assert_eq!(base58::serialize(&bytes), alphabet);
}

#[test]
fn base58_decoded_carries_the_cause() {
    assert_eq!(base58::decoded(Ok(vec![1, 2, 3])), Ok(vec![1, 2, 3]));
    assert_eq!(
        base58::decoded(Err(bs58::decode::Error::BufferTooSmall)),
        Err(DecodeFailure::InvalidEncoding(Cause::Base58(bs58::decode::Error::BufferTooSmall)))
    );
    assert_eq!(
        base58::decoded(Err(bs58::decode::Error::NonAsciiCharacter { index: 7 })),
        Err(DecodeFailure::InvalidEncoding(Cause::Base58(
            bs58::decode::Error::NonAsciiCharacter { index: 7 }
        )))
    );
}

#[test]
fn base58_round_trips() {
    for bytes in [vec![], vec![0], vec![0; 40], vec![255; 33], every_byte_twice(), patterned(2048)] {
        let text = base58::serialize(&bytes);
        assert_eq!(base58::deserialize(Some(&text)), Ok(bytes));
    }
}

#[test]
fn base64_writes_the_standard_alphabet() {
    assert_eq!(base64::serialize(b"hello world"), "aGVsbG8gd29ybGQ=");
    assert_eq!(base64::serialize(b"hello world~\n"), "aGVsbG8gd29ybGR+Cg==");
    assert_eq!(base64::serialize(&[0xfb, 0xff]), "+/8=");
    assert_eq!(base64::serialize(&[0xfb, 0xff, 0xfe]), "+//+");
}

#[test]
fn base64_pads_to_four_characters() {
    assert_eq!(base64::serialize(b""), "");
    assert_eq!(base64::serialize(b"a"), "YQ==");
    assert_eq!(base64::serialize(b"ab"), "YWI=");
    assert_eq!(base64::serialize(b"abc"), "YWJj");
}

#[test]
fn base64_reads_its_text() {
    assert_eq!(base64::deserialize("aGVsbG8gd29ybGQ="), Ok(b"hello world".to_vec()));
    assert_eq!(base64::deserialize("+/8="), Ok(vec![0xfb, 0xff]));
    assert_eq!(base64::deserialize(""), Ok(vec![]));
}

#[test]
fn base64_refuses_characters_outside_the_alphabet() {
    assert_eq!(
        base64::deserialize("a b="),
        Err(DecodeFailure::InvalidEncoding(Cause::Base64(::base64::DecodeError::InvalidByte(
            1, b' '
        ))))
    );
    for text in ["-_8=", "aGVsbG8gd29ybGQ=\n", "YQ==\u{e9}", "YW!j", "Y\u{0}Jj"] {
        assert!(
            matches!(
                base64::deserialize(text),
                Err(DecodeFailure::InvalidEncoding(Cause::Base64(_)))
            ),
            "{:?}",
            text
        );
    }
}

#[test]
fn base64_refuses_bad_padding_and_length() {
    assert_eq!(
        base64::deserialize("YQ=a"),
        Err(DecodeFailure::InvalidEncoding(Cause::Base64(::base64::DecodeError::InvalidByte(
            2, b'='
        ))))
    );
    assert_eq!(
        base64::deserialize("=YQ="),
        Err(DecodeFailure::InvalidEncoding(Cause::Base64(::base64::DecodeError::InvalidByte(
            0, b'='
        ))))
    );
    assert_eq!(
        base64::deserialize("a"),
        Err(DecodeFailure::InvalidEncoding(Cause::Base64(::base64::DecodeError::InvalidLength)))
    );
    assert_eq!(
        base64::deserialize("YR=="),
        Err(DecodeFailure::InvalidEncoding(Cause::Base64(
            ::base64::DecodeError::InvalidLastSymbol(1, b'R')
        )))
    );
}

#[test]
fn base64_decoded_carries_the_cause() {
    assert_eq!(base64::decoded(Ok(vec![9, 8])), Ok(vec![9, 8]));
    assert_eq!(
        base64::decoded(Err(::base64::DecodeError::InvalidLength)),
        Err(DecodeFailure::InvalidEncoding(Cause::Base64(::base64::DecodeError::InvalidLength)))
    );
    assert_eq!(
        base64::decoded(Err(::base64::DecodeError::InvalidByte(3, b'*'))),
        Err(DecodeFailure::InvalidEncoding(Cause::Base64(::base64::DecodeError::InvalidByte(
            3, b'*'
        ))))
    );
}

#[test]
fn base64_round_trips() {
    for bytes in [vec![], vec![0], vec![0; 40], vec![255; 33], every_byte_twice(), patterned(1 << 20)] {
        let text = base64::serialize(&bytes);
        assert_eq!(base64::deserialize(&text), Ok(bytes));
    }
}

#[test]
fn base64_url_writes_the_url_safe_alphabet() {
    assert_eq!(base64_url::serialize(b"hello internet~\n"), "aGVsbG8gaW50ZXJuZXR-Cg==");
    assert_eq!(base64_url::serialize(&[0xfb, 0xff]), "-_8=");
    assert_eq!(base64_url::serialize(&[0xfb, 0xff, 0xfe]), "-__-");
    assert_eq!(base64_url::serialize(b""), "");
    assert_eq!(base64_url::serialize(b"a"), "YQ==");
}

#[test]
fn base64_url_reads_its_text() {
    assert_eq!(
        base64_url::deserialize("aGVsbG8gaW50ZXJuZXR-Cg=="),
        Ok(b"hello internet~\n".to_vec())
    );
    assert_eq!(base64_url::deserialize("-_8="), Ok(vec![0xfb, 0xff]));
    assert_eq!(base64_url::deserialize(""), Ok(vec![]));
}

#[test]
fn base64_url_refuses_the_standard_signs() {
    assert_eq!(
        base64_url::deserialize("+/8="),
        Err(DecodeFailure::InvalidEncoding(Cause::Base64(::base64::DecodeError::InvalidByte(
            0, b'+'
        ))))
    );
    assert_eq!(
        base64_url::deserialize("-/8="),
        Err(DecodeFailure::InvalidEncoding(Cause::Base64(::base64::DecodeError::InvalidByte(
            1, b'/'
        ))))
    );
    for text in ["a b=", "YQ=a", "a", "YQ==\n"] {
        assert!(
            matches!(
                base64_url::deserialize(text),
                Err(DecodeFailure::InvalidEncoding(Cause::Base64(_)))
            ),
            "{:?}",
            text
        );
    }
}

#[test]
fn base64_url_round_trips() {
    for bytes in [vec![], vec![0], vec![0; 40], vec![255; 33], every_byte_twice(), patterned(1 << 20)] {
        let text = base64_url::serialize(&bytes);
        assert_eq!(base64_url::deserialize(&text), Ok(bytes));
    }
}

#[test]
fn base58_text_holds_only_symbols_of_the_alphabet() {
    let alphabet = "123456789ABCDEFGHJKLMNPQRSTUVWXYZabcdefghijkmnopqrstuvwxyz";
    for bytes in [vec![0; 7], vec![255; 33], every_byte_twice(), patterned(300)] {
        let text = base58::serialize(&bytes);
        assert!(text.chars().all(|symbol| alphabet.contains(symbol)), "{:?}", text);
    }
}

#[test]
fn base64_text_has_the_padded_length() {
    for len in 0..50usize {
        let bytes = patterned(len);
        let expected = (len + 2) / 3 * 4;
        assert_eq!(base64::serialize(&bytes).chars().count(), expected);
        assert_eq!(base64_url::serialize(&bytes).chars().count(), expected);
    }
}

#[test]
fn base64_text_holds_only_characters_of_its_alphabet() {
    let letters = "ABCDEFGHIJKLMNOPQRSTUVWXYZabcdefghijklmnopqrstuvwxyz0123456789";
    for bytes in [vec![0; 7], vec![255; 32], every_byte_twice(), patterned(301)] {
        let standard = base64::serialize(&bytes);
        assert!(
            standard.chars().all(|symbol| letters.contains(symbol) || "+/=".contains(symbol)),
            "{:?}",
            standard
        );
        let url_safe = base64_url::serialize(&bytes);
        assert!(
            url_safe.chars().all(|symbol| letters.contains(symbol) || "-_=".contains(symbol)),
            "{:?}",
            url_safe
        );
    }
}

use bluetape_rs::codec::{decode_base58, encode_base58, Base58DecodeError};


#[test]
fn base58_encodes_empty_input() {
    assert_eq!(encode_base58(&[]), "");
}

#[test]
fn base58_decodes_empty_input() {
    assert_eq!(
        decode_base58("").expect("empty base58 is valid"),
        Vec::<u8>::new()
    );
}

#[test]
fn encodes_known_bitcoin_base58_vector() {
    assert_eq!(encode_base58(b"Hello World!"), "2NEpo7TZRRrLZSi2U");
    assert_eq!(encode_base58(b"Hello, World!"), "72k1xXWG59fYdzSNoA");
}

#[test]
fn base58_round_trips_binary_data() {
    let bytes = [0x00, 0x00, 0x01, 0x7f, 0x80, 0xab, 0xcd, 0xef, 0xff];

    assert_eq!(
        decode_base58(&encode_base58(&bytes)).expect("valid base58"),
        bytes
    );
}

#[test]
fn preserves_leading_zero_bytes_as_ones() {
    assert_eq!(encode_base58(&[0, 0, 1]), "112");
    assert_eq!(decode_base58("112").expect("valid base58"), [0, 0, 1]);
}

#[test]
fn rejects_ambiguous_and_non_alphabet_bytes() {
    assert_eq!(
        decode_base58("0OIl").expect_err("ambiguous characters should fail"),
        Base58DecodeError::InvalidCharacter {
            index: 0,
            byte: b'0'
        }
    );
    assert_eq!(
        decode_base58("12 3").expect_err("space should fail"),
        Base58DecodeError::InvalidCharacter {
            index: 2,
            byte: b' '
        }
    );
}

#[test]
fn base58_reports_utf8_bytes_by_byte_position() {
    assert_eq!(
        decode_base58("12é").expect_err("non-ascii byte should fail"),
        Base58DecodeError::InvalidCharacter {
            index: 2,
            byte: 0xc3
        }
    );
}

#[test]
fn base58_formats_decode_errors_for_service_diagnostics() {
    assert_eq!(
        Base58DecodeError::InvalidCharacter {
            index: 3,
            byte: b'0'
        }
        .message(),
        "base58 input contains invalid byte 0x30 at position 3"
    );
}


#[test]
fn base58_reencoding_decoded_text_gives_back_the_text() {
    for text in ["", "1", "111", "11StV1DL6CwTryKyV", "3mJr7AoUXx2Wqd"] {
        assert_eq!(encode_base58(&decode_base58(text).unwrap()), text);
    }
}

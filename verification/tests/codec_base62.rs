use bluetape_rs::codec::{decode_base62, encode_base62, Base62DecodeError};


#[test]
fn base62_encodes_empty_input() {
    assert_eq!(encode_base62(&[]), "");
}

#[test]
fn base62_decodes_empty_input() {
    assert_eq!(
        decode_base62("").expect("empty base62 is valid"),
        Vec::<u8>::new()
    );
}

#[test]
fn encodes_known_byte_oriented_vector() {
    assert_eq!(encode_base62(b"Hello, World!"), "1wJfrzvdbtXUOlUjUf");
}

#[test]
fn base62_round_trips_binary_data() {
    let bytes = [0x00, 0x00, 0x01, 0x7f, 0x80, 0xab, 0xcd, 0xef, 0xff];

    assert_eq!(
        decode_base62(&encode_base62(&bytes)).expect("valid base62"),
        bytes
    );
}

#[test]
fn preserves_leading_zero_bytes_as_zeroes() {
    assert_eq!(encode_base62(&[0, 0, 1]), "001");
    assert_eq!(decode_base62("001").expect("valid base62"), [0, 0, 1]);
}

#[test]
fn rejects_non_alphabet_bytes() {
    assert_eq!(
        decode_base62("Foo Bar").expect_err("space should fail"),
        Base62DecodeError::InvalidCharacter {
            index: 3,
            byte: b' '
        }
    );
    assert_eq!(
        decode_base62("abc_def").expect_err("underscore should fail"),
        Base62DecodeError::InvalidCharacter {
            index: 3,
            byte: b'_'
        }
    );
}

#[test]
fn base62_reports_utf8_bytes_by_byte_position() {
    assert_eq!(
        decode_base62("12é").expect_err("non-ascii byte should fail"),
        Base62DecodeError::InvalidCharacter {
            index: 2,
            byte: 0xc3
        }
    );
}

#[test]
fn base62_formats_decode_errors_for_service_diagnostics() {
    assert_eq!(
        Base62DecodeError::InvalidCharacter {
            index: 4,
            byte: b'_'
        }
        .message(),
        "base62 input contains invalid byte 0x5f at position 4"
    );
}


#[test]
fn base62_reencoding_decoded_text_gives_back_the_text() {
    for text in ["", "0", "001", "Hello", "zZ09aA"] {
        assert_eq!(encode_base62(&decode_base62(text).unwrap()), text);
    }
}

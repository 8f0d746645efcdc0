use bluetape_rs::codec::base_n::{decode_base_n, encode_base_n};

#[test]
fn round_trips_base58_style_values() {
    let alphabet = b"123456789ABCDEFGHJKLMNPQRSTUVWXYZabcdefghijkmnopqrstuvwxyz";
    let bytes = [0, 0, 1, 2, 3, 254, 255];

    let encoded = encode_base_n(&bytes, alphabet);

    assert_eq!(
        decode_base_n(&encoded, alphabet).expect("valid base"),
        bytes
    );
}

#[test]
fn round_trips_base62_style_values() {
    let alphabet = b"0123456789ABCDEFGHIJKLMNOPQRSTUVWXYZabcdefghijklmnopqrstuvwxyz";
    let bytes = [0, 0, 1, 2, 3, 254, 255];

    let encoded = encode_base_n(&bytes, alphabet);

    assert_eq!(
        decode_base_n(&encoded, alphabet).expect("valid base"),
        bytes
    );
}

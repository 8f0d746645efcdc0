//! Strict encoders and decoders for binary-to-text formats.

pub mod base58;
pub mod base62;
pub mod base64;
pub mod base_n;
pub mod hex;
pub mod text;

pub use base58::{decode_base58, encode_base58, Base58DecodeError};
pub use base62::{decode_base62, encode_base62, Base62DecodeError};
pub use base64::{
    decode_base64, decode_base64_unpadded, decode_base64_url, decode_base64_url_unpadded,
    encode_base64, encode_base64_unpadded, encode_base64_url, encode_base64_url_unpadded,
    Base64DecodeError,
};
pub use hex::{decode_hex, encode_hex_lower, encode_hex_upper, HexDecodeError};
pub use text::{decode_utf8_text, decode_utf8_text_lossy, encode_utf8_text, TextDecodeError};

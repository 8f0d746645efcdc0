//! Strict Base64 encoding and decoding in the standard and URL-safe
//! alphabets, with and without `=` padding.
//!
//! Encoding and decoding are done by the `base64` crate's general-purpose
//! engines. Their decoders accept exactly the canonical encodings of the
//! selected variant: symbols of its alphabet only, padding exactly as the
//! variant writes it, and no stray bits in the last symbol.
use vstd::prelude::*;
use crate::text_support::{decimal_chars, hex_byte_chars, owned, push_decimal, push_hex_byte, push_str};
use vstd::string::StringSliceAdditionalSpecFns;
use base64::engine::general_purpose::{STANDARD, STANDARD_NO_PAD, URL_SAFE, URL_SAFE_NO_PAD};
use base64::Engine;

verus! {

/// Error returned when Base64 decoding rejects caller-owned input.
#[derive(Debug, Clone, Copy, PartialEq, Eq, Structural)]
#[non_exhaustive]
pub enum Base64DecodeError {
    /// The encoded text contains a byte outside the selected Base64 alphabet.
    InvalidByte {
        /// Zero-based byte position of the invalid byte.
        index: usize,
        /// Invalid byte value.
        byte: u8,
    },
    /// The encoded text length is invalid for Base64 decoding.
    InvalidLength {
        /// Number of bytes in the encoded text.
        len: usize,
    },
    /// The final non-padding symbol has impossible trailing bits.
    InvalidLastSymbol {
        /// Zero-based byte position of the invalid symbol.
        index: usize,
        /// Invalid byte value.
        byte: u8,
    },
    /// The encoded text violates the selected padding policy.
    InvalidPadding,
}

impl Base64DecodeError {
    /// Human-readable description of the rejection, for service diagnostics.
    pub fn message(&self) -> (m: String)
        ensures
            m@ == match *self {
                Base64DecodeError::InvalidByte { index, byte } => "base64 input contains invalid byte 0x"@
                    + hex_byte_chars(byte) + " at position "@ + decimal_chars(index as nat),
                Base64DecodeError::InvalidLength { len } => "base64 input has invalid byte length "@
                    + decimal_chars(len as nat),
                Base64DecodeError::InvalidLastSymbol { index, byte } =>
                    "base64 input contains invalid last symbol 0x"@ + hex_byte_chars(byte)
                    + " at position "@ + decimal_chars(index as nat),
                Base64DecodeError::InvalidPadding => "base64 input violates padding policy"@,
            },
    {
        match *self {
            Base64DecodeError::InvalidByte { index, byte } => {
                let mut m = owned("base64 input contains invalid byte 0x");
                push_hex_byte(&mut m, byte);
                push_str(&mut m, " at position ");
                push_decimal(&mut m, index as u128);
                m
            },
            Base64DecodeError::InvalidLength { len } => {
                let mut m = owned("base64 input has invalid byte length ");
                push_decimal(&mut m, len as u128);
                m
            },
            Base64DecodeError::InvalidLastSymbol { index, byte } => {
                let mut m = owned("base64 input contains invalid last symbol 0x");
                push_hex_byte(&mut m, byte);
                push_str(&mut m, " at position ");
                push_decimal(&mut m, index as u128);
                m
            },
            Base64DecodeError::InvalidPadding => owned("base64 input violates padding policy"),
        }
    }
}

/// Symbol for the six-bit value `v`: `A-Z`, `a-z`, `0-9`, then `+` and `/`
/// in the standard alphabet or `-` and `_` in the URL-safe one.
pub open spec fn base64_symbol(v: int, url_safe: bool) -> char {
    if v < 26 {
        (65 + v) as char
    } else if v < 52 {
        (97 + (v - 26)) as char
    } else if v < 62 {
        (48 + (v - 52)) as char
    } else if v == 62 {
        if url_safe { '-' } else { '+' }
    } else {
        if url_safe { '_' } else { '/' }
    }
}

/// Base64 text of `b` (RFC 4648): every three bytes become four symbols,
/// most significant bits first; a final one or two bytes become two or three
/// symbols, followed by `=` up to four when `padded`.
pub open spec fn base64_text(b: Seq<u8>, url_safe: bool, padded: bool) -> Seq<char>
    decreases b.len(),
{
    if b.len() == 0 {
        Seq::empty()
    } else if b.len() == 1 {
        seq![
            base64_symbol((b[0] / 4) as int, url_safe),
            base64_symbol(((b[0] % 4) * 16) as int, url_safe),
        ] + if padded { seq!['=', '='] } else { Seq::empty() }
    } else if b.len() == 2 {
        seq![
            base64_symbol((b[0] / 4) as int, url_safe),
            base64_symbol(((b[0] % 4) * 16 + b[1] / 16) as int, url_safe),
            base64_symbol(((b[1] % 16) * 4) as int, url_safe),
        ] + if padded { seq!['='] } else { Seq::empty() }
    } else {
        seq![
            base64_symbol((b[0] / 4) as int, url_safe),
            base64_symbol(((b[0] % 4) * 16 + b[1] / 16) as int, url_safe),
            base64_symbol(((b[1] % 16) * 4 + b[2] / 64) as int, url_safe),
            base64_symbol((b[2] % 64) as int, url_safe),
        ] + base64_text(b.skip(3), url_safe, padded)
    }
}

/// Length of the Base64 text of `n` bytes.
pub open spec fn base64_text_len(n: nat, padded: bool) -> nat {
    if padded {
        4 * ((n + 2) / 3)
    } else {
        (4 * n + 2) / 3
    }
}

/// What a strict decoder of the variant makes of `text`: the bytes whose
/// encoding it is, if it is an encoding at all.
pub open spec fn base64_decoding(text: Seq<char>, url_safe: bool, padded: bool) -> Option<Seq<u8>> {
    if exists|v: Seq<u8>| base64_text(v, url_safe, padded) == text {
        Some(choose|v: Seq<u8>| base64_text(v, url_safe, padded) == text)
    } else {
        None
    }
}

/// The error that the `base64` crate's decoder of the variant reports for the
/// encoded bytes `encoded` when they are not a canonical encoding.
pub uninterp spec fn base64_rejection(url_safe: bool, padded: bool, encoded: Seq<u8>) -> Base64DecodeError;

/// The Base64 text of `n` bytes has `base64_text_len(n)` symbols.
pub proof fn lemma_base64_text_len(b: Seq<u8>, url_safe: bool, padded: bool)
    ensures
        base64_text(b, url_safe, padded).len() == base64_text_len(b.len(), padded),
    decreases b.len(),
{
    if b.len() >= 3 {
        lemma_base64_text_len(b.skip(3), url_safe, padded);
    }
}

proof fn lemma_symbol_injective(x: int, y: int, url_safe: bool)
    requires
        0 <= x < 64,
        0 <= y < 64,
        base64_symbol(x, url_safe) == base64_symbol(y, url_safe),
    ensures
        x == y,
{
}

proof fn lemma_symbol_not_pad(x: int, url_safe: bool)
    requires
        0 <= x < 64,
    ensures
        base64_symbol(x, url_safe) != '=',
{
}

proof fn lemma_group_injective(a: u8, b: u8, c: u8, d: u8, e: u8, f: u8)
    requires
        a / 4 == d / 4,
        (a % 4) * 16 + b / 16 == (d % 4) * 16 + e / 16,
        (b % 16) * 4 + c / 64 == (e % 16) * 4 + f / 64,
        c % 64 == f % 64,
    ensures
        a == d && b == e && c == f,
{
    assert(a == d && b == e && c == f) by (bit_vector)
        requires
            a / 4 == d / 4,
            (a % 4) * 16 + b / 16 == (d % 4) * 16 + e / 16,
            (b % 16) * 4 + c / 64 == (e % 16) * 4 + f / 64,
            c % 64 == f % 64,
    ;
}

proof fn lemma_tail_injective(a: u8, b: u8, d: u8, e: u8)
    requires
        a / 4 == d / 4,
        (a % 4) * 16 + b / 16 == (d % 4) * 16 + e / 16,
        (b % 16) * 4 == (e % 16) * 4,
    ensures
        a == d && b == e,
{
    assert(a == d && b == e) by (bit_vector)
        requires
            a / 4 == d / 4,
            (a % 4) * 16 + b / 16 == (d % 4) * 16 + e / 16,
            (b % 16) * 4 == (e % 16) * 4,
    ;
}

proof fn lemma_ranges(a: u8, b: u8, c: u8)
    ensures
        a / 4 < 64,
        (a % 4) * 16 < 64,
        (a % 4) * 16 + b / 16 < 64,
        (b % 16) * 4 < 64,
        (b % 16) * 4 + c / 64 < 64,
        c % 64 < 64,
{
}

/// Distinct byte strings have distinct Base64 texts in every variant.
pub proof fn lemma_base64_text_injective(v: Seq<u8>, w: Seq<u8>, url_safe: bool, padded: bool)
    requires
        base64_text(v, url_safe, padded) == base64_text(w, url_safe, padded),
    ensures
        v == w,
    decreases v.len(),
{
    let tv = base64_text(v, url_safe, padded);
    let tw = base64_text(w, url_safe, padded);
    lemma_base64_text_len(v, url_safe, padded);
    lemma_base64_text_len(w, url_safe, padded);
    if v.len() == 0 || w.len() == 0 {
        if v.len() != 0 || w.len() != 0 {
            assert(tv.len() != tw.len());
        }
        assert(v =~= w);
        return;
    }
    if v.len() >= 3 {
        lemma_ranges(v[0], v[1], v[2]);
    } else if v.len() == 2 {
        lemma_ranges(v[0], v[1], 0);
    } else {
        lemma_ranges(v[0], 0, 0);
    }
    if w.len() >= 3 {
        lemma_ranges(w[0], w[1], w[2]);
    } else if w.len() == 2 {
        lemma_ranges(w[0], w[1], 0);
    } else {
        lemma_ranges(w[0], 0, 0);
    }
    assert(tv[0] == tw[0] && tv[1] == tw[1]);
    lemma_symbol_injective((v[0] / 4) as int, (w[0] / 4) as int, url_safe);
    if v.len() >= 3 && w.len() >= 3 {
        assert(tv[2] == tw[2] && tv[3] == tw[3]);
        lemma_symbol_injective(
            ((v[0] % 4) * 16 + v[1] / 16) as int,
            ((w[0] % 4) * 16 + w[1] / 16) as int,
            url_safe,
        );
        lemma_symbol_injective(
            ((v[1] % 16) * 4 + v[2] / 64) as int,
            ((w[1] % 16) * 4 + w[2] / 64) as int,
            url_safe,
        );
        lemma_symbol_injective((v[2] % 64) as int, (w[2] % 64) as int, url_safe);
        lemma_group_injective(v[0], v[1], v[2], w[0], w[1], w[2]);
        let rv = base64_text(v.skip(3), url_safe, padded);
        let rw = base64_text(w.skip(3), url_safe, padded);
        assert(rv =~= tv.skip(4));
        assert(rw =~= tw.skip(4));
        lemma_base64_text_injective(v.skip(3), w.skip(3), url_safe, padded);
        assert(v =~= v.take(3) + v.skip(3));
        assert(w =~= w.take(3) + w.skip(3));
        assert(v.take(3) =~= w.take(3));
    } else if v.len() >= 3 || w.len() >= 3 {
        // one text has a fourth symbol where the other has padding or ends
        if padded {
            assert(tv[3] == tw[3]);
            if v.len() >= 3 {
                lemma_symbol_not_pad((v[2] % 64) as int, url_safe);
            } else {
                lemma_symbol_not_pad((w[2] % 64) as int, url_safe);
            }
        } else {
            assert(tv.len() != tw.len());
        }
    } else if v.len() == 2 && w.len() == 2 {
        assert(tv[2] == tw[2]);
        lemma_symbol_injective(
            ((v[0] % 4) * 16 + v[1] / 16) as int,
            ((w[0] % 4) * 16 + w[1] / 16) as int,
            url_safe,
        );
        lemma_symbol_injective(((v[1] % 16) * 4) as int, ((w[1] % 16) * 4) as int, url_safe);
        lemma_tail_injective(v[0], v[1], w[0], w[1]);
        assert(v =~= w);
    } else if v.len() == 1 && w.len() == 1 {
        lemma_symbol_injective(((v[0] % 4) * 16) as int, ((w[0] % 4) * 16) as int, url_safe);
        lemma_tail_injective(v[0], 0, w[0], 0);
        assert(v =~= w);
    } else {
        // one byte against two bytes
        if padded {
            assert(tv[2] == tw[2]);
            if v.len() == 2 {
                lemma_symbol_not_pad(((v[1] % 16) * 4) as int, url_safe);
            } else {
                lemma_symbol_not_pad(((w[1] % 16) * 4) as int, url_safe);
            }
        } else {
            assert(tv.len() != tw.len());
        }
    }
}

/// A strict decoder of a variant gives back exactly the bytes that the
/// encoder of the same variant encoded.
pub proof fn lemma_base64_round_trip(bytes: Seq<u8>, url_safe: bool, padded: bool)
    ensures
        base64_decoding(base64_text(bytes, url_safe, padded), url_safe, padded) == Some(bytes),
{
    let t = base64_text(bytes, url_safe, padded);
    assert(exists|v: Seq<u8>| base64_text(v, url_safe, padded) == t);
    let c = choose|v: Seq<u8>| base64_text(v, url_safe, padded) == t;
    lemma_base64_text_injective(c, bytes, url_safe, padded);
}

/// Encodes with the `base64` crate's `STANDARD` engine (`Engine::encode`).
///
/// The contract states the RFC 4648 text that the engine documents for the
/// standard alphabet and `=` padding; the engine panics only when the length of that text
/// overflows `usize`, which the precondition rules out.
#[verifier::external_body]
fn standard_engine_encode(bytes: &[u8]) -> (encoded: String)
    requires
        base64_text_len(bytes@.len(), true) <= usize::MAX,
    ensures
        encoded@ == base64_text(bytes@, false, true),
{
    STANDARD.encode(bytes)
}

/// Decodes with the `base64` crate's `STANDARD` engine (`Engine::decode`).
///
/// The contract states what the engine's source shows: it accepts exactly
/// the canonical encodings of the standard alphabet and `=` padding (trailing bits must be
/// zero) and returns the bytes they encode. Which error it reports for other
/// input is left to a name, `base64_rejection`, of the variant and the
/// encoded bytes.
#[verifier::external_body]
fn standard_engine_decode(encoded: &str) -> (r: Result<Vec<u8>, Base64DecodeError>)
    ensures
        match base64_decoding(encoded@, false, true) {
            Some(v) => r matches Ok(d) && d@ == v,
            None => r == Err::<Vec<u8>, Base64DecodeError>(
                base64_rejection(false, true, encoded.spec_bytes()),
            ),
        },
{
    match STANDARD.decode(encoded) {
        Ok(v) => Ok(v),
        Err(base64::DecodeError::InvalidByte(index, byte)) => Err(Base64DecodeError::InvalidByte { index, byte }),
        Err(base64::DecodeError::InvalidLength(len)) => Err(Base64DecodeError::InvalidLength { len }),
        Err(base64::DecodeError::InvalidLastSymbol(index, byte)) => Err(Base64DecodeError::InvalidLastSymbol { index, byte }),
        Err(base64::DecodeError::InvalidPadding) => Err(Base64DecodeError::InvalidPadding),
    }
}

/// Encodes bytes with the standard alphabet and `=` padding.
pub fn encode_base64(bytes: &[u8]) -> (encoded: String)
    requires
        base64_text_len(bytes@.len(), true) <= usize::MAX,
    ensures
        encoded@ == base64_text(bytes@, false, true),
{
    standard_engine_encode(bytes)
}

/// Decodes Base64 text in the standard alphabet and `=` padding.
///
/// Succeeds exactly on the canonical encodings of the variant, with the
/// bytes they encode; any other text is rejected.
pub fn decode_base64(encoded: &str) -> (r: Result<Vec<u8>, Base64DecodeError>)
    ensures
        match base64_decoding(encoded@, false, true) {
            Some(v) => r matches Ok(d) && d@ == v,
            None => r == Err::<Vec<u8>, Base64DecodeError>(
                base64_rejection(false, true, encoded.spec_bytes()),
            ),
        },
{
    standard_engine_decode(encoded)
}

/// Encodes with the `base64` crate's `STANDARD_NO_PAD` engine (`Engine::encode`).
///
/// The contract states the RFC 4648 text that the engine documents for the
/// standard alphabet and no padding; the engine panics only when the length of that text
/// overflows `usize`, which the precondition rules out.
#[verifier::external_body]
fn standard_no_pad_engine_encode(bytes: &[u8]) -> (encoded: String)
    requires
        base64_text_len(bytes@.len(), false) <= usize::MAX,
    ensures
        encoded@ == base64_text(bytes@, false, false),
{
    STANDARD_NO_PAD.encode(bytes)
}

/// Decodes with the `base64` crate's `STANDARD_NO_PAD` engine (`Engine::decode`).
///
/// The contract states what the engine's source shows: it accepts exactly
/// the canonical encodings of the standard alphabet and no padding (trailing bits must be
/// zero) and returns the bytes they encode. Which error it reports for other
/// input is left to a name, `base64_rejection`, of the variant and the
/// encoded bytes.
#[verifier::external_body]
fn standard_no_pad_engine_decode(encoded: &str) -> (r: Result<Vec<u8>, Base64DecodeError>)
    ensures
        match base64_decoding(encoded@, false, false) {
            Some(v) => r matches Ok(d) && d@ == v,
            None => r == Err::<Vec<u8>, Base64DecodeError>(
                base64_rejection(false, false, encoded.spec_bytes()),
            ),
        },
{
    match STANDARD_NO_PAD.decode(encoded) {
        Ok(v) => Ok(v),
        Err(base64::DecodeError::InvalidByte(index, byte)) => Err(Base64DecodeError::InvalidByte { index, byte }),
        Err(base64::DecodeError::InvalidLength(len)) => Err(Base64DecodeError::InvalidLength { len }),
        Err(base64::DecodeError::InvalidLastSymbol(index, byte)) => Err(Base64DecodeError::InvalidLastSymbol { index, byte }),
        Err(base64::DecodeError::InvalidPadding) => Err(Base64DecodeError::InvalidPadding),
    }
}

/// Encodes bytes with the standard alphabet and no padding.
pub fn encode_base64_unpadded(bytes: &[u8]) -> (encoded: String)
    requires
        base64_text_len(bytes@.len(), false) <= usize::MAX,
    ensures
        encoded@ == base64_text(bytes@, false, false),
{
    standard_no_pad_engine_encode(bytes)
}

/// Decodes Base64 text in the standard alphabet and no padding.
///
/// Succeeds exactly on the canonical encodings of the variant, with the
/// bytes they encode; any other text is rejected.
pub fn decode_base64_unpadded(encoded: &str) -> (r: Result<Vec<u8>, Base64DecodeError>)
    ensures
        match base64_decoding(encoded@, false, false) {
            Some(v) => r matches Ok(d) && d@ == v,
            None => r == Err::<Vec<u8>, Base64DecodeError>(
                base64_rejection(false, false, encoded.spec_bytes()),
            ),
        },
{
    standard_no_pad_engine_decode(encoded)
}

/// Encodes with the `base64` crate's `URL_SAFE` engine (`Engine::encode`).
///
/// The contract states the RFC 4648 text that the engine documents for the
/// URL-safe alphabet and `=` padding; the engine panics only when the length of that text
/// overflows `usize`, which the precondition rules out.
#[verifier::external_body]
fn url_safe_engine_encode(bytes: &[u8]) -> (encoded: String)
    requires
        base64_text_len(bytes@.len(), true) <= usize::MAX,
    ensures
        encoded@ == base64_text(bytes@, true, true),
{
    URL_SAFE.encode(bytes)
}

/// Decodes with the `base64` crate's `URL_SAFE` engine (`Engine::decode`).
///
/// The contract states what the engine's source shows: it accepts exactly
/// the canonical encodings of the URL-safe alphabet and `=` padding (trailing bits must be
/// zero) and returns the bytes they encode. Which error it reports for other
/// input is left to a name, `base64_rejection`, of the variant and the
/// encoded bytes.
#[verifier::external_body]
fn url_safe_engine_decode(encoded: &str) -> (r: Result<Vec<u8>, Base64DecodeError>)
    ensures
        match base64_decoding(encoded@, true, true) {
            Some(v) => r matches Ok(d) && d@ == v,
            None => r == Err::<Vec<u8>, Base64DecodeError>(
                base64_rejection(true, true, encoded.spec_bytes()),
            ),
        },
{
    match URL_SAFE.decode(encoded) {
        Ok(v) => Ok(v),
        Err(base64::DecodeError::InvalidByte(index, byte)) => Err(Base64DecodeError::InvalidByte { index, byte }),
        Err(base64::DecodeError::InvalidLength(len)) => Err(Base64DecodeError::InvalidLength { len }),
        Err(base64::DecodeError::InvalidLastSymbol(index, byte)) => Err(Base64DecodeError::InvalidLastSymbol { index, byte }),
        Err(base64::DecodeError::InvalidPadding) => Err(Base64DecodeError::InvalidPadding),
    }
}

/// Encodes bytes with the URL-safe alphabet and `=` padding.
pub fn encode_base64_url(bytes: &[u8]) -> (encoded: String)
    requires
        base64_text_len(bytes@.len(), true) <= usize::MAX,
    ensures
        encoded@ == base64_text(bytes@, true, true),
{
    url_safe_engine_encode(bytes)
}

/// Decodes Base64 text in the URL-safe alphabet and `=` padding.
///
/// Succeeds exactly on the canonical encodings of the variant, with the
/// bytes they encode; any other text is rejected.
pub fn decode_base64_url(encoded: &str) -> (r: Result<Vec<u8>, Base64DecodeError>)
    ensures
        match base64_decoding(encoded@, true, true) {
            Some(v) => r matches Ok(d) && d@ == v,
            None => r == Err::<Vec<u8>, Base64DecodeError>(
                base64_rejection(true, true, encoded.spec_bytes()),
            ),
        },
{
    url_safe_engine_decode(encoded)
}

/// Encodes with the `base64` crate's `URL_SAFE_NO_PAD` engine (`Engine::encode`).
///
/// The contract states the RFC 4648 text that the engine documents for the
/// URL-safe alphabet and no padding; the engine panics only when the length of that text
/// overflows `usize`, which the precondition rules out.
#[verifier::external_body]
fn url_safe_no_pad_engine_encode(bytes: &[u8]) -> (encoded: String)
    requires
        base64_text_len(bytes@.len(), false) <= usize::MAX,
    ensures
        encoded@ == base64_text(bytes@, true, false),
{
    URL_SAFE_NO_PAD.encode(bytes)
}

/// Decodes with the `base64` crate's `URL_SAFE_NO_PAD` engine (`Engine::decode`).
///
/// The contract states what the engine's source shows: it accepts exactly
/// the canonical encodings of the URL-safe alphabet and no padding (trailing bits must be
/// zero) and returns the bytes they encode. Which error it reports for other
/// input is left to a name, `base64_rejection`, of the variant and the
/// encoded bytes.
#[verifier::external_body]
fn url_safe_no_pad_engine_decode(encoded: &str) -> (r: Result<Vec<u8>, Base64DecodeError>)
    ensures
        match base64_decoding(encoded@, true, false) {
            Some(v) => r matches Ok(d) && d@ == v,
            None => r == Err::<Vec<u8>, Base64DecodeError>(
                base64_rejection(true, false, encoded.spec_bytes()),
            ),
        },
{
    match URL_SAFE_NO_PAD.decode(encoded) {
        Ok(v) => Ok(v),
        Err(base64::DecodeError::InvalidByte(index, byte)) => Err(Base64DecodeError::InvalidByte { index, byte }),
        Err(base64::DecodeError::InvalidLength(len)) => Err(Base64DecodeError::InvalidLength { len }),
        Err(base64::DecodeError::InvalidLastSymbol(index, byte)) => Err(Base64DecodeError::InvalidLastSymbol { index, byte }),
        Err(base64::DecodeError::InvalidPadding) => Err(Base64DecodeError::InvalidPadding),
    }
}

/// Encodes bytes with the URL-safe alphabet and no padding.
pub fn encode_base64_url_unpadded(bytes: &[u8]) -> (encoded: String)
    requires
        base64_text_len(bytes@.len(), false) <= usize::MAX,
    ensures
        encoded@ == base64_text(bytes@, true, false),
{
    url_safe_no_pad_engine_encode(bytes)
}

/// Decodes Base64 text in the URL-safe alphabet and no padding.
///
/// Succeeds exactly on the canonical encodings of the variant, with the
/// bytes they encode; any other text is rejected.
pub fn decode_base64_url_unpadded(encoded: &str) -> (r: Result<Vec<u8>, Base64DecodeError>)
    ensures
        match base64_decoding(encoded@, true, false) {
            Some(v) => r matches Ok(d) && d@ == v,
            None => r == Err::<Vec<u8>, Base64DecodeError>(
                base64_rejection(true, false, encoded.spec_bytes()),
            ),
        },
{
    url_safe_no_pad_engine_decode(encoded)
}

} // verus!

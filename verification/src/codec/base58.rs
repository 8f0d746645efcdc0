//! Strict Base58 encoding and decoding over the Bitcoin alphabet.
use vstd::prelude::*;
use crate::codec::base_n::{
    lemma_base_n_decoding_errors, lemma_base_n_reencode,
    base_n_decoding, base_n_encoding, decode_base_n, encode_base_n, lemma_base_n_round_trip,
    valid_alphabet, BaseNDecodeError,
};
use crate::text_support::{decimal_chars, hex_byte_chars, owned, push_decimal, push_hex_byte, push_str};
use vstd::string::StringSliceAdditionalSpecFns;
use vstd::utf8::encode_utf8;

verus! {

/// Error returned when Base58 decoding rejects caller-owned input.
#[derive(Debug, Clone, Copy, PartialEq, Eq, Structural)]
#[non_exhaustive]
pub enum Base58DecodeError {
    /// The encoded text contains a byte outside the Bitcoin Base58 alphabet.
    InvalidCharacter {
        /// Zero-based byte position of the invalid byte.
        index: usize,
        /// Invalid byte value.
        byte: u8,
    },
}

impl Base58DecodeError {
    /// Human-readable description of the rejection, for service diagnostics.
    pub fn message(&self) -> (m: String)
        ensures
            m@ == match *self {
                Base58DecodeError::InvalidCharacter { index, byte } => "base58 input contains invalid byte 0x"@
                    + hex_byte_chars(byte) + " at position "@ + decimal_chars(index as nat),
            },
    {
        match *self {
            Base58DecodeError::InvalidCharacter { index, byte } => {
                let mut m = owned("base58 input contains invalid byte 0x");
                push_hex_byte(&mut m, byte);
                push_str(&mut m, " at position ");
                push_decimal(&mut m, index as u128);
                m
            },
        }
    }
}

/// Symbol `i` (`0..58`) of the Bitcoin alphabet
/// `123456789ABCDEFGHJKLMNPQRSTUVWXYZabcdefghijkmnopqrstuvwxyz`:
/// the digits without `0`, the letters without `I`, `O` and `l`.
pub open spec fn base58_symbol(i: int) -> u8 {
    if i < 9 {
        (49 + i) as u8
    } else if i < 17 {
        (65 + (i - 9)) as u8
    } else if i < 22 {
        (74 + (i - 17)) as u8
    } else if i < 33 {
        (80 + (i - 22)) as u8
    } else if i < 44 {
        (97 + (i - 33)) as u8
    } else {
        (109 + (i - 44)) as u8
    }
}

/// The Bitcoin Base58 alphabet.
pub open spec fn base58_alphabet() -> Seq<u8> {
    Seq::new(58, |i: int| base58_symbol(i))
}

/// The Bitcoin alphabet is a usable base-N alphabet.
pub proof fn lemma_base58_alphabet_valid()
    ensures
        valid_alphabet(base58_alphabet()),
{
    let a = base58_alphabet();
    assert forall|i: int, j: int| 0 <= i < j < a.len() implies #[trigger] a[i] < #[trigger] a[j] by {}
}

fn symbol(i: u8) -> (b: u8)
    requires
        i < 58,
    ensures
        b == base58_symbol(i as int),
{
    if i < 9 {
        49 + i
    } else if i < 17 {
        65 + (i - 9)
    } else if i < 22 {
        74 + (i - 17)
    } else if i < 33 {
        80 + (i - 22)
    } else if i < 44 {
        97 + (i - 33)
    } else {
        109 + (i - 44)
    }
}

fn alphabet() -> (a: Vec<u8>)
    ensures
        a@ == base58_alphabet(),
        valid_alphabet(a@),
{
    let mut a: Vec<u8> = Vec::with_capacity(58);
    let mut i: u8 = 0;
    while i < 58
        invariant
            i <= 58,
            a@ =~= base58_alphabet().subrange(0, i as int),
        decreases 58 - i,
    {
        a.push(symbol(i));
        i = i + 1;
    }
    proof {
        assert(a@ =~= base58_alphabet());
        lemma_base58_alphabet_valid();
    }
    a
}

/// Base58 text of `bytes`.
pub open spec fn base58_encoding(bytes: Seq<u8>) -> Seq<char> {
    base_n_encoding(bytes, base58_alphabet())
}

/// What strict Base58 decoding makes of the bytes `b` of the encoded text.
pub open spec fn base58_decoding(b: Seq<u8>) -> Result<Seq<u8>, Base58DecodeError> {
    match base_n_decoding(b, base58_alphabet()) {
        Ok(v) => Ok(v),
        Err(BaseNDecodeError::InvalidCharacter { index, byte }) => Err(
            Base58DecodeError::InvalidCharacter { index, byte },
        ),
    }
}

/// Encodes bytes with the Bitcoin Base58 alphabet.
///
/// Leading zero bytes are preserved as leading `1` characters.
pub fn encode_base58(bytes: &[u8]) -> (encoded: String)
    ensures
        encoded@ == base58_encoding(bytes@),
{
    let a = alphabet();
    encode_base_n(bytes, a.as_slice())
}

/// Decodes Bitcoin Base58 text into bytes.
///
/// Fails with the byte position and value of the first byte outside the
/// alphabet.
pub fn decode_base58(encoded: &str) -> (r: Result<Vec<u8>, Base58DecodeError>)
    ensures
        match base58_decoding(encoded.spec_bytes()) {
            Ok(v) => r matches Ok(d) && d@ == v,
            Err(e) => r == Err::<Vec<u8>, Base58DecodeError>(e),
        },
{
    let a = alphabet();
    match decode_base_n(encoded, a.as_slice()) {
        Ok(d) => Ok(d),
        Err(BaseNDecodeError::InvalidCharacter { index, byte }) => Err(
            Base58DecodeError::InvalidCharacter { index, byte },
        ),
    }
}

/// Decoding the text of a Base58 encoding gives back the encoded bytes.
pub proof fn lemma_base58_round_trip(bytes: Seq<u8>)
    ensures
        base58_decoding(encode_utf8(base58_encoding(bytes))) == Ok::<Seq<u8>, Base58DecodeError>(
            bytes,
        ),
{
    lemma_base58_alphabet_valid();
    lemma_base_n_round_trip(bytes, base58_alphabet());
}

/// Encoding what Base58 text decodes to gives back that text.
pub proof fn lemma_base58_reencode(b: Seq<u8>)
    requires
        base58_decoding(b) is Ok,
    ensures
        encode_utf8(base58_encoding(base58_decoding(b)->Ok_0)) == b,
{
    lemma_base58_alphabet_valid();
    lemma_base_n_reencode(b, base58_alphabet());
}

/// Strict Base58 decoding succeeds exactly when every byte is in the
/// alphabet, and otherwise reports the first byte that is not, with its
/// position.
pub proof fn lemma_base58_decoding_errors(b: Seq<u8>)
    requires
        b.len() <= usize::MAX,
    ensures
        base58_decoding(b) is Ok <==> forall|j: int|
            0 <= j < b.len() ==> base58_alphabet().contains(#[trigger] b[j]),
        base58_decoding(b) matches Err(Base58DecodeError::InvalidCharacter { index, byte }) ==> {
            &&& index < b.len()
            &&& byte == b[index as int]
            &&& !base58_alphabet().contains(b[index as int])
            &&& forall|j: int| 0 <= j < index ==> base58_alphabet().contains(#[trigger] b[j])
        },
{
    lemma_base_n_decoding_errors(b, base58_alphabet());
}

} // verus!

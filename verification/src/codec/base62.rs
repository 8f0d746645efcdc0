//! Strict Base62 encoding and decoding over the alphabet.
use vstd::prelude::*;
use crate::codec::base_n::{
    lemma_base_n_decoding_errors, lemma_base_n_reencode,
    base_n_decoding, base_n_encoding, decode_base_n, encode_base_n, lemma_base_n_round_trip,
    valid_alphabet, BaseNDecodeError,
};
use crate::text_support::{decimal_chars, hex_byte_chars, owned, push_decimal, push_hex_byte, push_str};
use vstd::string::StringSliceAdditionalSpecFns;
use vstd::utf8::encode_utf8;

verus! {

/// Error returned when Base62 decoding rejects caller-owned input.
#[derive(Debug, Clone, Copy, PartialEq, Eq, Structural)]
#[non_exhaustive]
pub enum Base62DecodeError {
    /// The encoded text contains a byte outside the Base62 alphabet.
    InvalidCharacter {
        /// Zero-based byte position of the invalid byte.
        index: usize,
        /// Invalid byte value.
        byte: u8,
    },
}

impl Base62DecodeError {
    /// Human-readable description of the rejection, for service diagnostics.
    pub fn message(&self) -> (m: String)
        ensures
            m@ == match *self {
                Base62DecodeError::InvalidCharacter { index, byte } => "base62 input contains invalid byte 0x"@
                    + hex_byte_chars(byte) + " at position "@ + decimal_chars(index as nat),
            },
    {
        match *self {
            Base62DecodeError::InvalidCharacter { index, byte } => {
                let mut m = owned("base62 input contains invalid byte 0x");
                push_hex_byte(&mut m, byte);
                push_str(&mut m, " at position ");
                push_decimal(&mut m, index as u128);
                m
            },
        }
    }
}

/// Symbol `i` (`0..62`) of the alphabet
/// `0123456789ABCDEFGHIJKLMNOPQRSTUVWXYZabcdefghijklmnopqrstuvwxyz`.
pub open spec fn base62_symbol(i: int) -> u8 {
    if i < 10 {
        (48 + i) as u8
    } else if i < 36 {
        (65 + (i - 10)) as u8
    } else {
        (97 + (i - 36)) as u8
    }
}

/// The Base62 alphabet.
pub open spec fn base62_alphabet() -> Seq<u8> {
    Seq::new(62, |i: int| base62_symbol(i))
}

/// The Base62 alphabet is a usable base-N alphabet.
pub proof fn lemma_base62_alphabet_valid()
    ensures
        valid_alphabet(base62_alphabet()),
{
    let a = base62_alphabet();
    assert forall|i: int, j: int| 0 <= i < j < a.len() implies #[trigger] a[i] < #[trigger] a[j] by {}
}

fn symbol(i: u8) -> (b: u8)
    requires
        i < 62,
    ensures
        b == base62_symbol(i as int),
{
    if i < 10 {
        48 + i
    } else if i < 36 {
        65 + (i - 10)
    } else {
        97 + (i - 36)
    }
}

fn alphabet() -> (a: Vec<u8>)
    ensures
        a@ == base62_alphabet(),
        valid_alphabet(a@),
{
    let mut a: Vec<u8> = Vec::with_capacity(62);
    let mut i: u8 = 0;
    while i < 62
        invariant
            i <= 62,
            a@ =~= base62_alphabet().subrange(0, i as int),
        decreases 62 - i,
    {
        a.push(symbol(i));
        i = i + 1;
    }
    proof {
        assert(a@ =~= base62_alphabet());
        lemma_base62_alphabet_valid();
    }
    a
}

/// Base62 text of `bytes`.
pub open spec fn base62_encoding(bytes: Seq<u8>) -> Seq<char> {
    base_n_encoding(bytes, base62_alphabet())
}

/// What strict Base62 decoding makes of the bytes `b` of the encoded text.
pub open spec fn base62_decoding(b: Seq<u8>) -> Result<Seq<u8>, Base62DecodeError> {
    match base_n_decoding(b, base62_alphabet()) {
        Ok(v) => Ok(v),
        Err(BaseNDecodeError::InvalidCharacter { index, byte }) => Err(
            Base62DecodeError::InvalidCharacter { index, byte },
        ),
    }
}

/// Encodes bytes with the Base62 alphabet.
///
/// Leading zero bytes are preserved as leading `0` characters.
pub fn encode_base62(bytes: &[u8]) -> (encoded: String)
    ensures
        encoded@ == base62_encoding(bytes@),
{
    let a = alphabet();
    encode_base_n(bytes, a.as_slice())
}

/// Decodes Base62 text into bytes.
///
/// Fails with the byte position and value of the first byte outside the
/// alphabet.
pub fn decode_base62(encoded: &str) -> (r: Result<Vec<u8>, Base62DecodeError>)
    ensures
        match base62_decoding(encoded.spec_bytes()) {
            Ok(v) => r matches Ok(d) && d@ == v,
            Err(e) => r == Err::<Vec<u8>, Base62DecodeError>(e),
        },
{
    let a = alphabet();
    match decode_base_n(encoded, a.as_slice()) {
        Ok(d) => Ok(d),
        Err(BaseNDecodeError::InvalidCharacter { index, byte }) => Err(
            Base62DecodeError::InvalidCharacter { index, byte },
        ),
    }
}

/// Decoding the text of a Base62 encoding gives back the encoded bytes.
pub proof fn lemma_base62_round_trip(bytes: Seq<u8>)
    ensures
        base62_decoding(encode_utf8(base62_encoding(bytes))) == Ok::<Seq<u8>, Base62DecodeError>(
            bytes,
        ),
{
    lemma_base62_alphabet_valid();
    lemma_base_n_round_trip(bytes, base62_alphabet());
}

/// Encoding what Base62 text decodes to gives back that text.
pub proof fn lemma_base62_reencode(b: Seq<u8>)
    requires
        base62_decoding(b) is Ok,
    ensures
        encode_utf8(base62_encoding(base62_decoding(b)->Ok_0)) == b,
{
    lemma_base62_alphabet_valid();
    lemma_base_n_reencode(b, base62_alphabet());
}

/// Strict Base62 decoding succeeds exactly when every byte is in the
/// alphabet, and otherwise reports the first byte that is not, with its
/// position.
pub proof fn lemma_base62_decoding_errors(b: Seq<u8>)
    requires
        b.len() <= usize::MAX,
    ensures
        base62_decoding(b) is Ok <==> forall|j: int|
            0 <= j < b.len() ==> base62_alphabet().contains(#[trigger] b[j]),
        base62_decoding(b) matches Err(Base62DecodeError::InvalidCharacter { index, byte }) ==> {
            &&& index < b.len()
            &&& byte == b[index as int]
            &&& !base62_alphabet().contains(b[index as int])
            &&& forall|j: int| 0 <= j < index ==> base62_alphabet().contains(#[trigger] b[j])
        },
{
    lemma_base_n_decoding_errors(b, base62_alphabet());
}

} // verus!

//! Strict hexadecimal encoding and decoding.
use vstd::prelude::*;
use crate::text_support::{
    decimal_chars, hex_byte_chars, owned, push_char, push_decimal, push_hex_byte, push_str,
};
use vstd::string::StringSliceAdditionalSpecFns;
use vstd::utf8::{encode_utf8, is_ascii_chars, is_ascii_chars_encode_utf8};

verus! {

/// Error returned when strict hexadecimal decoding rejects caller-owned input.
#[derive(Debug, Clone, Copy, PartialEq, Eq, Structural)]
#[non_exhaustive]
pub enum HexDecodeError {
    /// The encoded text has an odd byte length.
    OddLength {
        /// Number of bytes in the encoded text.
        len: usize,
    },
    /// The encoded text contains a non-hexadecimal byte.
    InvalidCharacter {
        /// Zero-based byte position of the invalid character.
        index: usize,
        /// Invalid byte value.
        byte: u8,
    },
}

impl HexDecodeError {
    /// Human-readable description of the rejection, for service diagnostics.
    pub fn message(&self) -> (m: String)
        ensures
            m@ == match *self {
                HexDecodeError::OddLength { len } => "hex input must have even byte length, got "@
                    + decimal_chars(len as nat),
                HexDecodeError::InvalidCharacter { index, byte } => "hex input contains invalid byte 0x"@
                    + hex_byte_chars(byte) + " at position "@ + decimal_chars(index as nat),
            },
    {
        match *self {
            HexDecodeError::OddLength { len } => {
                let mut m = owned("hex input must have even byte length, got ");
                push_decimal(&mut m, len as u128);
                m
            },
            HexDecodeError::InvalidCharacter { index, byte } => {
                let mut m = owned("hex input contains invalid byte 0x");
                push_hex_byte(&mut m, byte);
                push_str(&mut m, " at position ");
                push_decimal(&mut m, index as u128);
                m
            },
        }
    }
}

/// The hexadecimal digit character for a nibble value `n` (`0..16`).
pub open spec fn hex_digit_char(n: int, upper: bool) -> char {
    if n < 10 {
        (48 + n) as char
    } else if upper {
        (55 + n) as char
    } else {
        (87 + n) as char
    }
}

/// Hexadecimal text of `bytes`: two digits per byte, high nibble first.
pub open spec fn hex_encoding(bytes: Seq<u8>, upper: bool) -> Seq<char> {
    Seq::new(
        2 * bytes.len(),
        |i: int|
            if i % 2 == 0 {
                hex_digit_char((bytes[i / 2] / 16) as int, upper)
            } else {
                hex_digit_char((bytes[i / 2] % 16) as int, upper)
            },
    )
}

/// Value of an ASCII hexadecimal digit byte, or `None` when `b` is no such digit.
pub open spec fn hex_value(b: u8) -> Option<u8> {
    if 48 <= b <= 57 {
        Some((b - 48) as u8)
    } else if 97 <= b <= 102 {
        Some((b - 87) as u8)
    } else if 65 <= b <= 70 {
        Some((b - 55) as u8)
    } else {
        None
    }
}

/// Index of the first byte of `b` that is not a hexadecimal digit.
pub open spec fn first_non_hex(b: Seq<u8>) -> Option<int>
    decreases b.len(),
{
    if b.len() == 0 {
        None
    } else {
        match first_non_hex(b.drop_last()) {
            Some(i) => Some(i),
            None => if hex_value(b.last()) is None {
                Some(b.len() - 1)
            } else {
                None
            },
        }
    }
}

/// Bytes denoted by an even-length string of hexadecimal digits.
pub open spec fn hex_pairs(b: Seq<u8>) -> Seq<u8> {
    Seq::new(
        b.len() / 2,
        |i: int| (hex_value(b[2 * i])->0 * 16 + hex_value(b[2 * i + 1])->0) as u8,
    )
}

/// What strict decoding makes of the bytes `b` of the encoded text.
pub open spec fn hex_decoding(b: Seq<u8>) -> Result<Seq<u8>, HexDecodeError> {
    if b.len() % 2 != 0 {
        Err(HexDecodeError::OddLength { len: b.len() as usize })
    } else {
        match first_non_hex(b) {
            Some(i) => Err(HexDecodeError::InvalidCharacter { index: i as usize, byte: b[i] }),
            None => Ok(hex_pairs(b)),
        }
    }
}

/// The byte that strict decoding reports is the first byte that is not an
/// ASCII hexadecimal digit; with none such, every byte is one.
pub proof fn lemma_first_non_hex(b: Seq<u8>)
    ensures
        match first_non_hex(b) {
            Some(i) => 0 <= i < b.len() && hex_value(b[i]) is None
                && forall|j: int| 0 <= j < i ==> hex_value(#[trigger] b[j]) is Some,
            None => forall|j: int| 0 <= j < b.len() ==> hex_value(#[trigger] b[j]) is Some,
        },
    decreases b.len(),
{
    if b.len() > 0 {
        let p = b.drop_last();
        lemma_first_non_hex(p);
        assert forall|j: int| 0 <= j < p.len() implies p[j] == b[j] by {}
        match first_non_hex(p) {
            Some(i) => {
                assert(p[i] == b[i]);
                assert forall|j: int| 0 <= j < i implies hex_value(#[trigger] b[j]) is Some by {
                    assert(p[j] == b[j]);
                }
            },
            None => {
                if hex_value(b.last()) is Some {
                    assert forall|j: int| 0 <= j < b.len() implies hex_value(#[trigger] b[j]) is Some by {
                        if j < p.len() {
                            assert(p[j] == b[j]);
                        }
                    }
                } else {
                    assert forall|j: int| 0 <= j < b.len() - 1 implies hex_value(#[trigger] b[j]) is Some by {
                        assert(p[j] == b[j]);
                    }
                }
            },
        }
    }
}

proof fn lemma_first_non_hex_prefix(b: Seq<u8>, n: int)
    requires
        0 <= n <= b.len(),
        forall|j: int| 0 <= j < n ==> hex_value(#[trigger] b[j]) is Some,
        n < b.len() ==> hex_value(b[n]) is None,
        n == b.len() ==> true,
    ensures
        n < b.len() ==> first_non_hex(b) == Some(n),
        n == b.len() ==> first_non_hex(b) is None,
{
    lemma_first_non_hex(b);
    if n < b.len() {
        match first_non_hex(b) {
            Some(i) => {
                if i < n {
                    assert(hex_value(b[i]) is Some);
                }
                if i > n {
                    assert(hex_value(b[n]) is Some);
                }
            },
            None => {
                assert(hex_value(b[n]) is Some);
            },
        }
    } else {
        match first_non_hex(b) {
            Some(i) => {
                assert(hex_value(b[i]) is Some);
            },
            None => {},
        }
    }
}

/// Decoding the text of a hexadecimal encoding gives back the encoded bytes,
/// for both the lowercase and the uppercase alphabet.
pub proof fn lemma_hex_round_trip(bytes: Seq<u8>, upper: bool)
    ensures
        hex_decoding(encode_utf8(hex_encoding(bytes, upper))) == Ok::<Seq<u8>, HexDecodeError>(
            bytes,
        ),
{
    let chars = hex_encoding(bytes, upper);
    assert(is_ascii_chars(chars));
    is_ascii_chars_encode_utf8(chars);
    let b = encode_utf8(chars);
    assert forall|j: int| 0 <= j < b.len() implies hex_value(#[trigger] b[j]) is Some
        && hex_value(b[j])->0 == (if j % 2 == 0 { bytes[j / 2] / 16 } else { bytes[j / 2] % 16 }) by {
        assert(chars[j] as u8 == b[j]);
    }
    lemma_first_non_hex_prefix(b, b.len() as int);
    assert forall|i: int| 0 <= i < bytes.len() implies #[trigger] hex_pairs(b)[i] == bytes[i] by {
        assert(hex_value(b[2 * i]) is Some);
        assert(hex_value(b[2 * i + 1]) is Some);
        assert((2 * i) % 2 == 0);
        assert((2 * i + 1) % 2 == 1);
        assert((2 * i) / 2 == i);
        assert((2 * i + 1) / 2 == i);
    }
    assert(hex_pairs(b) =~= bytes);
}

fn encode_hex_with_alphabet(bytes: &[u8], upper: bool) -> (encoded: String)
    ensures
        encoded@ == hex_encoding(bytes@, upper),
{
    let mut encoded = String::new();
    let mut i: usize = 0;
    while i < bytes.len()
        invariant
            0 <= i <= bytes.len(),
            encoded@ =~= hex_encoding(bytes@.subrange(0, i as int), upper),
        decreases bytes.len() - i,
    {
        let byte = bytes[i];
        let high = nibble_char(byte / 16, upper);
        let low = nibble_char(byte % 16, upper);
        push_char(&mut encoded, high);
        push_char(&mut encoded, low);
        proof {
            assert(bytes@.subrange(0, i + 1).drop_last() =~= bytes@.subrange(0, i as int));
        }
        i = i + 1;
    }
    proof {
        assert(bytes@.subrange(0, bytes@.len() as int) =~= bytes@);
    }
    encoded
}

fn nibble_char(n: u8, upper: bool) -> (c: char)
    requires
        n < 16,
    ensures
        c == hex_digit_char(n as int, upper),
{
    if n < 10 {
        (48 + n) as char
    } else if upper {
        (55 + n) as char
    } else {
        (87 + n) as char
    }
}

/// Encodes bytes as lowercase hexadecimal text.
pub fn encode_hex_lower(bytes: &[u8]) -> (encoded: String)
    ensures
        encoded@ == hex_encoding(bytes@, false),
{
    encode_hex_with_alphabet(bytes, false)
}

/// Encodes bytes as uppercase hexadecimal text.
pub fn encode_hex_upper(bytes: &[u8]) -> (encoded: String)
    ensures
        encoded@ == hex_encoding(bytes@, true),
{
    encode_hex_with_alphabet(bytes, true)
}

fn decode_nibble(byte: u8, index: usize) -> (r: Result<u8, HexDecodeError>)
    ensures
        match hex_value(byte) {
            Some(v) => r == Ok::<u8, HexDecodeError>(v),
            None => r == Err::<u8, HexDecodeError>(
                HexDecodeError::InvalidCharacter { index, byte },
            ),
        },
{
    if 48 <= byte && byte <= 57 {
        Ok(byte - 48)
    } else if 97 <= byte && byte <= 102 {
        Ok(byte - 87)
    } else if 65 <= byte && byte <= 70 {
        Ok(byte - 55)
    } else {
        Err(HexDecodeError::InvalidCharacter { index, byte })
    }
}

/// Decodes strict hexadecimal text into bytes.
///
/// Upper- and lowercase ASCII digits are accepted; odd-length input, prefixes,
/// whitespace, separators and non-ASCII bytes are rejected. Positions are byte
/// positions in the UTF-8 text.
pub fn decode_hex(encoded: &str) -> (r: Result<Vec<u8>, HexDecodeError>)
    ensures
        match hex_decoding(encoded.spec_bytes()) {
            Ok(v) => r matches Ok(d) && d@ == v,
            Err(e) => r == Err::<Vec<u8>, HexDecodeError>(e),
        },
{
    let bytes = encoded.as_bytes();
    let ghost b = bytes@;
    if bytes.len() % 2 != 0 {
        return Err(HexDecodeError::OddLength { len: bytes.len() });
    }
    let mut decoded: Vec<u8> = Vec::with_capacity(bytes.len() / 2);
    let mut pair: usize = 0;
    while pair < bytes.len() / 2
        invariant
            b == bytes@,
            b == encoded.spec_bytes(),
            b.len() % 2 == 0,
            0 <= pair <= b.len() / 2,
            forall|j: int| 0 <= j < 2 * pair ==> hex_value(#[trigger] b[j]) is Some,
            decoded@ =~= hex_pairs(b).subrange(0, pair as int),
        decreases bytes.len() / 2 - pair,
    {
        let high_index = pair * 2;
        let high = match decode_nibble(bytes[high_index], high_index) {
            Ok(v) => v,
            Err(e) => {
                proof {
                    lemma_first_non_hex_prefix(b, high_index as int);
                }
                return Err(e);
            },
        };
        let low = match decode_nibble(bytes[high_index + 1], high_index + 1) {
            Ok(v) => v,
            Err(e) => {
                proof {
                    assert forall|j: int| 0 <= j < high_index + 1 implies hex_value(
                        #[trigger] b[j],
                    ) is Some by {
                        if j == high_index {
                        }
                    }
                    lemma_first_non_hex_prefix(b, high_index + 1);
                }
                return Err(e);
            },
        };
        decoded.push(high * 16 + low);
        proof {
            assert forall|j: int| 0 <= j < 2 * (pair + 1) implies hex_value(
                #[trigger] b[j],
            ) is Some by {
                if j == high_index || j == high_index + 1 {
                }
            }
        }
        pair = pair + 1;
    }
    proof {
        lemma_first_non_hex_prefix(b, b.len() as int);
        assert(hex_pairs(b).subrange(0, (b.len() / 2) as int) =~= hex_pairs(b));
    }
    Ok(decoded)
}

/// When strict decoding fails and why: odd length first; otherwise it
/// succeeds exactly when every byte is an ASCII hexadecimal digit, and
/// reports the first byte that is not, with its position.
pub proof fn lemma_hex_decoding_errors(b: Seq<u8>)
    requires
        b.len() <= usize::MAX,
    ensures
        b.len() % 2 != 0 ==> hex_decoding(b) == Err::<Seq<u8>, HexDecodeError>(
            HexDecodeError::OddLength { len: b.len() as usize },
        ),
        b.len() % 2 == 0 ==> (hex_decoding(b) is Ok <==> forall|j: int|
            0 <= j < b.len() ==> hex_value(#[trigger] b[j]) is Some),
        hex_decoding(b) matches Err(HexDecodeError::InvalidCharacter { index, byte }) ==> {
            &&& index < b.len()
            &&& byte == b[index as int]
            &&& hex_value(b[index as int]) is None
            &&& forall|j: int| 0 <= j < index ==> hex_value(#[trigger] b[j]) is Some
        },
{
    lemma_first_non_hex(b);
}

} // verus!

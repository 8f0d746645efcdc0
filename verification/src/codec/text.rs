//! UTF-8 boundary between text and the bytes that binary codecs work on.
use vstd::prelude::*;
use crate::text_support::{decimal_chars, owned, push_decimal, push_str};
use vstd::slice::slice_to_vec;
use vstd::string::StringSliceAdditionalSpecFns;
use vstd::utf8::{decode_utf8, encode_utf8, encode_utf8_decode_utf8, encode_utf8_valid_utf8, valid_utf8};

verus! {

/// Error returned when bytes cannot be decoded as UTF-8 text.
#[derive(Debug, Clone, Copy, PartialEq, Eq, Structural)]
#[non_exhaustive]
pub enum TextDecodeError {
    /// The byte sequence is not valid UTF-8.
    InvalidUtf8 {
        /// Byte offset up to which the input was valid UTF-8.
        valid_up_to: usize,
        /// Length in bytes of the invalid sequence when known.
        error_len: Option<usize>,
    },
}

impl TextDecodeError {
    /// Human-readable description of the rejection, for service diagnostics.
    pub fn message(&self) -> (m: String)
        ensures
            m@ == match *self {
                TextDecodeError::InvalidUtf8 { valid_up_to, error_len: Some(n) } =>
                    "text input contains invalid UTF-8 sequence of length "@ + decimal_chars(n as nat)
                    + " after byte "@ + decimal_chars(valid_up_to as nat),
                TextDecodeError::InvalidUtf8 { valid_up_to, error_len: None } =>
                    "text input contains incomplete UTF-8 sequence after byte "@ + decimal_chars(
                        valid_up_to as nat,
                    ),
            },
    {
        match *self {
            TextDecodeError::InvalidUtf8 { valid_up_to, error_len: Some(n) } => {
                let mut m = owned("text input contains invalid UTF-8 sequence of length ");
                push_decimal(&mut m, n as u128);
                push_str(&mut m, " after byte ");
                push_decimal(&mut m, valid_up_to as u128);
                m
            },
            TextDecodeError::InvalidUtf8 { valid_up_to, error_len: None } => {
                let mut m = owned("text input contains incomplete UTF-8 sequence after byte ");
                push_decimal(&mut m, valid_up_to as u128);
                m
            },
        }
    }
}

/// Length of the longest prefix of `bytes` that is valid UTF-8.
pub open spec fn utf8_valid_prefix_len(bytes: Seq<u8>) -> int {
    choose|i: int|
        0 <= i <= bytes.len() && valid_utf8(bytes.take(i)) && forall|j: int|
            i < j <= bytes.len() ==> !valid_utf8(#[trigger] bytes.take(j))
}

/// Length of the invalid sequence that `String::from_utf8` reports at the end
/// of the longest valid prefix of `bytes` (`None` when the input ends inside
/// an incomplete sequence).
pub uninterp spec fn utf8_error_len(bytes: Seq<u8>) -> Option<usize>;

/// Text that `String::from_utf8_lossy` makes of `bytes`.
pub uninterp spec fn utf8_lossy_text(bytes: Seq<u8>) -> Seq<char>;

/// What strict UTF-8 decoding makes of `bytes`.
pub open spec fn utf8_decoding(bytes: Seq<u8>) -> Result<Seq<char>, TextDecodeError> {
    if valid_utf8(bytes) {
        Ok(decode_utf8(bytes))
    } else {
        Err(
            TextDecodeError::InvalidUtf8 {
                valid_up_to: utf8_valid_prefix_len(bytes) as usize,
                error_len: utf8_error_len(bytes),
            },
        )
    }
}

/// Converts with `String::from_utf8`.
///
/// The contract states what its documentation says: valid UTF-8 becomes the
/// text it encodes; otherwise the error's `valid_up_to` is
/// the length of the longest valid prefix. The error's `error_len` is left to
/// a name, `utf8_error_len`, of the bytes.
#[verifier::external_body]
fn string_from_utf8(bytes: Vec<u8>) -> (r: Result<String, TextDecodeError>)
    ensures
        match utf8_decoding(bytes@) {
            Ok(t) => r matches Ok(s) && s@ == t,
            Err(e) => r == Err::<String, TextDecodeError>(e),
        },
        r is Err ==> utf8_error_len(bytes@) == r->Err_0->error_len,
{
    match String::from_utf8(bytes) {
        Ok(s) => Ok(s),
        Err(e) => Err(TextDecodeError::InvalidUtf8 {
            valid_up_to: e.utf8_error().valid_up_to(),
            error_len: e.utf8_error().error_len(),
        }),
    }
}

/// Converts with `String::from_utf8_lossy`.
///
/// The contract states what its documentation says of valid input: it comes
/// back as the text it encodes. What replaces invalid sequences is left to a
/// name, `utf8_lossy_text`, of the bytes.
#[verifier::external_body]
fn string_from_utf8_lossy(bytes: &[u8]) -> (s: String)
    ensures
        s@ == utf8_lossy_text(bytes@),
        valid_utf8(bytes@) ==> s@ == decode_utf8(bytes@),
{
    String::from_utf8_lossy(bytes).into_owned()
}

/// Encodes UTF-8 text into owned bytes: the text's own UTF-8 encoding.
pub fn encode_utf8_text(text: &str) -> (bytes: Vec<u8>)
    ensures
        bytes@ == text.spec_bytes(),
{
    slice_to_vec(text.as_bytes())
}

/// Decodes owned bytes into UTF-8 text without lossy replacement.
///
/// Valid UTF-8 becomes the text it encodes; invalid input is rejected with
/// the length of its longest valid prefix.
pub fn decode_utf8_text(bytes: Vec<u8>) -> (r: Result<String, TextDecodeError>)
    ensures
        match utf8_decoding(bytes@) {
            Ok(t) => r matches Ok(s) && s@ == t,
            Err(e) => r == Err::<String, TextDecodeError>(e),
        },
{
    string_from_utf8(bytes)
}

/// Decodes bytes into UTF-8 text, replacing invalid sequences with U+FFFD.
///
/// Valid UTF-8 comes back unchanged.
pub fn decode_utf8_text_lossy(bytes: &[u8]) -> (s: String)
    ensures
        s@ == utf8_lossy_text(bytes@),
        valid_utf8(bytes@) ==> s@ == decode_utf8(bytes@),
{
    string_from_utf8_lossy(bytes)
}

/// Strict decoding of the UTF-8 encoding of a text gives the text back.
pub proof fn lemma_utf8_text_round_trip(text: Seq<char>)
    ensures
        utf8_decoding(encode_utf8(text)) == Ok::<Seq<char>, TextDecodeError>(text),
{
    encode_utf8_valid_utf8(text);
    encode_utf8_decode_utf8(text);
}

} // verus!

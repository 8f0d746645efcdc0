//! String validation and defaults for caller-owned text.
use vstd::prelude::*;
use crate::text_support::{chars_of, owned};
use crate::validation::error::{ValidationError, ValidationErrorView};
use vstd::string::StringSliceAdditionalSpecFns;
use vstd::utf8::{encode_utf8_valid_utf8, is_char_boundary};

verus! {

/// Whether `c` has the Unicode `White_Space` property, as `char::is_whitespace`
/// documents it.
pub open spec fn is_whitespace_char(c: char) -> bool {
    let v = c as u32;
    ||| 0x9 <= v <= 0xD
    ||| v == 0x20
    ||| v == 0x85
    ||| v == 0xA0
    ||| v == 0x1680
    ||| 0x2000 <= v <= 0x200A
    ||| v == 0x2028
    ||| v == 0x2029
    ||| v == 0x202F
    ||| v == 0x205F
    ||| v == 0x3000
}

/// Whether `c` is a Unicode whitespace character.
pub fn is_whitespace(c: char) -> (b: bool)
    ensures
        b == is_whitespace_char(c),
{
    let v = c as u32;
    (0x9 <= v && v <= 0xD) || v == 0x20 || v == 0x85 || v == 0xA0 || v == 0x1680 || (0x2000 <= v
        && v <= 0x200A) || v == 0x2028 || v == 0x2029 || v == 0x202F || v == 0x205F || v == 0x3000
}

/// Whether `s` holds at least one non-whitespace character.
pub open spec fn has_text_spec(s: Seq<char>) -> bool {
    exists|i: int| 0 <= i < s.len() && !is_whitespace_char(#[trigger] s[i])
}

/// Returns `Ok(value)` when it is not empty.
///
/// Whitespace-only input is accepted; use `require_not_blank` to reject it.
pub fn require_not_empty<'a>(name: &str, value: &'a str) -> (r: Result<&'a str, ValidationError>)
    ensures
        value@.len() > 0 ==> r == Ok::<&'a str, ValidationError>(value),
        value@.len() == 0 ==> (r matches Err(e) && e@ == (ValidationErrorView::Empty {
            name: name@,
        })),
{
    if value.is_empty() {
        Err(ValidationError::Empty { name: owned(name) })
    } else {
        Ok(value)
    }
}

/// Returns `Ok(value)` when it contains at least one non-whitespace character.
pub fn require_not_blank<'a>(name: &str, value: &'a str) -> (r: Result<&'a str, ValidationError>)
    ensures
        has_text_spec(value@) ==> r == Ok::<&'a str, ValidationError>(value),
        !has_text_spec(value@) ==> (r matches Err(e) && e@ == (ValidationErrorView::Blank {
            name: name@,
        })),
{
    if has_text(value) {
        Ok(value)
    } else {
        Err(ValidationError::Blank { name: owned(name) })
    }
}

/// Returns whether the value contains at least one non-whitespace character.
pub fn has_text(value: &str) -> (b: bool)
    ensures
        b == has_text_spec(value@),
{
    let chars = chars_of(value);
    let mut i: usize = 0;
    while i < chars.len()
        invariant
            chars@ == value@,
            i <= chars.len(),
            forall|j: int| 0 <= j < i ==> is_whitespace_char(#[trigger] chars@[j]),
        decreases chars.len() - i,
    {
        if !is_whitespace(chars[i]) {
            return true;
        }
        i = i + 1;
    }
    false
}

/// Returns `fallback` when `value` is empty.
pub fn empty_to_default<'a>(value: &'a str, fallback: &'a str) -> (r: &'a str)
    ensures
        r == (if value@.len() == 0 { fallback } else { value }),
{
    if value.is_empty() {
        fallback
    } else {
        value
    }
}

/// Returns `fallback` when `value` is empty or only whitespace.
pub fn blank_to_default<'a>(value: &'a str, fallback: &'a str) -> (r: &'a str)
    ensures
        r == (if has_text_spec(value@) { value } else { fallback }),
{
    if has_text(value) {
        value
    } else {
        fallback
    }
}

/// The largest char boundary of `bytes` at or below `limit`.
pub open spec fn boundary_at_or_below(bytes: Seq<u8>, limit: int) -> int
    decreases limit,
{
    if limit <= 0 {
        0
    } else if is_char_boundary(bytes, limit) {
        limit
    } else {
        boundary_at_or_below(bytes, limit - 1)
    }
}

/// Byte length that `truncate_utf8_bytes` keeps of `bytes` for a limit of
/// `max_bytes >= 0`.
pub open spec fn truncation_len(bytes: Seq<u8>, max_bytes: int) -> int {
    if bytes.len() <= max_bytes {
        bytes.len() as int
    } else {
        boundary_at_or_below(bytes, max_bytes)
    }
}

/// Truncates `value` to at most `max_bytes` without splitting a UTF-8 scalar.
///
/// The result is the longest prefix of at most `max_bytes` bytes that ends
/// on a character boundary; it may be shorter than `max_bytes` when the limit
/// falls inside a multi-byte scalar. A negative limit is rejected.
pub fn truncate_utf8_bytes<'a>(value: &'a str, max_bytes: isize) -> (r: Result<&'a str, ValidationError>)
    ensures
        max_bytes < 0 ==> (r matches Err(e) && e@ == (ValidationErrorView::NegativeLimit {
            name: "max_bytes"@,
            value: max_bytes,
        })),
        max_bytes >= 0 ==> (r matches Ok(t) && t.spec_bytes() == value.spec_bytes().take(
            truncation_len(value.spec_bytes(), max_bytes as int),
        )),
{
    if max_bytes < 0 {
        return Err(ValidationError::NegativeLimit { name: owned("max_bytes"), value: max_bytes });
    }
    let mut max: usize = max_bytes as usize;
    let ghost b = value.spec_bytes();
    let bytes = value.as_bytes();
    if bytes.len() <= max {
        proof {
            assert(b.take(b.len() as int) =~= b);
        }
        return Ok(value);
    }
    proof {
        encode_utf8_valid_utf8(value@);
    }
    while max > 0 && !value.is_char_boundary(max)
        invariant
            b == value.spec_bytes(),
            vstd::utf8::valid_utf8(b),
            max < b.len(),
            boundary_at_or_below(b, max as int) == truncation_len(b, max_bytes as int),
        decreases max,
    {
        max = max - 1;
    }
    let (head, _) = value.split_at(max);
    Ok(head)
}

proof fn lemma_boundary_at_or_below(bytes: Seq<u8>, limit: int)
    requires
        vstd::utf8::valid_utf8(bytes),
        limit <= bytes.len(),
    ensures
        0 <= boundary_at_or_below(bytes, limit),
        limit >= 0 ==> boundary_at_or_below(bytes, limit) <= limit,
        is_char_boundary(bytes, boundary_at_or_below(bytes, limit)),
        forall|k: int|
            boundary_at_or_below(bytes, limit) < k <= limit ==> !#[trigger] is_char_boundary(bytes, k),
    decreases limit,
{
    if limit > 0 && !is_char_boundary(bytes, limit) {
        lemma_boundary_at_or_below(bytes, limit - 1);
    }
}

/// Truncation keeps the longest prefix that fits: for UTF-8 bytes and a
/// limit `max_bytes >= 0`, the kept length is the whole input when it fits;
/// otherwise it is at most `max_bytes`, ends on a character boundary, and
/// no longer length up to `max_bytes` does. In particular a limit that is
/// itself a character boundary is kept exactly.
pub proof fn lemma_truncation_is_longest_boundary_prefix(bytes: Seq<u8>, max_bytes: int)
    requires
        vstd::utf8::valid_utf8(bytes),
        max_bytes >= 0,
    ensures
        bytes.len() <= max_bytes ==> truncation_len(bytes, max_bytes) == bytes.len(),
        bytes.len() > max_bytes ==> {
            &&& 0 <= truncation_len(bytes, max_bytes) <= max_bytes
            &&& is_char_boundary(bytes, truncation_len(bytes, max_bytes))
            &&& forall|k: int|
                truncation_len(bytes, max_bytes) < k <= max_bytes ==> !#[trigger] is_char_boundary(
                    bytes,
                    k,
                )
        },
        bytes.len() > max_bytes && is_char_boundary(bytes, max_bytes) ==> truncation_len(
            bytes,
            max_bytes,
        ) == max_bytes,
{
    if bytes.len() > max_bytes {
        lemma_boundary_at_or_below(bytes, max_bytes);
    }
}

} // verus!

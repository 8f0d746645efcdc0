//! Small, precisely specified building blocks for producing and reading text.
use vstd::prelude::*;

verus! {

/// Appends one character to a `String`.
///
/// Calls `String::push`; the contract states what its documentation says:
/// the character is appended at the end and nothing else changes.
#[verifier::external_body]
pub(crate) fn push_char(s: &mut String, c: char)
    ensures
        final(s)@ == old(s)@.push(c),
{
    s.push(c);
}

/// Appends a string slice to a `String`.
///
/// Calls `String::push_str`; the contract states what its documentation says:
/// the characters of `t` are appended in order and nothing else changes.
#[verifier::external_body]
pub(crate) fn push_str(s: &mut String, t: &str)
    ensures
        final(s)@ == old(s)@ + t@,
{
    s.push_str(t);
}

/// A new `String` holding the characters of `t`.
pub(crate) fn owned(t: &str) -> (s: String)
    ensures
        s@ == t@,
{
    t.to_owned()
}

/// The ASCII decimal digit for `d` (`0..10`).
pub open spec fn decimal_digit(d: nat) -> char {
    (48 + d) as char
}

/// Decimal rendering of `n`, most significant digit first, without leading zeros.
pub open spec fn decimal_chars(n: nat) -> Seq<char>
    decreases n,
{
    if n < 10 {
        seq![decimal_digit(n)]
    } else {
        decimal_chars(n / 10).push(decimal_digit(n % 10))
    }
}

/// Decimal rendering of the integer `v`, with a leading `-` when negative.
pub open spec fn int_text(v: int) -> Seq<char> {
    if v < 0 {
        seq!['-'] + decimal_chars((-v) as nat)
    } else {
        decimal_chars(v as nat)
    }
}

/// The decimal rendering of `v` as a new `String`.
pub(crate) fn int_string(v: i128) -> (s: String)
    ensures
        s@ == int_text(v as int),
{
    if v < 0 {
        let mut s = owned("-");
        proof {
            reveal_strlit("-");
        }
        let magnitude: u128 = ((-(v + 1)) as u128) + 1;
        push_decimal(&mut s, magnitude);
        s
    } else {
        let mut s = String::new();
        push_decimal(&mut s, v as u128);
        s
    }
}

/// The decimal rendering of `v` as a new `String`.
pub(crate) fn uint_string(v: u128) -> (s: String)
    ensures
        s@ == int_text(v as int),
{
    let mut s = String::new();
    push_decimal(&mut s, v);
    s
}

/// The lowercase hexadecimal digit for a nibble `n` (`0..16`).
pub open spec fn lower_hex_digit(n: nat) -> char {
    if n < 10 {
        (48 + n) as char
    } else {
        (87 + n) as char
    }
}

/// Two lowercase hexadecimal digits for `b`, high nibble first.
pub open spec fn hex_byte_chars(b: u8) -> Seq<char> {
    seq![lower_hex_digit((b / 16) as nat), lower_hex_digit((b % 16) as nat)]
}

/// Appends the decimal rendering of `n`.
pub(crate) fn push_decimal(s: &mut String, n: u128)
    ensures
        final(s)@ == old(s)@ + decimal_chars(n as nat),
    decreases n,
{
    if n >= 10 {
        push_decimal(s, n / 10);
    }
    let d = (n % 10) as u8;
    push_char(s, (48 + d) as char);
    proof {
        assert(old(s)@ + decimal_chars(n as nat) =~= (old(s)@ + (if n >= 10 {
            decimal_chars((n / 10) as nat)
        } else {
            Seq::empty()
        })).push(decimal_digit((n % 10) as nat)));
    }
}

/// Appends the two lowercase hexadecimal digits of `b`.
pub(crate) fn push_hex_byte(s: &mut String, b: u8)
    ensures
        final(s)@ == old(s)@ + hex_byte_chars(b),
{
    let high = b / 16;
    let low = b % 16;
    push_char(s, if high < 10 { (48 + high) as char } else { (87 + high) as char });
    push_char(s, if low < 10 { (48 + low) as char } else { (87 + low) as char });
    proof {
        assert(old(s)@ + hex_byte_chars(b) =~= old(s)@.push(lower_hex_digit(high as nat)).push(
            lower_hex_digit(low as nat),
        ));
    }
}

/// The characters of `t`, in order.
pub(crate) fn chars_of(t: &str) -> (v: Vec<char>)
    ensures
        v@ == t@,
{
    broadcast use vstd::string::group_string_axioms;
    let mut v: Vec<char> = Vec::new();
    for c in it: t.chars()
        invariant
            it.seq() == t@,
            v@ == it.seq().take(it.index() as int),
    {
        v.push(c);
    }
    v
}

/// Whether two texts hold the same characters.
pub(crate) fn same_text(a: &str, b: &str) -> (r: bool)
    ensures
        r == (a@ == b@),
{
    owned(a) == owned(b)
}

/// A formatter, as `Debug` receives it; opaque here.
#[verifier::external_type_specification]
#[verifier::external_body]
pub struct ExFormatter<'a>(std::fmt::Formatter<'a>);

/// The error of a formatting call; opaque here.
#[verifier::external_type_specification]
#[verifier::external_body]
pub struct ExFmtError(std::fmt::Error);

} // verus!

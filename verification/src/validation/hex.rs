//! Recognizers for hexadecimal digits and prefixed hexadecimal notation.
use vstd::prelude::*;
use crate::text_support::{chars_of, lower_hex_digit};
use crate::validation::string::{is_whitespace, is_whitespace_char};

verus! {

/// Whether `c` is an ASCII hexadecimal digit: `0-9`, `a-f` or `A-F`.
pub open spec fn is_hex_digit_char(c: char) -> bool {
    ('0' <= c <= '9') || ('a' <= c <= 'f') || ('A' <= c <= 'F')
}

/// Returns whether `ch` is an ASCII hexadecimal digit.
pub fn is_hex_digit(ch: char) -> (b: bool)
    ensures
        b == is_hex_digit_char(ch),
{
    ('0' <= ch && ch <= '9') || ('a' <= ch && ch <= 'f') || ('A' <= ch && ch <= 'F')
}

/// `s` without its leading whitespace.
pub open spec fn trim_start(s: Seq<char>) -> Seq<char>
    decreases s.len(),
{
    if s.len() > 0 && is_whitespace_char(s[0]) {
        trim_start(s.drop_first())
    } else {
        s
    }
}

/// `s` without its trailing whitespace.
pub open spec fn trim_end(s: Seq<char>) -> Seq<char>
    decreases s.len(),
{
    if s.len() > 0 && is_whitespace_char(s.last()) {
        trim_end(s.drop_last())
    } else {
        s
    }
}

/// The digits that follow a `0x`, `0X` or `#` prefix of `s`, if it has one.
pub open spec fn hex_digits_after_prefix(s: Seq<char>) -> Option<Seq<char>> {
    if s.len() >= 2 && s[0] == '0' && (s[1] == 'x' || s[1] == 'X') {
        Some(s.skip(2))
    } else if s.len() >= 1 && s[0] == '#' {
        Some(s.skip(1))
    } else {
        None
    }
}

/// Whether every character of `d` is a hexadecimal digit.
pub open spec fn all_hex_digits(d: Seq<char>) -> bool {
    forall|i: int| 0 <= i < d.len() ==> is_hex_digit_char(#[trigger] d[i])
}

/// Whether `value` is `0x`, `0X` or `#` notation, optionally negated by a
/// leading `-`, of at least one hexadecimal digit, with surrounding
/// whitespace ignored.
pub open spec fn is_prefixed_hex_spec(value: Seq<char>) -> bool {
    let t = trim_end(trim_start(value));
    let u = if t.len() > 0 && t[0] == '-' { t.drop_first() } else { t };
    match hex_digits_after_prefix(u) {
        Some(d) => d.len() > 0 && all_hex_digits(d),
        None => false,
    }
}

proof fn lemma_trim_start_skip(s: Seq<char>, i: int)
    requires
        0 <= i <= s.len(),
        forall|j: int| 0 <= j < i ==> is_whitespace_char(#[trigger] s[j]),
    ensures
        trim_start(s) == trim_start(s.skip(i)),
    decreases i,
{
    if i > 0 {
        assert(s.skip(1) =~= s.drop_first());
        lemma_trim_start_skip(s.drop_first(), i - 1);
        assert(s.drop_first().skip(i - 1) =~= s.skip(i));
    } else {
        assert(s.skip(0) =~= s);
    }
}

proof fn lemma_trim_end_take(s: Seq<char>, k: int)
    requires
        0 <= k <= s.len(),
        forall|j: int| k <= j < s.len() ==> is_whitespace_char(#[trigger] s[j]),
    ensures
        trim_end(s) == trim_end(s.take(k)),
    decreases s.len() - k,
{
    if k < s.len() {
        assert(s.drop_last() =~= s.take(s.len() - 1));
        lemma_trim_end_take(s.drop_last(), k);
        assert(s.drop_last().take(k) =~= s.take(k));
    } else {
        assert(s.take(k) =~= s);
    }
}

/// Returns whether `value` uses `0x`, `0X`, `#`, `-0x`, `-0X`, or `-#` hex notation.
pub fn is_prefixed_hex(value: &str) -> (b: bool)
    ensures
        b == is_prefixed_hex_spec(value@),
{
    let chars = chars_of(value);
    let ghost s = chars@;
    let mut start: usize = 0;
    while start < chars.len() && is_whitespace(chars[start])
        invariant
            s == chars@,
            start <= chars.len(),
            forall|j: int| 0 <= j < start ==> is_whitespace_char(#[trigger] s[j]),
        decreases chars.len() - start,
    {
        start = start + 1;
    }
    proof {
        lemma_trim_start_skip(s, start as int);
    }
    let ghost rest = s.skip(start as int);
    let mut end: usize = chars.len();
    while end > start && is_whitespace(chars[end - 1])
        invariant
            s == chars@,
            rest == s.skip(start as int),
            start <= end <= chars.len(),
            forall|j: int| end - start <= j < rest.len() ==> is_whitespace_char(#[trigger] rest[j]),
        decreases end,
    {
        end = end - 1;
    }
    let ghost t = rest.take(end - start);
    proof {
        lemma_trim_end_take(rest, end - start);
        if end > start {
            assert(!is_whitespace_char(rest[end - start - 1]));
        }
        assert(trim_end(t) == t);
        assert(trim_end(trim_start(s)) == t);
        assert forall|j: int| 0 <= j < t.len() implies #[trigger] t[j] == s[start + j] by {}
    }
    let mut i = start;
    if i < end && chars[i] == '-' {
        i = i + 1;
    }
    let ghost u = if t.len() > 0 && t[0] == '-' { t.drop_first() } else { t };
    assert(forall|j: int| 0 <= j < u.len() ==> #[trigger] u[j] == s[i + j]);
    assert(u.len() == end - i);
    let ghost i0 = i;
    proof {
        if u.len() >= 1 {
            assert(u[0] == s[i0 as int]);
        }
        if u.len() >= 2 {
            assert(u[1] == s[i0 + 1]);
        }
    }
    if end - i >= 2 && chars[i] == '0' && (chars[i + 1] == 'x' || chars[i + 1] == 'X') {
        i = i + 2;
    } else if i < end && chars[i] == '#' {
        i = i + 1;
    } else {
        return false;
    }
    let ghost d = hex_digits_after_prefix(u)->0;
    assert(forall|j: int| 0 <= j < d.len() ==> #[trigger] d[j] == s[i + j]);
    assert(d.len() == end - i);
    if i >= end {
        return false;
    }
    assert(hex_digits_after_prefix(u) == Some(d));
    assert(trim_end(trim_start(value@)) == t);
    assert(is_prefixed_hex_spec(value@) == (d.len() > 0 && all_hex_digits(d)));
    let mut k = i;
    while k < end
        invariant
            s == chars@,
            is_prefixed_hex_spec(value@) == (d.len() > 0 && all_hex_digits(d)),
            i <= k <= end <= chars.len(),
            d.len() == end - i,
            forall|j: int| 0 <= j < d.len() ==> #[trigger] d[j] == s[i + j],
            forall|j: int| 0 <= j < k - i ==> is_hex_digit_char(#[trigger] d[j]),
        decreases end - k,
    {
        if !is_hex_digit(chars[k]) {
            assert(d[k - i] == s[k as int]);
            return false;
        }
        k = k + 1;
    }
    true
}

/// The uppercase hexadecimal digit for `n` (`0..16`).
pub open spec fn upper_hex_digit(n: nat) -> char {
    if n < 10 {
        (48 + n) as char
    } else {
        (55 + n) as char
    }
}

/// The hexadecimal digits are exactly the digit characters of the values
/// `0..16`, lowercase or uppercase.
pub proof fn lemma_hex_digits_are_digit_chars()
    ensures
        forall|d: nat| d < 16 ==> is_hex_digit_char(#[trigger] lower_hex_digit(d)),
        forall|d: nat| d < 16 ==> is_hex_digit_char(#[trigger] upper_hex_digit(d)),
        forall|c: char|
            #[trigger] is_hex_digit_char(c) ==> exists|d: nat|
                d < 16 && (c == lower_hex_digit(d) || c == upper_hex_digit(d)),
{
    assert forall|c: char| #[trigger] is_hex_digit_char(c) implies exists|d: nat|
        d < 16 && (c == lower_hex_digit(d) || c == upper_hex_digit(d)) by {
        let v = c as u32;
        if '0' <= c <= '9' {
            let d = (v - 48) as nat;
            assert(c == lower_hex_digit(d));
        } else if 'a' <= c <= 'f' {
            let d = (v - 87) as nat;
            assert(c == lower_hex_digit(d));
        } else {
            let d = (v - 55) as nat;
            assert(c == upper_hex_digit(d));
        }
    }
}

/// Prefixed notation of any nonempty run of hexadecimal digits is
/// recognized: `0x`, `0X` and `#` each, also after a `-`.
pub proof fn lemma_prefixed_hex_accepts_digit_runs(values: Seq<nat>, upper: bool)
    requires
        values.len() > 0,
        forall|i: int| 0 <= i < values.len() ==> #[trigger] values[i] < 16,
    ensures
        ({
            let d = values.map_values(|v: nat| if upper { upper_hex_digit(v) } else { lower_hex_digit(v) });
            &&& is_prefixed_hex_spec(seq!['0', 'x'] + d)
            &&& is_prefixed_hex_spec(seq!['0', 'X'] + d)
            &&& is_prefixed_hex_spec(seq!['#'] + d)
            &&& is_prefixed_hex_spec(seq!['-', '0', 'x'] + d)
            &&& is_prefixed_hex_spec(seq!['-', '#'] + d)
        }),
{
    let d = values.map_values(|v: nat| if upper { upper_hex_digit(v) } else { lower_hex_digit(v) });
    lemma_hex_digits_are_digit_chars();
    assert forall|i: int| 0 <= i < d.len() implies is_hex_digit_char(#[trigger] d[i]) by {
        if upper {
            assert(is_hex_digit_char(upper_hex_digit(values[i])));
        } else {
            assert(is_hex_digit_char(lower_hex_digit(values[i])));
        }
    }
    assert(!is_whitespace_char(d.last()));
    let s1 = seq!['0', 'x'] + d;
    let s2 = seq!['0', 'X'] + d;
    let s3 = seq!['#'] + d;
    let s4 = seq!['-', '0', 'x'] + d;
    let s5 = seq!['-', '#'] + d;
    assert(s1.skip(s1.len() - d.len()) =~= d);
    assert(s2.skip(s2.len() - d.len()) =~= d);
    assert(s3.skip(s3.len() - d.len()) =~= d);
    assert(s4.skip(s4.len() - d.len()) =~= d);
    assert(s5.skip(s5.len() - d.len()) =~= d);
    lemma_prefixed_hex_plain(s1, d);
    lemma_prefixed_hex_plain(s2, d);
    lemma_prefixed_hex_plain(s3, d);
    lemma_prefixed_hex_plain(s4, d);
    lemma_prefixed_hex_plain(s5, d);
    assert((seq!['0', 'x'] + d).skip(2) =~= d);
    assert((seq!['0', 'X'] + d).skip(2) =~= d);
    assert((seq!['#'] + d).skip(1) =~= d);
    assert((seq!['-', '0', 'x'] + d).drop_first() =~= seq!['0', 'x'] + d);
    assert((seq!['-', '#'] + d).drop_first() =~= seq!['#'] + d);
}

proof fn lemma_prefixed_hex_plain(s: Seq<char>, d: Seq<char>)
    requires
        s.len() > d.len() > 0,
        s.skip(s.len() - d.len()) == d,
        !is_whitespace_char(s[0]),
        !is_whitespace_char(d.last()),
    ensures
        trim_end(trim_start(s)) == s,
{
    assert(s.last() == d.last());
}

} // verus!

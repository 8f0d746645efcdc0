//! Shared base-N byte conversion for the Base58 and Base62 codecs.
//!
//! A byte string is read as a big-endian number in base 256 and written as a
//! big-endian number in base N (and back), with every leading zero byte kept
//! as one leading zero digit.
use vstd::prelude::*;
use crate::text_support::push_char;
use vstd::string::StringSliceAdditionalSpecFns;
use vstd::slice::slice_to_vec;
use vstd::utf8::{encode_utf8, is_ascii_chars, is_ascii_chars_encode_utf8};

verus! {

/// Rejection of a symbol outside the alphabet.
#[derive(Debug, Clone, Copy, PartialEq, Eq, Structural)]
pub enum BaseNDecodeError {
    InvalidCharacter { index: usize, byte: u8 },
}

/// `base` to the power `k`.
pub open spec fn power(base: nat, k: nat) -> nat
    decreases k,
{
    if k == 0 {
        1
    } else {
        base * power(base, (k - 1) as nat)
    }
}

/// Value of the big-endian digit string `digits` in base `base`.
pub open spec fn be_value(digits: Seq<u8>, base: nat) -> nat
    decreases digits.len(),
{
    if digits.len() == 0 {
        0
    } else {
        be_value(digits.drop_last(), base) * base + digits.last() as nat
    }
}

/// Shortest big-endian digit string of `n` in base `base` (empty for zero).
pub open spec fn to_digits(n: nat, base: nat) -> Seq<u8>
    decreases n,
{
    if n == 0 || base < 2 {
        Seq::empty()
    } else {
        proof {
            assert(n / base < n) by (nonlinear_arith)
                requires
                    n > 0,
                    base >= 2,
            ;
        }
        to_digits(n / base, base).push((n % base) as u8)
    }
}

/// Number of zero elements before the first non-zero element of `s`.
pub open spec fn leading_zero_count(s: Seq<u8>) -> nat
    decreases s.len(),
{
    if s.len() == 0 {
        0
    } else if s[0] == 0 {
        1 + leading_zero_count(s.drop_first())
    } else {
        0
    }
}

/// A usable alphabet: between two and 256 distinct ASCII symbols.
pub open spec fn valid_alphabet(alphabet: Seq<u8>) -> bool {
    &&& 2 <= alphabet.len() <= 256
    &&& forall|i: int| 0 <= i < alphabet.len() ==> #[trigger] alphabet[i] < 128
    &&& forall|i: int, j: int|
        0 <= i < j < alphabet.len() ==> #[trigger] alphabet[i] != #[trigger] alphabet[j]
}

/// The characters of the alphabet symbols for `digits`.
pub open spec fn symbols(digits: Seq<u8>, alphabet: Seq<u8>) -> Seq<char> {
    Seq::new(digits.len(), |i: int| alphabet[digits[i] as int] as char)
}

/// Base-N text of `bytes`: one zero symbol per leading zero byte, then the
/// shortest base-N digits of the number the bytes denote.
pub open spec fn base_n_encoding(bytes: Seq<u8>, alphabet: Seq<u8>) -> Seq<char> {
    Seq::new(leading_zero_count(bytes), |i: int| alphabet[0] as char) + symbols(
        to_digits(be_value(bytes, 256), alphabet.len()),
        alphabet,
    )
}

/// Position of `byte` in `alphabet`, if it occurs there.
pub open spec fn alphabet_position(alphabet: Seq<u8>, byte: u8) -> Option<nat>
    decreases alphabet.len(),
{
    if alphabet.len() == 0 {
        None
    } else if alphabet[0] == byte {
        Some(0)
    } else {
        match alphabet_position(alphabet.drop_first(), byte) {
            Some(p) => Some(p + 1),
            None => None,
        }
    }
}

/// Index of the first byte of `b` that is not an alphabet symbol.
pub open spec fn first_outside(b: Seq<u8>, alphabet: Seq<u8>) -> Option<int>
    decreases b.len(),
{
    if b.len() == 0 {
        None
    } else {
        match first_outside(b.drop_last(), alphabet) {
            Some(i) => Some(i),
            None => if alphabet_position(alphabet, b.last()) is None {
                Some(b.len() - 1)
            } else {
                None
            },
        }
    }
}

/// Digit values of the symbols in `b`.
pub open spec fn digit_values(b: Seq<u8>, alphabet: Seq<u8>) -> Seq<u8> {
    Seq::new(b.len(), |i: int| alphabet_position(alphabet, b[i])->0 as u8)
}

/// What strict base-N decoding makes of the bytes `b` of the encoded text.
pub open spec fn base_n_decoding(b: Seq<u8>, alphabet: Seq<u8>) -> Result<
    Seq<u8>,
    BaseNDecodeError,
> {
    match first_outside(b, alphabet) {
        Some(i) => Err(BaseNDecodeError::InvalidCharacter { index: i as usize, byte: b[i] }),
        None => {
            let d = digit_values(b, alphabet);
            Ok(Seq::new(leading_zero_count(d), |i: int| 0u8) + to_digits(
                be_value(d, alphabet.len()),
                256,
            ))
        },
    }
}

// ----- arithmetic facts -----
proof fn lemma_power_positive(base: nat, k: nat)
    requires
        base >= 1,
    ensures
        power(base, k) >= 1,
    decreases k,
{
    if k > 0 {
        lemma_power_positive(base, (k - 1) as nat);
        assert(base * power(base, (k - 1) as nat) >= 1) by (nonlinear_arith)
            requires
                base >= 1,
                power(base, (k - 1) as nat) >= 1,
        ;
    }
}

proof fn lemma_be_value_prepend(d: u8, s: Seq<u8>, base: nat)
    ensures
        be_value(seq![d] + s, base) == d * power(base, s.len()) + be_value(s, base),
    decreases s.len(),
{
    let t = seq![d] + s;
    if s.len() == 0 {
        assert(t.drop_last() =~= Seq::<u8>::empty());
        assert(t.last() == d);
        assert(be_value(Seq::<u8>::empty(), base) == 0);
        assert(s =~= Seq::<u8>::empty());
        assert(power(base, 0) == 1);
        assert(t.len() == 1);
        let e = t.drop_last();
        assert(be_value(e, base) == 0);
        assert(be_value(t, base) == be_value(e, base) * base + t.last());
        let z = be_value(e, base);
        assert(z * base == 0) by (nonlinear_arith)
            requires
                z == 0,
        ;
        assert(be_value(t, base) == d);
        assert(d * 1 == d) by (nonlinear_arith);
        assert(be_value(t, base) == d * power(base, s.len()) + be_value(s, base));
    } else {
        let sp = s.drop_last();
        assert(t.drop_last() =~= seq![d] + sp);
        assert(t.last() == s.last());
        lemma_be_value_prepend(d, sp, base);
        let p = power(base, sp.len());
        assert(power(base, s.len()) == base * p);
        let bsp = be_value(sp, base);
        assert(be_value(seq![d] + sp, base) == d * p + bsp);
        assert(be_value(t, base) == be_value(seq![d] + sp, base) * base + s.last());
        assert(be_value(s, base) == bsp * base + s.last());
        let dd = d as int;
        let l = s.last() as int;
        assert((dd * p + bsp) * base + l == dd * (base * p) + (bsp * base + l))
            by (nonlinear_arith);
        assert(be_value(t, base) == d * power(base, s.len()) + be_value(s, base));
    }
}

proof fn lemma_be_value_zero_prefix(s: Seq<u8>, k: int, base: nat)
    requires
        0 <= k <= s.len(),
        forall|j: int| 0 <= j < k ==> s[j] == 0,
    ensures
        be_value(s, base) == be_value(s.skip(k), base),
    decreases k,
{
    if k > 0 {
        let r = s.skip(1);
        assert(s =~= seq![0u8] + r);
        lemma_be_value_prepend(0, r, base);
        lemma_be_value_zero_prefix(r, k - 1, base);
        assert(r.skip(k - 1) =~= s.skip(k));
    } else {
        assert(s.skip(0) =~= s);
    }
}

proof fn lemma_be_value_push(s: Seq<u8>, d: u8, base: nat)
    ensures
        be_value(s.push(d), base) == be_value(s, base) * base + d,
{
    assert(s.push(d).drop_last() =~= s);
}

proof fn lemma_be_value_positive(s: Seq<u8>, base: nat)
    requires
        base >= 1,
        s.len() > 0,
        s[0] != 0,
    ensures
        be_value(s, base) > 0,
    decreases s.len(),
{
    if s.len() > 1 {
        let sp = s.drop_last();
        lemma_be_value_positive(sp, base);
        assert(be_value(sp, base) * base > 0) by (nonlinear_arith)
            requires
                be_value(sp, base) > 0,
                base >= 1,
        ;
    }
}

proof fn lemma_digits_unique(s: Seq<u8>, base: nat)
    requires
        2 <= base <= 256,
        forall|j: int| 0 <= j < s.len() ==> #[trigger] s[j] < base,
        s.len() == 0 || s[0] != 0,
    ensures
        to_digits(be_value(s, base), base) == s,
    decreases s.len(),
{
    if s.len() > 0 {
        let sp = s.drop_last();
        let n = be_value(s, base);
        lemma_be_value_positive(s, base);
        assert(forall|j: int| 0 <= j < sp.len() ==> sp[j] == s[j]);
        lemma_digits_unique(sp, base);
        let v = be_value(sp, base);
        let l = s.last() as nat;
        assert(l < base);
        assert(n == v * base + l);
        assert((v * base + l) / base == v && (v * base + l) % base == l) by (nonlinear_arith)
            requires
                l < base,
                base >= 2,
        ;
        assert(to_digits(n, base) =~= sp.push(s.last()));
        assert(sp.push(s.last()) =~= s);
    }
}

proof fn lemma_to_digits(n: nat, base: nat)
    requires
        2 <= base <= 256,
    ensures
        forall|j: int|
            0 <= j < to_digits(n, base).len() ==> #[trigger] to_digits(n, base)[j] < base,
        to_digits(n, base).len() == 0 || to_digits(n, base)[0] != 0,
        be_value(to_digits(n, base), base) == n,
        (to_digits(n, base).len() == 0) == (n == 0),
    decreases n,
{
    if n > 0 {
        assert(n / base < n && n % base < base && (n / base) * base + n % base == n)
            by (nonlinear_arith)
            requires
                n > 0,
                base >= 2,
        ;
        lemma_to_digits(n / base, base);
        let t = to_digits(n / base, base);
        let d = (n % base) as u8;
        assert(to_digits(n, base) == t.push(d));
        lemma_be_value_push(t, d, base);
        if t.len() == 0 {
            assert(n / base == 0);
            assert(n % base == n);
        }
    }
}

proof fn lemma_leading_zero_count(s: Seq<u8>)
    ensures
        leading_zero_count(s) <= s.len(),
        forall|j: int| 0 <= j < leading_zero_count(s) ==> s[j] == 0,
        leading_zero_count(s) < s.len() ==> s[leading_zero_count(s) as int] != 0,
    decreases s.len(),
{
    if s.len() > 0 && s[0] == 0 {
        let r = s.drop_first();
        lemma_leading_zero_count(r);
        assert forall|j: int| 0 <= j < leading_zero_count(s) implies s[j] == 0 by {
            if j > 0 {
                assert(s[j] == r[j - 1]);
            }
        }
    }
}

proof fn lemma_leading_zero_count_is(s: Seq<u8>, k: int)
    requires
        0 <= k <= s.len(),
        forall|j: int| 0 <= j < k ==> s[j] == 0,
        k < s.len() ==> s[k] != 0,
    ensures
        leading_zero_count(s) == k,
{
    lemma_leading_zero_count(s);
    let z = leading_zero_count(s) as int;
    if z < k {
        assert(s[z] == 0);
    }
    if z > k {
        assert(s[k] == 0);
    }
}

// ----- long division -----
/// Divides the number held in `number[first_digit..]` (digits in base `base`)
/// by `divisor` in place and returns the remainder.
fn divmod(number: &mut Vec<u8>, first_digit: usize, base: u32, divisor: u32) -> (remainder: u32)
    requires
        2 <= base <= 256,
        2 <= divisor <= 256,
        first_digit <= old(number).len(),
        forall|j: int| first_digit <= j < old(number).len() ==> #[trigger] old(number)[j] < base,
    ensures
        final(number).len() == old(number).len(),
        forall|j: int| 0 <= j < first_digit ==> #[trigger] final(number)[j] == old(number)[j],
        forall|j: int|
            first_digit <= j < final(number).len() ==> #[trigger] final(number)[j] < base,
        remainder < divisor,
        be_value(old(number)@.skip(first_digit as int), base as nat) == be_value(
            final(number)@.skip(first_digit as int),
            base as nat,
        ) * divisor + remainder,
{
    let ghost orig = number@;
    let mut remainder: u32 = 0;
    let mut i: usize = first_digit;
    assert(orig.subrange(first_digit as int, first_digit as int) =~= Seq::<u8>::empty());
    assert(number@.subrange(first_digit as int, first_digit as int) =~= Seq::<u8>::empty());
    assert(be_value(Seq::<u8>::empty(), base as nat) == 0);
    while i < number.len()
        invariant
            2 <= base <= 256,
            2 <= divisor <= 256,
            first_digit <= i <= number.len(),
            number.len() == orig.len(),
            forall|j: int| 0 <= j < first_digit ==> #[trigger] number[j] == orig[j],
            forall|j: int| i <= j < number.len() ==> #[trigger] number[j] == orig[j],
            forall|j: int| first_digit <= j < orig.len() ==> #[trigger] orig[j] < base,
            forall|j: int| first_digit <= j < i ==> #[trigger] number[j] < base,
            remainder < divisor,
            be_value(orig.subrange(first_digit as int, i as int), base as nat) == be_value(
                number@.subrange(first_digit as int, i as int),
                base as nat,
            ) * divisor + remainder,
        decreases number.len() - i,
    {
        let digit = number[i];
        assert(digit < base);
        assert(remainder * base + digit < divisor * base) by (nonlinear_arith)
            requires
                remainder < divisor,
                digit < base,
        ;
        assert(divisor * base <= 65536) by (nonlinear_arith)
            requires
                divisor <= 256,
                base <= 256,
        ;
        let value: u32 = remainder * base + digit as u32;
        let q: u32 = value / divisor;
        let r: u32 = value % divisor;
        assert(q < base && q * divisor + r == value && r < divisor) by (nonlinear_arith)
            requires
                value < divisor * base,
                divisor >= 2,
                q == value / divisor,
                r == value % divisor,
        ;
        let ghost old_number = number@;
        number.set(i, q as u8);
        proof {
            let os = orig.subrange(first_digit as int, i as int);
            let ns = old_number.subrange(first_digit as int, i as int);
            assert(orig.subrange(first_digit as int, i + 1) =~= os.push(digit));
            assert(number@.subrange(first_digit as int, i + 1) =~= ns.push(q as u8));
            lemma_be_value_push(os, digit, base as nat);
            lemma_be_value_push(ns, q as u8, base as nat);
            let nv = be_value(ns, base as nat);
            assert((nv * divisor + remainder) * base + digit == (nv * base + q) * divisor + r)
                by (nonlinear_arith)
                requires
                    q * divisor + r == remainder * base + digit,
            ;
        }
        remainder = r;
        i = i + 1;
    }
    proof {
        assert(orig.subrange(first_digit as int, orig.len() as int) =~= orig.skip(
            first_digit as int,
        ));
        assert(number@.subrange(first_digit as int, number.len() as int) =~= number@.skip(
            first_digit as int,
        ));
    }
    remainder
}


/// Counts the zero elements before the first non-zero one.
fn count_leading_zeros(s: &[u8]) -> (n: usize)
    ensures
        n == leading_zero_count(s@),
{
    let mut n: usize = 0;
    while n < s.len() && s[n] == 0
        invariant
            0 <= n <= s.len(),
            forall|j: int| 0 <= j < n ==> s@[j] == 0,
        decreases s.len() - n,
    {
        n = n + 1;
    }
    proof {
        lemma_leading_zero_count_is(s@, n as int);
    }
    n
}

/// Repeatedly divides the number held in `number[start..]` (base `base`) by
/// `divisor`, collecting the remainders least significant first.
/// Returns the digits of the quotient chain, most significant first, with
/// leading zero digits removed, as a vector in reverse (least significant
/// first) order.
fn convert_digits(number: &mut Vec<u8>, start: usize, base: u32, divisor: u32) -> (digits_le: Vec<u8>)
    requires
        2 <= base <= 256,
        2 <= divisor <= 256,
        start <= old(number).len(),
        forall|j: int| 0 <= j < old(number).len() ==> #[trigger] old(number)[j] < base,
    ensures
        digits_le@.reverse() == to_digits(be_value(old(number)@.skip(start as int), base as nat), divisor as nat),
{
    let ghost v0 = be_value(number@.skip(start as int), base as nat);
    let mut digits: Vec<u8> = Vec::new();
    let ghost mut out: Seq<u8> = Seq::empty();
    let mut input_start = start;
    proof {
        assert(power(divisor as nat, 0) == 1);
        assert(be_value(out, divisor as nat) == 0);
        assert(digits@.reverse() =~= out);
    }
    while input_start < number.len()
        invariant
            2 <= base <= 256,
            2 <= divisor <= 256,
            start <= input_start <= number.len(),
            forall|j: int| 0 <= j < number.len() ==> #[trigger] number[j] < base,
            forall|j: int| 0 <= j < out.len() ==> #[trigger] out[j] < divisor,
            digits@.reverse() == out,
            v0 == be_value(number@.skip(input_start as int), base as nat) * power(
                divisor as nat,
                out.len(),
            ) + be_value(out, divisor as nat),
        decreases be_value(number@.skip(input_start as int), base as nat), number.len() - input_start,
    {
        let ghost q0 = be_value(number@.skip(input_start as int), base as nat);
        let ghost before = number@;
        let remainder = divmod(number, input_start, base, divisor);
        let ghost q1 = be_value(number@.skip(input_start as int), base as nat);
        digits.push(remainder as u8);
        proof {
            let k = out.len();
            let new_out = seq![remainder as u8] + out;
            lemma_be_value_prepend(remainder as u8, out, divisor as nat);
            let p = power(divisor as nat, k);
            assert(power(divisor as nat, k + 1) == divisor * p);
            let bo = be_value(out, divisor as nat);
            assert(q0 == q1 * divisor + remainder);
            assert((q1 * divisor + remainder) * p + bo == q1 * (divisor * p) + (remainder * p + bo))
                by (nonlinear_arith);
            assert(digits@.reverse() =~= new_out);
            out = new_out;
            assert(q1 <= q0) by (nonlinear_arith)
                requires
                    q0 == q1 * divisor + remainder,
                    divisor >= 2,
            ;
            if q0 > 0 {
                assert(q1 < q0) by (nonlinear_arith)
                    requires
                        q0 == q1 * divisor + remainder,
                        divisor >= 2,
                        q0 > 0,
                ;
            }
        }
        if number[input_start] == 0 {
            proof {
                let sk = number@.skip(input_start as int);
                lemma_be_value_zero_prefix(sk, 1, base as nat);
                assert(sk.skip(1) =~= number@.skip(input_start + 1));
            }
            input_start = input_start + 1;
        } else {
            proof {
                let sk = number@.skip(input_start as int);
                assert(sk[0] != 0);
                lemma_be_value_positive(sk, base as nat);
                assert(q1 > 0);
                if q0 == 0 {
                    assert(false) by (nonlinear_arith)
                        requires
                            q0 == q1 * divisor + remainder,
                            q1 > 0,
                            divisor >= 2,
                            q0 == 0,
                    ;
                }
            }
        }
    }
    proof {
        assert(number@.skip(input_start as int) =~= Seq::<u8>::empty());
        assert(be_value(Seq::<u8>::empty(), base as nat) == 0);
        assert(be_value(number@.skip(input_start as int), base as nat) == 0);
        let pw = power(divisor as nat, out.len());
        let q = be_value(number@.skip(input_start as int), base as nat);
        assert(q * pw == 0) by (nonlinear_arith)
            requires
                q == 0,
        ;
        assert(v0 == be_value(out, divisor as nat));
    }
    // drop high zero digits
    while digits.len() > 0 && digits[digits.len() - 1] == 0
        invariant
            2 <= divisor <= 256,
            forall|j: int| 0 <= j < out.len() ==> #[trigger] out[j] < divisor,
            digits@.reverse() == out,
            v0 == be_value(out, divisor as nat),
        decreases digits.len(),
    {
        let ghost before = out;
        digits.pop();
        proof {
            assert(before[0] == 0);
            let rest = before.drop_first();
            assert(before =~= seq![0u8] + rest);
            lemma_be_value_prepend(0, rest, divisor as nat);
            assert(digits@.reverse() =~= rest);
            out = rest;
        }
    }
    proof {
        if out.len() > 0 {
            assert(out[0] == digits@[digits@.len() - 1]);
        }
        lemma_digits_unique(out, divisor as nat);
    }
    digits
}

/// Encodes `bytes` as base-N text over `alphabet`.
pub fn encode_base_n(bytes: &[u8], alphabet: &[u8]) -> (encoded: String)
    requires
        valid_alphabet(alphabet@),
    ensures
        encoded@ == base_n_encoding(bytes@, alphabet@),
{
    let zeros = count_leading_zeros(bytes);
    let mut input = slice_to_vec(bytes);
    let n = alphabet.len() as u32;
    proof {
        lemma_leading_zero_count(bytes@);
        lemma_be_value_zero_prefix(bytes@, zeros as int, 256);
    }
    let digits = convert_digits(&mut input, zeros, 256, n);
    let mut encoded = String::new();
    let mut i: usize = 0;
    while i < zeros
        invariant
            i <= zeros,
            alphabet.len() >= 2,
            encoded@ =~= Seq::new(i as nat, |k: int| alphabet@[0] as char),
        decreases zeros - i,
    {
        push_char(&mut encoded, alphabet[0] as char);
        i = i + 1;
    }
    let ghost prefix = encoded@;
    let ghost ds = digits@.reverse();
    proof {
        lemma_to_digits(be_value(bytes@, 256), n as nat);
    }
    let mut j: usize = 0;
    while j < digits.len()
        invariant
            j <= digits.len(),
            ds == digits@.reverse(),
            ds == to_digits(be_value(bytes@, 256), alphabet.len() as nat),
            forall|k: int| 0 <= k < ds.len() ==> #[trigger] ds[k] < alphabet.len(),
            encoded@ =~= prefix + symbols(ds.subrange(0, j as int), alphabet@),
        decreases digits.len() - j,
    {
        let d = digits[digits.len() - 1 - j];
        assert(d == ds[j as int]);
        push_char(&mut encoded, alphabet[d as usize] as char);
        j = j + 1;
    }
    proof {
        assert(ds.subrange(0, ds.len() as int) =~= ds);
    }
    encoded
}


proof fn lemma_alphabet_position(alphabet: Seq<u8>, byte: u8)
    ensures
        match alphabet_position(alphabet, byte) {
            Some(p) => p < alphabet.len() && alphabet[p as int] == byte && forall|q: int|
                0 <= q < p ==> #[trigger] alphabet[q] != byte,
            None => forall|q: int| 0 <= q < alphabet.len() ==> #[trigger] alphabet[q] != byte,
        },
    decreases alphabet.len(),
{
    if alphabet.len() > 0 {
        let r = alphabet.drop_first();
        lemma_alphabet_position(r, byte);
        assert forall|q: int| 0 < q < alphabet.len() implies alphabet[q] == r[q - 1] by {}
    }
}

/// The byte that strict base-N decoding reports is the first byte outside
/// the alphabet; with none such, every byte is an alphabet symbol.
pub proof fn lemma_first_outside(b: Seq<u8>, alphabet: Seq<u8>)
    ensures
        match first_outside(b, alphabet) {
            Some(i) => 0 <= i < b.len() && alphabet_position(alphabet, b[i]) is None
                && forall|j: int|
                0 <= j < i ==> alphabet_position(alphabet, #[trigger] b[j]) is Some,
            None => forall|j: int|
                0 <= j < b.len() ==> alphabet_position(alphabet, #[trigger] b[j]) is Some,
        },
    decreases b.len(),
{
    if b.len() > 0 {
        let p = b.drop_last();
        lemma_first_outside(p, alphabet);
        assert forall|j: int| 0 <= j < p.len() implies p[j] == b[j] by {}
        match first_outside(p, alphabet) {
            Some(i) => {
                assert(p[i] == b[i]);
                assert forall|j: int| 0 <= j < i implies alphabet_position(
                    alphabet,
                    #[trigger] b[j],
                ) is Some by {
                    assert(p[j] == b[j]);
                }
            },
            None => {
                if alphabet_position(alphabet, b.last()) is Some {
                    assert forall|j: int| 0 <= j < b.len() implies alphabet_position(
                        alphabet,
                        #[trigger] b[j],
                    ) is Some by {
                        if j < p.len() {
                            assert(p[j] == b[j]);
                        }
                    }
                } else {
                    assert forall|j: int| 0 <= j < b.len() - 1 implies alphabet_position(
                        alphabet,
                        #[trigger] b[j],
                    ) is Some by {
                        assert(p[j] == b[j]);
                    }
                }
            },
        }
    }
}

proof fn lemma_first_outside_is(b: Seq<u8>, alphabet: Seq<u8>, n: int)
    requires
        0 <= n <= b.len(),
        forall|j: int| 0 <= j < n ==> alphabet_position(alphabet, #[trigger] b[j]) is Some,
        n < b.len() ==> alphabet_position(alphabet, b[n]) is None,
    ensures
        n < b.len() ==> first_outside(b, alphabet) == Some(n),
        n == b.len() ==> first_outside(b, alphabet) is None,
{
    lemma_first_outside(b, alphabet);
    match first_outside(b, alphabet) {
        Some(i) => {
            if i < n {
                assert(alphabet_position(alphabet, b[i]) is Some);
            }
            if i > n && n < b.len() {
                assert(alphabet_position(alphabet, b[n]) is Some);
            }
        },
        None => {
            if n < b.len() {
                assert(alphabet_position(alphabet, b[n]) is Some);
            }
        },
    }
}

/// Looks `byte` up in `alphabet`.
fn alphabet_index(alphabet: &[u8], byte: u8) -> (r: Option<u8>)
    requires
        alphabet.len() <= 256,
    ensures
        match alphabet_position(alphabet@, byte) {
            Some(p) => r == Some(p as u8),
            None => r is None,
        },
{
    proof {
        lemma_alphabet_position(alphabet@, byte);
    }
    let mut i: usize = 0;
    while i < alphabet.len()
        invariant
            i <= alphabet.len() <= 256,
            forall|q: int| 0 <= q < i ==> #[trigger] alphabet@[q] != byte,
        decreases alphabet.len() - i,
    {
        if alphabet[i] == byte {
            proof {
                lemma_alphabet_position(alphabet@, byte);
                match alphabet_position(alphabet@, byte) {
                    Some(p) => {
                        if p < i {
                            assert(alphabet@[p as int] != byte);
                        }
                        if p > i {
                            assert(alphabet@[i as int] != byte);
                        }
                    },
                    None => {
                        assert(alphabet@[i as int] != byte);
                    },
                }
            }
            return Some(i as u8);
        }
        i = i + 1;
    }
    proof {
        match alphabet_position(alphabet@, byte) {
            Some(p) => {
                assert(alphabet@[p as int] != byte);
            },
            None => {},
        }
    }
    None
}

/// Decodes base-N text over `alphabet` into bytes.
pub fn decode_base_n(encoded: &str, alphabet: &[u8]) -> (r: Result<Vec<u8>, BaseNDecodeError>)
    requires
        valid_alphabet(alphabet@),
    ensures
        match base_n_decoding(encoded.spec_bytes(), alphabet@) {
            Ok(v) => r matches Ok(d) && d@ == v,
            Err(e) => r == Err::<Vec<u8>, BaseNDecodeError>(e),
        },
{
    let bytes = encoded.as_bytes();
    let ghost b = bytes@;
    let n = alphabet.len() as u32;
    let mut digits: Vec<u8> = Vec::with_capacity(bytes.len());
    let mut index: usize = 0;
    while index < bytes.len()
        invariant
            b == bytes@,
            b == encoded.spec_bytes(),
            valid_alphabet(alphabet@),
            index <= bytes.len(),
            forall|j: int| 0 <= j < index ==> alphabet_position(alphabet@, #[trigger] b[j]) is Some,
            digits@ =~= digit_values(b, alphabet@).subrange(0, index as int),
        decreases bytes.len() - index,
    {
        let byte = bytes[index];
        match alphabet_index(alphabet, byte) {
            Some(d) => {
                digits.push(d);
            },
            None => {
                proof {
                    lemma_first_outside_is(b, alphabet@, index as int);
                }
                return Err(BaseNDecodeError::InvalidCharacter { index, byte });
            },
        }
        index = index + 1;
    }
    let ghost dv = digit_values(b, alphabet@);
    proof {
        lemma_first_outside_is(b, alphabet@, b.len() as int);
        assert(dv.subrange(0, b.len() as int) =~= dv);
        assert forall|j: int| 0 <= j < dv.len() implies #[trigger] dv[j] < n by {
            lemma_alphabet_position(alphabet@, b[j]);
        }
    }
    let zeros = count_leading_zeros(digits.as_slice());
    proof {
        lemma_leading_zero_count(dv);
        lemma_be_value_zero_prefix(dv, zeros as int, n as nat);
    }
    let high = convert_digits(&mut digits, zeros, n, 256);
    let mut decoded: Vec<u8> = Vec::new();
    let mut i: usize = 0;
    while i < zeros
        invariant
            i <= zeros,
            decoded@ =~= Seq::new(i as nat, |k: int| 0u8),
        decreases zeros - i,
    {
        decoded.push(0);
        i = i + 1;
    }
    let ghost prefix = decoded@;
    let ghost hs = high@.reverse();
    let mut j: usize = 0;
    while j < high.len()
        invariant
            j <= high.len(),
            hs == high@.reverse(),
            decoded@ =~= prefix + hs.subrange(0, j as int),
        decreases high.len() - j,
    {
        let d = high[high.len() - 1 - j];
        decoded.push(d);
        j = j + 1;
    }
    proof {
        assert(hs.subrange(0, hs.len() as int) =~= hs);
    }
    Ok(decoded)
}


proof fn lemma_position_of_symbol(alphabet: Seq<u8>, p: int)
    requires
        valid_alphabet(alphabet),
        0 <= p < alphabet.len(),
    ensures
        alphabet_position(alphabet, alphabet[p]) == Some(p as nat),
{
    lemma_alphabet_position(alphabet, alphabet[p]);
    match alphabet_position(alphabet, alphabet[p]) {
        Some(q) => {
            if q < p {
                assert(alphabet[q as int] != alphabet[p]);
            }
            if q > p {
                assert(alphabet[p] != alphabet[p]);
            }
        },
        None => {
            assert(alphabet[p] != alphabet[p]);
        },
    }
}

/// Base-N decoding of the text of a base-N encoding gives back the encoded
/// bytes, leading zero bytes included, for every valid alphabet.
pub proof fn lemma_base_n_round_trip(bytes: Seq<u8>, alphabet: Seq<u8>)
    requires
        valid_alphabet(alphabet),
    ensures
        base_n_decoding(encode_utf8(base_n_encoding(bytes, alphabet)), alphabet) == Ok::<
            Seq<u8>,
            BaseNDecodeError,
        >(bytes),
{
    let n = alphabet.len() as nat;
    let z = leading_zero_count(bytes);
    let v = be_value(bytes, 256);
    let t = to_digits(v, n);
    lemma_to_digits(v, n);
    let d = Seq::new(z, |i: int| 0u8) + t;
    let chars = base_n_encoding(bytes, alphabet);
    assert forall|k: int| 0 <= k < chars.len() implies #[trigger] chars[k] == alphabet[d[k] as int] as char && d[k] < n by {
        if k >= z {
            assert(d[k] == t[k - z]);
        }
    }
    assert(is_ascii_chars(chars)) by {
        assert forall|k: int| 0 <= k < chars.len() implies '\0' <= #[trigger] chars[k] <= '\u{7f}' by {
            assert(chars[k] == alphabet[d[k] as int] as char);
            assert(alphabet[d[k] as int] < 128);
        }
    }
    is_ascii_chars_encode_utf8(chars);
    let b = encode_utf8(chars);
    assert forall|k: int| 0 <= k < b.len() implies alphabet_position(alphabet, #[trigger] b[k]) == Some(d[k] as nat) by {
        assert(chars[k] as u8 == b[k]);
        assert(chars[k] == alphabet[d[k] as int] as char);
        lemma_position_of_symbol(alphabet, d[k] as int);
    }
    lemma_first_outside_is(b, alphabet, b.len() as int);
    let dv = digit_values(b, alphabet);
    assert(dv =~= d);
    lemma_leading_zero_count_is(d, z as int);
    lemma_be_value_zero_prefix(d, z as int, n);
    assert(d.skip(z as int) =~= t);
    lemma_leading_zero_count(bytes);
    lemma_be_value_zero_prefix(bytes, z as int, 256);
    let rest = bytes.skip(z as int);
    lemma_digits_unique(rest, 256);
    assert(Seq::new(z, |i: int| 0u8) + rest =~= bytes);
}

/// Base-N encoding of what text decodes to gives back that text: the
/// bytes of the encoding are the bytes that were decoded, for every valid
/// alphabet.
pub proof fn lemma_base_n_reencode(b: Seq<u8>, alphabet: Seq<u8>)
    requires
        valid_alphabet(alphabet),
        base_n_decoding(b, alphabet) is Ok,
    ensures
        encode_utf8(base_n_encoding(base_n_decoding(b, alphabet)->Ok_0, alphabet)) == b,
{
    let n = alphabet.len() as nat;
    lemma_first_outside(b, alphabet);
    let d = digit_values(b, alphabet);
    assert forall|k: int| 0 <= k < b.len() implies #[trigger] d[k] < n && alphabet[d[k] as int]
        == b[k] by {
        lemma_alphabet_position(alphabet, b[k]);
    }
    let z = leading_zero_count(d);
    lemma_leading_zero_count(d);
    let rest = d.skip(z as int);
    assert forall|j: int| 0 <= j < rest.len() implies #[trigger] rest[j] < n by {
        assert(rest[j] == d[z + j]);
    }
    lemma_be_value_zero_prefix(d, z as int, n);
    let v = be_value(d, n);
    lemma_digits_unique(rest, n);
    let t = to_digits(v, 256);
    lemma_to_digits(v, 256);
    let bytes = Seq::new(z, |i: int| 0u8) + t;
    assert(bytes == base_n_decoding(b, alphabet)->Ok_0);
    lemma_leading_zero_count_is(bytes, z as int);
    lemma_be_value_zero_prefix(bytes, z as int, 256);
    assert(bytes.skip(z as int) =~= t);
    let chars = base_n_encoding(bytes, alphabet);
    assert(chars.len() == b.len());
    assert forall|k: int| 0 <= k < chars.len() implies #[trigger] chars[k] == b[k] as char by {
        if k >= z {
            assert(rest[k - z] == d[k]);
        }
    }
    assert(is_ascii_chars(chars)) by {
        assert forall|k: int| 0 <= k < chars.len() implies '\0' <= #[trigger] chars[k] <= '\u{7f}' by {
            assert(chars[k] == b[k] as char);
            assert(alphabet[d[k] as int] < 128);
        }
    }
    is_ascii_chars_encode_utf8(chars);
    assert(encode_utf8(chars) =~= b);
}

/// Strict base-N decoding succeeds exactly when every byte is an alphabet
/// symbol, and otherwise reports the first byte that is not, with its
/// position.
pub proof fn lemma_base_n_decoding_errors(b: Seq<u8>, alphabet: Seq<u8>)
    requires
        b.len() <= usize::MAX,
    ensures
        base_n_decoding(b, alphabet) is Ok <==> forall|j: int|
            0 <= j < b.len() ==> alphabet.contains(#[trigger] b[j]),
        base_n_decoding(b, alphabet) matches Err(BaseNDecodeError::InvalidCharacter { index, byte })
            ==> {
            &&& index < b.len()
            &&& byte == b[index as int]
            &&& !alphabet.contains(b[index as int])
            &&& forall|j: int| 0 <= j < index ==> alphabet.contains(#[trigger] b[j])
        },
{
    lemma_first_outside(b, alphabet);
    assert forall|x: u8| #[trigger] alphabet.contains(x) <==> alphabet_position(alphabet, x) is Some by {
        lemma_alphabet_position(alphabet, x);
    }
}

} // verus!

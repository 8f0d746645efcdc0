//! Correlation ids that are safe to put into structured log fields.
use vstd::prelude::*;
use crate::text_support::{decimal_chars, owned, push_char, push_decimal, push_str};
use crate::validation::string::{has_text, has_text_spec};
use vstd::string::StringSliceAdditionalSpecFns;

verus! {

/// Structured log field for request ids.
pub const REQUEST_ID_FIELD: &'static str = "request.id";

/// Structured log field for task ids.
pub const TASK_ID_FIELD: &'static str = "task.id";

/// Structured log field for correlation ids.
pub const CORRELATION_ID_FIELD: &'static str = "correlation.id";

/// Maximum correlation id length in bytes.
pub const MAX_CORRELATION_ID_LEN: usize = 256;

/// Why a correlation id was rejected.
#[derive(Debug, Clone, Copy, PartialEq, Eq, Structural)]
pub enum CorrelationIdError {
    /// The id is empty or only whitespace.
    Blank,
    /// The id is longer than the byte limit.
    TooLong {
        /// Length of the id in bytes.
        len: usize,
        /// The byte limit.
        max: usize,
    },
    /// The id holds a control or text-direction character.
    UnsafeCharacter {
        /// The first such character.
        ch: char,
    },
}

/// Whether `c` is a control character (general category `Cc`), as
/// `char::is_control` documents it.
pub open spec fn is_control_char(c: char) -> bool {
    let v = c as u32;
    v <= 0x1F || (0x7F <= v <= 0x9F)
}

/// Whether `c` may appear in a correlation id: no control character, no
/// line or paragraph separator, and no bidirectional formatting character.
pub open spec fn is_safe_correlation_char(c: char) -> bool {
    let v = c as u32;
    &&& !is_control_char(c)
    &&& v != 0x061C && v != 0x2028 && v != 0x2029 && v != 0x200E && v != 0x200F
    &&& !(0x202A <= v <= 0x202E)
    &&& !(0x2066 <= v <= 0x2069)
}

fn is_safe_char(c: char) -> (b: bool)
    ensures
        b == is_safe_correlation_char(c),
{
    let v = c as u32;
    !(v <= 0x1F || (0x7F <= v && v <= 0x9F)) && v != 0x061C && v != 0x2028 && v != 0x2029 && v
        != 0x200E && v != 0x200F && !(0x202A <= v && v <= 0x202E) && !(0x2066 <= v && v <= 0x2069)
}

/// The first character of `c` that may not appear in a correlation id.
pub open spec fn first_unsafe_char(c: Seq<char>) -> Option<char>
    decreases c.len(),
{
    if c.len() == 0 {
        None
    } else if !is_safe_correlation_char(c[0]) {
        Some(c[0])
    } else {
        first_unsafe_char(c.drop_first())
    }
}

/// Why the text `c` of `byte_len` bytes is no correlation id, if it is
/// not: too long, blank, or holding an unsafe character, checked in that
/// order.
pub open spec fn correlation_rejection(c: Seq<char>, byte_len: nat) -> Option<CorrelationIdError> {
    if byte_len > MAX_CORRELATION_ID_LEN {
        Some(CorrelationIdError::TooLong { len: byte_len as usize, max: MAX_CORRELATION_ID_LEN })
    } else if !has_text_spec(c) {
        Some(CorrelationIdError::Blank)
    } else {
        match first_unsafe_char(c) {
            Some(ch) => Some(CorrelationIdError::UnsafeCharacter { ch }),
            None => None,
        }
    }
}

/// Uppercase hexadecimal digits of `n`, most significant first.
pub open spec fn upper_hex_chars(n: nat) -> Seq<char>
    decreases n,
{
    let d = n % 16;
    let digit = if d < 10 { (48 + d) as char } else { (55 + d) as char };
    if n < 16 {
        seq![digit]
    } else {
        upper_hex_chars(n / 16).push(digit)
    }
}

/// Uppercase hexadecimal digits of `n`, zero-padded to at least four.
pub open spec fn code_point_digits(n: nat) -> Seq<char> {
    let h = upper_hex_chars(n);
    if h.len() < 4 {
        Seq::new((4 - h.len()) as nat, |i: int| '0') + h
    } else {
        h
    }
}

/// The message that describes a correlation id rejection.
pub open spec fn correlation_error_message(e: CorrelationIdError) -> Seq<char> {
    match e {
        CorrelationIdError::Blank => "correlation id must contain visible text"@,
        CorrelationIdError::TooLong { len, max } => "correlation id is "@ + decimal_chars(len as nat)
            + " bytes, exceeding the "@ + decimal_chars(max as nat) + " byte limit"@,
        CorrelationIdError::UnsafeCharacter { ch } => "correlation id contains unsafe character U+"@
            + code_point_digits(ch as u32 as nat),
    }
}

fn push_upper_hex(s: &mut String, n: u32)
    ensures
        final(s)@ == old(s)@ + upper_hex_chars(n as nat),
    decreases n,
{
    if n >= 16 {
        push_upper_hex(s, n / 16);
    }
    let d = (n % 16) as u8;
    let c = if d < 10 { (48 + d) as char } else { (55 + d) as char };
    push_char(s, c);
    proof {
        assert(old(s)@ + upper_hex_chars(n as nat) =~= (old(s)@ + (if n >= 16 {
            upper_hex_chars((n / 16) as nat)
        } else {
            Seq::empty()
        })).push(c));
    }
}

proof fn lemma_upper_hex_len(n: nat)
    ensures
        upper_hex_chars(n).len() >= 1,
        n < 16 ==> upper_hex_chars(n).len() == 1,
        n < 256 ==> upper_hex_chars(n).len() <= 2,
        n < 4096 ==> upper_hex_chars(n).len() <= 3,
        n >= 16 ==> upper_hex_chars(n).len() >= 2,
        n >= 256 ==> upper_hex_chars(n).len() >= 3,
        n >= 4096 ==> upper_hex_chars(n).len() >= 4,
    decreases n,
{
    if n >= 16 {
        lemma_upper_hex_len(n / 16);
    }
}

impl CorrelationIdError {
    /// Human-readable description of the rejection.
    pub fn message(&self) -> (m: String)
        ensures
            m@ == correlation_error_message(*self),
    {
        match *self {
            CorrelationIdError::Blank => owned("correlation id must contain visible text"),
            CorrelationIdError::TooLong { len, max } => {
                let mut m = owned("correlation id is ");
                push_decimal(&mut m, len as u128);
                push_str(&mut m, " bytes, exceeding the ");
                push_decimal(&mut m, max as u128);
                push_str(&mut m, " byte limit");
                m
            },
            CorrelationIdError::UnsafeCharacter { ch } => {
                let mut m = owned("correlation id contains unsafe character U+");
                let ghost prefix = m@;
                let v = ch as u32;
                proof {
                    lemma_upper_hex_len(v as nat);
                }
                let ghost h = upper_hex_chars(v as nat);
                let ghost pad: nat = if h.len() < 4 { (4 - h.len()) as nat } else { 0 };
                if v < 0x1000 {
                    push_char(&mut m, '0');
                }
                if v < 0x100 {
                    push_char(&mut m, '0');
                }
                if v < 0x10 {
                    push_char(&mut m, '0');
                }
                assert(m@ =~= prefix + Seq::new(pad, |i: int| '0'));
                push_upper_hex(&mut m, v);
                proof {
                    if h.len() < 4 {
                        assert(m@ =~= prefix + (Seq::new(pad, |i: int| '0') + h));
                    } else {
                        assert(m@ =~= prefix + h);
                    }
                }
                m
            },
        }
    }
}

/// A correlation id: at most 256 bytes of visible text without control,
/// separator or bidirectional formatting characters.
#[derive(Debug, PartialEq, Eq, PartialOrd, Ord, Hash)]
pub struct CorrelationId(String);

impl View for CorrelationId {
    type V = Seq<char>;

    closed spec fn view(&self) -> Seq<char> {
        self.0@
    }
}

proof fn lemma_first_unsafe_skip(c: Seq<char>, i: int)
    requires
        0 <= i <= c.len(),
        forall|j: int| 0 <= j < i ==> is_safe_correlation_char(#[trigger] c[j]),
    ensures
        first_unsafe_char(c) == first_unsafe_char(c.skip(i)),
    decreases i,
{
    if i > 0 {
        lemma_first_unsafe_skip(c.drop_first(), i - 1);
        assert(c.drop_first().skip(i - 1) =~= c.skip(i));
    } else {
        assert(c.skip(0) =~= c);
    }
}

impl CorrelationId {
    #[verifier::type_invariant]
    spec fn well_formed(self) -> bool {
        &&& vstd::utf8::encode_utf8(self.0@).len() <= MAX_CORRELATION_ID_LEN
        &&& has_text_spec(self.0@)
        &&& first_unsafe_char(self.0@) is None
    }

    /// Validates a correlation id.
    ///
    /// Fails with `TooLong` when the id has more than 256 bytes, then with
    /// `Blank` when it holds no visible text, then with `UnsafeCharacter`
    /// for its first control, separator or bidirectional formatting
    /// character.
    pub fn new(value: &str) -> (r: Result<Self, CorrelationIdError>)
        ensures
            match correlation_rejection(value@, value.spec_bytes().len()) {
                Some(e) => r == Err::<Self, CorrelationIdError>(e),
                None => r matches Ok(id) && id@ == value@,
            },
    {
        let len = value.as_bytes().len();
        if len > MAX_CORRELATION_ID_LEN {
            return Err(CorrelationIdError::TooLong { len, max: MAX_CORRELATION_ID_LEN });
        }
        if !has_text(value) {
            return Err(CorrelationIdError::Blank);
        }
        let chars = crate::text_support::chars_of(value);
        let mut i: usize = 0;
        while i < chars.len()
            invariant
                chars@ == value@,
                value.spec_bytes().len() <= MAX_CORRELATION_ID_LEN,
                has_text_spec(value@),
                i <= chars.len(),
                forall|j: int| 0 <= j < i ==> is_safe_correlation_char(#[trigger] chars@[j]),
            decreases chars.len() - i,
        {
            if !is_safe_char(chars[i]) {
                proof {
                    lemma_first_unsafe_skip(chars@, i as int);
                }
                return Err(CorrelationIdError::UnsafeCharacter { ch: chars[i] });
            }
            i = i + 1;
        }
        proof {
            lemma_first_unsafe_skip(chars@, i as int);
        }
        Ok(CorrelationId(owned(value)))
    }

    /// The id text.
    pub fn as_str(&self) -> (r: &str)
        ensures
            r@ == self@,
            correlation_rejection(r@, r.spec_bytes().len()) is None,
    {
        proof {
            use_type_invariant(self);
        }
        self.0.as_str()
    }

    /// The id text, as a new `String`.
    pub fn text(&self) -> (r: String)
        ensures
            r@ == self@,
    {
        self.0.clone()
    }
}

impl Clone for CorrelationId {
    fn clone(&self) -> (r: Self)
        ensures
            r@ == self@,
    {
        proof {
            use_type_invariant(self);
        }
        CorrelationId(self.0.clone())
    }
}

} // verus!

//! Validated metadata tokens: format ids, content types, adapter ids and
//! payload versions.
use vstd::prelude::*;
use crate::serialization::error::{SerializationError, SerializationErrorView};
use crate::text_support::{chars_of, owned};
use vstd::string::StringSliceAdditionalSpecFns;

verus! {

/// Maximum serialization format id length in bytes.
pub const MAX_FORMAT_ID_LEN: usize = 64;

/// Maximum content type length in bytes.
pub const MAX_CONTENT_TYPE_LEN: usize = 127;

/// Maximum adapter id length in bytes.
pub const MAX_ADAPTER_ID_LEN: usize = 64;

/// Characters allowed in a format id: `a-z`, `0-9`, `-`, `_`, `.` and `/`.
pub open spec fn is_format_char(c: char) -> bool {
    ('a' <= c <= 'z') || ('0' <= c <= '9') || c == '-' || c == '_' || c == '.' || c == '/'
}

/// Characters allowed in an adapter id: `a-z`, `0-9`, `-`, `_` and `.`.
pub open spec fn is_adapter_id_char(c: char) -> bool {
    ('a' <= c <= 'z') || ('0' <= c <= '9') || c == '-' || c == '_' || c == '.'
}

/// Characters allowed in a content type: `a-z`, `0-9` and `!#$&^_.+-/`.
pub open spec fn is_content_type_char(c: char) -> bool {
    ||| ('a' <= c <= 'z') || ('0' <= c <= '9')
    ||| c == '!' || c == '#' || c == '$' || c == '&' || c == '^'
    ||| c == '_' || c == '.' || c == '+' || c == '-' || c == '/'
}

/// The kinds of validated tokens.
#[derive(Clone, Copy, PartialEq, Eq, Structural)]
enum TokenKind {
    Format,
    ContentType,
    AdapterId,
}

spec fn token_char_allowed(kind: TokenKind, c: char) -> bool {
    match kind {
        TokenKind::Format => is_format_char(c),
        TokenKind::ContentType => is_content_type_char(c),
        TokenKind::AdapterId => is_adapter_id_char(c),
    }
}

fn char_allowed(kind: TokenKind, c: char) -> (b: bool)
    ensures
        b == token_char_allowed(kind, c),
{
    let lower = 'a' <= c && c <= 'z';
    let digit = '0' <= c && c <= '9';
    match kind {
        TokenKind::Format => lower || digit || c == '-' || c == '_' || c == '.' || c == '/',
        TokenKind::AdapterId => lower || digit || c == '-' || c == '_' || c == '.',
        TokenKind::ContentType => lower || digit || c == '!' || c == '#' || c == '$' || c == '&'
            || c == '^' || c == '_' || c == '.' || c == '+' || c == '-' || c == '/',
    }
}

/// Why a token of characters `c` and `byte_len` UTF-8 bytes is rejected, if
/// it is: it is empty, longer than `max` bytes, or holds a character that
/// `allowed` refuses (checked in that order).
pub open spec fn token_rejection(
    c: Seq<char>,
    byte_len: nat,
    max: nat,
    allowed: spec_fn(char) -> bool,
) -> Option<Seq<char>> {
    if c.len() == 0 {
        Some("value must not be empty"@)
    } else if byte_len > max {
        Some("value exceeds max length"@)
    } else if exists|i: int| 0 <= i < c.len() && !allowed(#[trigger] c[i]) {
        Some("value contains unsupported bytes"@)
    } else {
        None
    }
}

/// Whether `c` is an accepted token: non-empty, at most `max` characters,
/// each allowed.
pub open spec fn valid_token(c: Seq<char>, max: nat, allowed: spec_fn(char) -> bool) -> bool {
    &&& 0 < c.len() <= max
    &&& forall|i: int| 0 <= i < c.len() ==> #[trigger] allowed(c[i])
}

spec fn allowed_fn(kind: TokenKind) -> spec_fn(char) -> bool {
    |c: char| token_char_allowed(kind, c)
}

fn validate_token(field: &'static str, value: &str, max_len: usize, kind: TokenKind) -> (r: Result<
    (),
    SerializationError,
>)
    ensures
        match token_rejection(value@, value.spec_bytes().len(), max_len as nat, allowed_fn(kind)) {
            Some(reason) => r matches Err(e) && e@ == (SerializationErrorView::InvalidMetadata {
                field: field@,
                reason,
            }),
            None => r is Ok && valid_token(value@, max_len as nat, allowed_fn(kind)),
        },
{
    if value.is_empty() {
        return Err(SerializationError::InvalidMetadata { field, reason: "value must not be empty" });
    }
    if value.as_bytes().len() > max_len {
        return Err(
            SerializationError::InvalidMetadata { field, reason: "value exceeds max length" },
        );
    }
    let chars = chars_of(value);
    let mut i: usize = 0;
    while i < chars.len()
        invariant
            chars@ == value@,
            value@.len() > 0,
            value.spec_bytes().len() <= max_len,
            i <= chars.len(),
            forall|j: int| 0 <= j < i ==> #[trigger] token_char_allowed(kind, chars@[j]),
        decreases chars.len() - i,
    {
        if !char_allowed(kind, chars[i]) {
            assert(!allowed_fn(kind)(value@[i as int]));
            assert(exists|j: int| 0 <= j < value@.len() && !allowed_fn(kind)(#[trigger] value@[j]));
            return Err(
                SerializationError::InvalidMetadata {
                    field,
                    reason: "value contains unsupported bytes",
                },
            );
        }
        i = i + 1;
    }
    proof {
        assert(vstd::utf8::is_ascii_chars(value@)) by {
            assert forall|j: int| 0 <= j < value@.len() implies '\0' <= #[trigger] value@[j] <= '\u{7f}' by {
                assert(token_char_allowed(kind, chars@[j]));
            }
        }
        vstd::utf8::is_ascii_chars_encode_utf8(value@);
        assert forall|j: int| 0 <= j < value@.len() implies #[trigger] allowed_fn(kind)(value@[j]) by {
            assert(token_char_allowed(kind, chars@[j]));
        }
    }
    Ok(())
}

/// Stable serialization format identifier.
///
/// Always a valid format id: 1 to 64 characters of `a-z`, `0-9`, `-`, `_`,
/// `.` and `/`.
#[derive(Debug, PartialEq, Eq, Hash, PartialOrd, Ord)]
pub struct SerializationFormat(String);

/// Validated media type for serialized payload bytes.
///
/// Always a lowercase ASCII media type of at most 127 characters with
/// exactly one `/`, which neither starts nor ends it.
#[derive(Debug, PartialEq, Eq, Hash, PartialOrd, Ord)]
pub struct ContentType(String);

/// Stable id for a concrete serialization adapter.
///
/// Always a valid adapter id: 1 to 64 characters of `a-z`, `0-9`, `-`, `_`
/// and `.`.
#[derive(Debug, PartialEq, Eq, Hash, PartialOrd, Ord)]
pub struct AdapterId(String);

/// Positive serialization payload version.
#[derive(Debug, PartialEq, Eq, Hash, PartialOrd, Ord)]
pub struct PayloadVersion(u16);

impl View for SerializationFormat {
    type V = Seq<char>;

    closed spec fn view(&self) -> Seq<char> {
        self.0@
    }
}

impl View for ContentType {
    type V = Seq<char>;

    closed spec fn view(&self) -> Seq<char> {
        self.0@
    }
}

impl View for AdapterId {
    type V = Seq<char>;

    closed spec fn view(&self) -> Seq<char> {
        self.0@
    }
}

impl View for PayloadVersion {
    type V = u16;

    closed spec fn view(&self) -> u16 {
        self.0
    }
}

/// Whether `c` is a valid format id.
pub open spec fn valid_format(c: Seq<char>) -> bool {
    valid_token(c, MAX_FORMAT_ID_LEN as nat, |ch: char| is_format_char(ch))
}

/// Whether `c` is a valid adapter id.
pub open spec fn valid_adapter_id(c: Seq<char>) -> bool {
    valid_token(c, MAX_ADAPTER_ID_LEN as nat, |ch: char| is_adapter_id_char(ch))
}

/// Number of `/` characters in `c`.
pub open spec fn slash_count(c: Seq<char>) -> nat
    decreases c.len(),
{
    if c.len() == 0 {
        0
    } else {
        slash_count(c.drop_last()) + if c.last() == '/' { 1nat } else { 0nat }
    }
}

/// Whether `c` is a valid content type.
pub open spec fn valid_content_type(c: Seq<char>) -> bool {
    &&& valid_token(c, MAX_CONTENT_TYPE_LEN as nat, |ch: char| is_content_type_char(ch))
    &&& slash_count(c) == 1
    &&& c[0] != '/'
    &&& c.last() != '/'
}

/// Why the content type text `c` of `byte_len` bytes is rejected, if it is.
pub open spec fn content_type_rejection(c: Seq<char>, byte_len: nat) -> Option<Seq<char>> {
    match token_rejection(c, byte_len, MAX_CONTENT_TYPE_LEN as nat, |ch: char| is_content_type_char(ch)) {
        Some(reason) => Some(reason),
        None => if slash_count(c) != 1 {
            Some("content type must contain exactly one slash"@)
        } else if c[0] == '/' || c.last() == '/' {
            Some("content type must have non-empty type and subtype"@)
        } else {
            None
        },
    }
}

impl SerializationFormat {
    #[verifier::type_invariant]
    spec fn well_formed(self) -> bool {
        valid_format(self.0@)
    }

    /// Validates a format id.
    ///
    /// Fails with `InvalidMetadata` for the field `format` when the id is
    /// empty, longer than 64 bytes, or holds a character other than `a-z`,
    /// `0-9`, `-`, `_`, `.` and `/`.
    pub fn new(value: &str) -> (r: Result<Self, SerializationError>)
        ensures
            match token_rejection(value@, value.spec_bytes().len(), MAX_FORMAT_ID_LEN as nat, |ch: char| is_format_char(ch)) {
                Some(reason) => r matches Err(e) && e@ == (SerializationErrorView::InvalidMetadata {
                    field: "format"@,
                    reason,
                }),
                None => r matches Ok(f) && f@ == value@,
            },
    {
        let checked = validate_token("format", value, MAX_FORMAT_ID_LEN, TokenKind::Format);
        proof {
            assert(allowed_fn(TokenKind::Format) =~= (|ch: char| is_format_char(ch)));
        }
        match checked {
            Err(e) => Err(e),
            Ok(()) => Ok(SerializationFormat(owned(value))),
        }
    }

    /// The format id; it is always valid.
    pub fn as_str(&self) -> (r: &str)
        ensures
            r@ == self@,
            valid_format(r@),
    {
        proof {
            use_type_invariant(self);
        }
        self.0.as_str()
    }
}

impl SerializationFormat {
    /// Whether both hold the same text.
    pub(crate) fn same_as(&self, other: &Self) -> (b: bool)
        ensures
            b == (self@ == other@),
    {
        self.0 == other.0
    }
}

impl Clone for SerializationFormat {
    fn clone(&self) -> (r: Self)
        ensures
            r@ == self@,
    {
        proof {
            use_type_invariant(self);
        }
        SerializationFormat(self.0.clone())
    }
}

impl AdapterId {
    #[verifier::type_invariant]
    spec fn well_formed(self) -> bool {
        valid_adapter_id(self.0@)
    }

    /// Validates an adapter id.
    ///
    /// Fails with `InvalidMetadata` for the field `adapter_id` when the id is
    /// empty, longer than 64 bytes, or holds a character other than `a-z`,
    /// `0-9`, `-`, `_` and `.`.
    pub fn new(value: &str) -> (r: Result<Self, SerializationError>)
        ensures
            match token_rejection(value@, value.spec_bytes().len(), MAX_ADAPTER_ID_LEN as nat, |ch: char| is_adapter_id_char(ch)) {
                Some(reason) => r matches Err(e) && e@ == (SerializationErrorView::InvalidMetadata {
                    field: "adapter_id"@,
                    reason,
                }),
                None => r matches Ok(f) && f@ == value@,
            },
    {
        let checked = validate_token("adapter_id", value, MAX_ADAPTER_ID_LEN, TokenKind::AdapterId);
        proof {
            assert(allowed_fn(TokenKind::AdapterId) =~= (|ch: char| is_adapter_id_char(ch)));
        }
        match checked {
            Err(e) => Err(e),
            Ok(()) => Ok(AdapterId(owned(value))),
        }
    }

    /// The adapter id; it is always valid.
    pub fn as_str(&self) -> (r: &str)
        ensures
            r@ == self@,
            valid_adapter_id(r@),
    {
        proof {
            use_type_invariant(self);
        }
        self.0.as_str()
    }
}

impl AdapterId {
    /// Whether both hold the same text.
    pub(crate) fn same_as(&self, other: &Self) -> (b: bool)
        ensures
            b == (self@ == other@),
    {
        self.0 == other.0
    }
}

impl Clone for AdapterId {
    fn clone(&self) -> (r: Self)
        ensures
            r@ == self@,
    {
        proof {
            use_type_invariant(self);
        }
        AdapterId(self.0.clone())
    }
}

proof fn lemma_slash_count_prefix(c: Seq<char>, i: int)
    requires
        0 <= i < c.len(),
    ensures
        slash_count(c.take(i + 1)) == slash_count(c.take(i)) + if c[i] == '/' { 1nat } else { 0nat },
{
    assert(c.take(i + 1).drop_last() =~= c.take(i));
}

impl ContentType {
    #[verifier::type_invariant]
    spec fn well_formed(self) -> bool {
        valid_content_type(self.0@)
    }

    /// Validates a media type.
    ///
    /// Fails with `InvalidMetadata` for the field `content_type` when the
    /// value is empty, longer than 127 bytes, holds a character other than
    /// `a-z`, `0-9` and `!#$&^_.+-/`, does not hold exactly one `/`, or starts
    /// or ends with it (checked in that order).
    pub fn new(value: &str) -> (r: Result<Self, SerializationError>)
        ensures
            match content_type_rejection(value@, value.spec_bytes().len()) {
                Some(reason) => r matches Err(e) && e@ == (SerializationErrorView::InvalidMetadata {
                    field: "content_type"@,
                    reason,
                }),
                None => r matches Ok(f) && f@ == value@,
            },
    {
        let checked = validate_token(
            "content_type",
            value,
            MAX_CONTENT_TYPE_LEN,
            TokenKind::ContentType,
        );
        proof {
            assert(allowed_fn(TokenKind::ContentType) =~= (|ch: char| is_content_type_char(ch)));
        }
        match checked {
            Err(e) => {
                return Err(e);
            },
            Ok(()) => {},
        }
        let chars = chars_of(value);
        let mut slashes: usize = 0;
        let mut i: usize = 0;
        while i < chars.len()
            invariant
                chars@ == value@,
                i <= chars.len(),
                slashes == slash_count(chars@.take(i as int)),
                slashes <= i,
            decreases chars.len() - i,
        {
            proof {
                lemma_slash_count_prefix(chars@, i as int);
            }
            if chars[i] == '/' {
                slashes = slashes + 1;
            }
            i = i + 1;
        }
        proof {
            assert(chars@.take(chars@.len() as int) =~= chars@);
        }
        if slashes != 1 {
            return Err(
                SerializationError::InvalidMetadata {
                    field: "content_type",
                    reason: "content type must contain exactly one slash",
                },
            );
        }
        if chars[0] == '/' || chars[chars.len() - 1] == '/' {
            return Err(
                SerializationError::InvalidMetadata {
                    field: "content_type",
                    reason: "content type must have non-empty type and subtype",
                },
            );
        }
        Ok(ContentType(owned(value)))
    }

    /// The content type `application/octet-stream`.
    pub fn octet_stream() -> (r: Self)
        ensures
            r@ == "application/octet-stream"@,
    {
        let s = owned("application/octet-stream");
        proof {
            reveal_strlit("application/octet-stream");
            let c = s@;
            assert(c.len() == 24);
            assert forall|i: int| 0 <= i < c.len() implies is_content_type_char(#[trigger] c[i]) by {}
            assert(slash_count(c) == 1) by {
                reveal_with_fuel(slash_count, 25);
            }
        }
        ContentType(s)
    }

    /// The content type; it is always valid.
    pub fn as_str(&self) -> (r: &str)
        ensures
            r@ == self@,
            valid_content_type(r@),
    {
        proof {
            use_type_invariant(self);
        }
        self.0.as_str()
    }
}

impl ContentType {
    /// Whether both hold the same text.
    pub(crate) fn same_as(&self, other: &Self) -> (b: bool)
        ensures
            b == (self@ == other@),
    {
        self.0 == other.0
    }
}

impl Clone for ContentType {
    fn clone(&self) -> (r: Self)
        ensures
            r@ == self@,
    {
        proof {
            use_type_invariant(self);
        }
        ContentType(self.0.clone())
    }
}

impl PayloadVersion {
    #[verifier::type_invariant]
    spec fn well_formed(self) -> bool {
        self.0 > 0
    }

    /// A payload version; fails with `InvalidMetadata` for the field
    /// `version` exactly when `version` is zero.
    pub fn new(version: u16) -> (r: Result<Self, SerializationError>)
        ensures
            version == 0 ==> (r matches Err(e) && e@ == (SerializationErrorView::InvalidMetadata {
                field: "version"@,
                reason: "payload version must be positive"@,
            })),
            version > 0 ==> (r matches Ok(v) && v@ == version),
    {
        if version == 0 {
            return Err(
                SerializationError::InvalidMetadata {
                    field: "version",
                    reason: "payload version must be positive",
                },
            );
        }
        Ok(PayloadVersion(version))
    }

    /// The version number; it is always positive.
    pub fn get(&self) -> (r: u16)
        ensures
            r == self@,
            r > 0,
    {
        proof {
            use_type_invariant(self);
        }
        self.0
    }
}

impl Clone for PayloadVersion {
    fn clone(&self) -> (r: Self)
        ensures
            r@ == self@,
    {
        proof {
            use_type_invariant(self);
        }
        PayloadVersion(self.0)
    }
}

impl Copy for PayloadVersion {

}

} // verus!

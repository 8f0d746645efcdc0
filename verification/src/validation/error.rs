//! Errors reported when caller-owned input violates a validation contract.
use vstd::prelude::*;
use crate::text_support::{decimal_chars, int_string, int_text, owned, push_str};

verus! {

/// Range boundary semantics for validation errors.
#[derive(Debug, Clone, Copy, PartialEq, Eq, Structural)]
#[non_exhaustive]
pub enum RangeKind {
    /// Inclusive range: `[lower, upper]`.
    Inclusive,
    /// Half-open range: `[lower, upper)`.
    HalfOpen,
}

/// The name of a range kind as it appears in messages.
pub open spec fn range_kind_text(kind: RangeKind) -> Seq<char> {
    match kind {
        RangeKind::Inclusive => "inclusive"@,
        RangeKind::HalfOpen => "half-open"@,
    }
}

impl RangeKind {
    /// `inclusive` or `half-open`.
    pub fn message(&self) -> (m: String)
        ensures
            m@ == range_kind_text(*self),
    {
        match self {
            RangeKind::Inclusive => owned("inclusive"),
            RangeKind::HalfOpen => owned("half-open"),
        }
    }
}

/// Error returned when caller-owned input violates a validation contract.
///
/// The variants keep the caller-facing name and the rendered values, so a
/// failure can be reported without losing its context.
#[derive(Debug, Clone, PartialEq, Eq)]
#[allow(inconsistent_fields)]
#[non_exhaustive]
pub enum ValidationError {
    /// A named value was empty.
    Empty {
        /// Caller-facing value name.
        name: String,
    },
    /// A named value was empty or contained only whitespace.
    Blank {
        /// Caller-facing value name.
        name: String,
    },
    /// A range definition was invalid.
    InvalidRange {
        /// Caller-facing range name.
        name: String,
        /// Rendered lower bound.
        lower: String,
        /// Rendered upper bound.
        upper: String,
        /// Boundary semantics used for the range.
        kind: RangeKind,
    },
    /// A named value was outside the accepted range.
    OutOfRange {
        /// Caller-facing value name.
        name: String,
        /// Rendered rejected value.
        value: String,
        /// Rendered lower bound.
        lower: String,
        /// Rendered upper bound.
        upper: String,
        /// Boundary semantics used for the range.
        kind: RangeKind,
    },
    /// A named value was expected to be positive.
    NotPositive {
        /// Caller-facing value name.
        name: String,
        /// Rendered rejected value.
        value: String,
    },
    /// A named value was expected to be non-negative.
    Negative {
        /// Caller-facing value name.
        name: String,
        /// Rendered rejected value.
        value: String,
    },
    /// A named value was expected to be a finite number.
    NonFinite {
        /// Caller-facing value name.
        name: String,
        /// Rendered rejected value.
        value: String,
    },
    /// A byte limit was invalid.
    NegativeLimit {
        /// Caller-facing limit name.
        name: String,
        /// Rejected byte limit.
        value: isize,
    },
}

/// A validation error with its texts taken as character sequences.
#[allow(inconsistent_fields)]
pub enum ValidationErrorView {
    Empty { name: Seq<char> },
    Blank { name: Seq<char> },
    InvalidRange { name: Seq<char>, lower: Seq<char>, upper: Seq<char>, kind: RangeKind },
    OutOfRange {
        name: Seq<char>,
        value: Seq<char>,
        lower: Seq<char>,
        upper: Seq<char>,
        kind: RangeKind,
    },
    NotPositive { name: Seq<char>, value: Seq<char> },
    Negative { name: Seq<char>, value: Seq<char> },
    NonFinite { name: Seq<char>, value: Seq<char> },
    NegativeLimit { name: Seq<char>, value: isize },
}

impl View for ValidationError {
    type V = ValidationErrorView;

    open spec fn view(&self) -> ValidationErrorView {
        match self {
            ValidationError::Empty { name } => ValidationErrorView::Empty { name: name@ },
            ValidationError::Blank { name } => ValidationErrorView::Blank { name: name@ },
            ValidationError::InvalidRange { name, lower, upper, kind } =>
                ValidationErrorView::InvalidRange {
                name: name@,
                lower: lower@,
                upper: upper@,
                kind: *kind,
            },
            ValidationError::OutOfRange { name, value, lower, upper, kind } =>
                ValidationErrorView::OutOfRange {
                name: name@,
                value: value@,
                lower: lower@,
                upper: upper@,
                kind: *kind,
            },
            ValidationError::NotPositive { name, value } => ValidationErrorView::NotPositive {
                name: name@,
                value: value@,
            },
            ValidationError::Negative { name, value } => ValidationErrorView::Negative {
                name: name@,
                value: value@,
            },
            ValidationError::NonFinite { name, value } => ValidationErrorView::NonFinite {
                name: name@,
                value: value@,
            },
            ValidationError::NegativeLimit { name, value } => ValidationErrorView::NegativeLimit {
                name: name@,
                value: *value,
            },
        }
    }
}

/// The message that describes a validation failure.
pub open spec fn validation_message(e: ValidationErrorView) -> Seq<char> {
    match e {
        ValidationErrorView::Empty { name } => name + " must not be empty"@,
        ValidationErrorView::Blank { name } => name + " must not be blank"@,
        ValidationErrorView::InvalidRange { name, lower, upper, kind } => name + " "@
            + range_kind_text(kind) + " range is invalid: lower "@ + lower
            + " must be less than upper "@ + upper,
        ValidationErrorView::OutOfRange { name, value, lower, upper, kind } => name + "["@ + value
            + "] must be in range ["@ + lower + ", "@ + upper + match kind {
            RangeKind::Inclusive => "]"@,
            RangeKind::HalfOpen => ")"@,
        },
        ValidationErrorView::NotPositive { name, value } => name + "["@ + value
            + "] must be positive"@,
        ValidationErrorView::Negative { name, value } => name + "["@ + value
            + "] must be non-negative"@,
        ValidationErrorView::NonFinite { name, value } => name + "["@ + value + "] must be finite"@,
        ValidationErrorView::NegativeLimit { name, value } => name + "["@ + int_text(value as int)
            + "] must be non-negative"@,
    }
}

impl ValidationError {
    /// Human-readable description of the failure.
    pub fn message(&self) -> (m: String)
        ensures
            m@ == validation_message(self@),
    {
        match self {
            ValidationError::Empty { name } => {
                let mut m = name.clone();
                push_str(&mut m, " must not be empty");
                m
            },
            ValidationError::Blank { name } => {
                let mut m = name.clone();
                push_str(&mut m, " must not be blank");
                m
            },
            ValidationError::InvalidRange { name, lower, upper, kind } => {
                let mut m = name.clone();
                push_str(&mut m, " ");
                let k = kind.message();
                push_str(&mut m, k.as_str());
                push_str(&mut m, " range is invalid: lower ");
                push_str(&mut m, lower.as_str());
                push_str(&mut m, " must be less than upper ");
                push_str(&mut m, upper.as_str());
                m
            },
            ValidationError::OutOfRange { name, value, lower, upper, kind } => {
                let mut m = name.clone();
                push_str(&mut m, "[");
                push_str(&mut m, value.as_str());
                push_str(&mut m, "] must be in range [");
                push_str(&mut m, lower.as_str());
                push_str(&mut m, ", ");
                push_str(&mut m, upper.as_str());
                match kind {
                    RangeKind::Inclusive => push_str(&mut m, "]"),
                    RangeKind::HalfOpen => push_str(&mut m, ")"),
                }
                m
            },
            ValidationError::NotPositive { name, value } => {
                let mut m = name.clone();
                push_str(&mut m, "[");
                push_str(&mut m, value.as_str());
                push_str(&mut m, "] must be positive");
                m
            },
            ValidationError::Negative { name, value } => {
                let mut m = name.clone();
                push_str(&mut m, "[");
                push_str(&mut m, value.as_str());
                push_str(&mut m, "] must be non-negative");
                m
            },
            ValidationError::NonFinite { name, value } => {
                let mut m = name.clone();
                push_str(&mut m, "[");
                push_str(&mut m, value.as_str());
                push_str(&mut m, "] must be finite");
                m
            },
            ValidationError::NegativeLimit { name, value } => {
                let mut m = name.clone();
                push_str(&mut m, "[");
                let v = int_string(*value as i128);
                push_str(&mut m, v.as_str());
                push_str(&mut m, "] must be non-negative");
                m
            },
        }
    }
}

} // verus!

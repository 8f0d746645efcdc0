//! Numeric validation: ranges, signs and clamping.
use vstd::prelude::*;
use crate::text_support::{int_string, int_text, owned, uint_string};
use crate::validation::error::{RangeKind, ValidationError, ValidationErrorView};

verus! {

/// Numeric types accepted by the validation helpers.
///
/// A number has a mathematical value, may be unusable for comparison (a
/// value that is not a finite number), and renders as text in messages.
/// Every integer type implements it: each integer is valid and renders in
/// decimal.
pub trait Number: Copy + Sized {
    /// The mathematical value.
    spec fn numeric_value(self) -> int;

    /// Whether the value can be compared reliably.
    spec fn valid_value(self) -> bool;

    /// The text that renders the value in messages.
    spec fn rendered(self) -> Seq<char>;

    /// Returns whether this value can be compared reliably by validation helpers.
    fn is_valid_number(self) -> (valid: bool)
        ensures
            valid == self.valid_value(),
    ;

    /// Whether `self` is less than `other`.
    fn less_than(self, other: Self) -> (lt: bool)
        requires
            self.valid_value(),
            other.valid_value(),
        ensures
            lt == (self.numeric_value() < other.numeric_value()),
    ;

    /// The zero of the type.
    fn zero() -> (z: Self)
        ensures
            z.valid_value(),
            z.numeric_value() == 0,
    ;

    /// The text of the value, as it appears in messages.
    fn render(self) -> (text: String)
        ensures
            text@ == self.rendered(),
    ;
}

impl Number for i8 {
    open spec fn numeric_value(self) -> int {
        self as int
    }

    open spec fn valid_value(self) -> bool {
        true
    }

    open spec fn rendered(self) -> Seq<char> {
        int_text(self as int)
    }

    fn is_valid_number(self) -> (valid: bool) {
        true
    }

    fn less_than(self, other: Self) -> (lt: bool) {
        self < other
    }

    fn zero() -> (z: Self) {
        0
    }

    fn render(self) -> (text: String) {
        int_string(self as i128)
    }
}

impl Number for i16 {
    open spec fn numeric_value(self) -> int {
        self as int
    }

    open spec fn valid_value(self) -> bool {
        true
    }

    open spec fn rendered(self) -> Seq<char> {
        int_text(self as int)
    }

    fn is_valid_number(self) -> (valid: bool) {
        true
    }

    fn less_than(self, other: Self) -> (lt: bool) {
        self < other
    }

    fn zero() -> (z: Self) {
        0
    }

    fn render(self) -> (text: String) {
        int_string(self as i128)
    }
}

impl Number for i32 {
    open spec fn numeric_value(self) -> int {
        self as int
    }

    open spec fn valid_value(self) -> bool {
        true
    }

    open spec fn rendered(self) -> Seq<char> {
        int_text(self as int)
    }

    fn is_valid_number(self) -> (valid: bool) {
        true
    }

    fn less_than(self, other: Self) -> (lt: bool) {
        self < other
    }

    fn zero() -> (z: Self) {
        0
    }

    fn render(self) -> (text: String) {
        int_string(self as i128)
    }
}

impl Number for i64 {
    open spec fn numeric_value(self) -> int {
        self as int
    }

    open spec fn valid_value(self) -> bool {
        true
    }

    open spec fn rendered(self) -> Seq<char> {
        int_text(self as int)
    }

    fn is_valid_number(self) -> (valid: bool) {
        true
    }

    fn less_than(self, other: Self) -> (lt: bool) {
        self < other
    }

    fn zero() -> (z: Self) {
        0
    }

    fn render(self) -> (text: String) {
        int_string(self as i128)
    }
}

impl Number for i128 {
    open spec fn numeric_value(self) -> int {
        self as int
    }

    open spec fn valid_value(self) -> bool {
        true
    }

    open spec fn rendered(self) -> Seq<char> {
        int_text(self as int)
    }

    fn is_valid_number(self) -> (valid: bool) {
        true
    }

    fn less_than(self, other: Self) -> (lt: bool) {
        self < other
    }

    fn zero() -> (z: Self) {
        0
    }

    fn render(self) -> (text: String) {
        int_string(self as i128)
    }
}

impl Number for isize {
    open spec fn numeric_value(self) -> int {
        self as int
    }

    open spec fn valid_value(self) -> bool {
        true
    }

    open spec fn rendered(self) -> Seq<char> {
        int_text(self as int)
    }

    fn is_valid_number(self) -> (valid: bool) {
        true
    }

    fn less_than(self, other: Self) -> (lt: bool) {
        self < other
    }

    fn zero() -> (z: Self) {
        0
    }

    fn render(self) -> (text: String) {
        int_string(self as i128)
    }
}

impl Number for u8 {
    open spec fn numeric_value(self) -> int {
        self as int
    }

    open spec fn valid_value(self) -> bool {
        true
    }

    open spec fn rendered(self) -> Seq<char> {
        int_text(self as int)
    }

    fn is_valid_number(self) -> (valid: bool) {
        true
    }

    fn less_than(self, other: Self) -> (lt: bool) {
        self < other
    }

    fn zero() -> (z: Self) {
        0
    }

    fn render(self) -> (text: String) {
        uint_string(self as u128)
    }
}

impl Number for u16 {
    open spec fn numeric_value(self) -> int {
        self as int
    }

    open spec fn valid_value(self) -> bool {
        true
    }

    open spec fn rendered(self) -> Seq<char> {
        int_text(self as int)
    }

    fn is_valid_number(self) -> (valid: bool) {
        true
    }

    fn less_than(self, other: Self) -> (lt: bool) {
        self < other
    }

    fn zero() -> (z: Self) {
        0
    }

    fn render(self) -> (text: String) {
        uint_string(self as u128)
    }
}

impl Number for u32 {
    open spec fn numeric_value(self) -> int {
        self as int
    }

    open spec fn valid_value(self) -> bool {
        true
    }

    open spec fn rendered(self) -> Seq<char> {
        int_text(self as int)
    }

    fn is_valid_number(self) -> (valid: bool) {
        true
    }

    fn less_than(self, other: Self) -> (lt: bool) {
        self < other
    }

    fn zero() -> (z: Self) {
        0
    }

    fn render(self) -> (text: String) {
        uint_string(self as u128)
    }
}

impl Number for u64 {
    open spec fn numeric_value(self) -> int {
        self as int
    }

    open spec fn valid_value(self) -> bool {
        true
    }

    open spec fn rendered(self) -> Seq<char> {
        int_text(self as int)
    }

    fn is_valid_number(self) -> (valid: bool) {
        true
    }

    fn less_than(self, other: Self) -> (lt: bool) {
        self < other
    }

    fn zero() -> (z: Self) {
        0
    }

    fn render(self) -> (text: String) {
        uint_string(self as u128)
    }
}

impl Number for u128 {
    open spec fn numeric_value(self) -> int {
        self as int
    }

    open spec fn valid_value(self) -> bool {
        true
    }

    open spec fn rendered(self) -> Seq<char> {
        int_text(self as int)
    }

    fn is_valid_number(self) -> (valid: bool) {
        true
    }

    fn less_than(self, other: Self) -> (lt: bool) {
        self < other
    }

    fn zero() -> (z: Self) {
        0
    }

    fn render(self) -> (text: String) {
        uint_string(self as u128)
    }
}

impl Number for usize {
    open spec fn numeric_value(self) -> int {
        self as int
    }

    open spec fn valid_value(self) -> bool {
        true
    }

    open spec fn rendered(self) -> Seq<char> {
        int_text(self as int)
    }

    fn is_valid_number(self) -> (valid: bool) {
        true
    }

    fn less_than(self, other: Self) -> (lt: bool) {
        self < other
    }

    fn zero() -> (z: Self) {
        0
    }

    fn render(self) -> (text: String) {
        uint_string(self as u128)
    }
}

/// The view of a validation outcome.
pub open spec fn outcome_view<T>(r: Result<T, ValidationError>) -> Result<T, ValidationErrorView> {
    match r {
        Ok(v) => Ok(v),
        Err(e) => Err(e@),
    }
}

/// Outcome of checking `value` against the range from `lower` to `upper`
/// with boundary semantics `kind`.
pub open spec fn range_outcome<T: Number>(
    name: Seq<char>,
    value: T,
    lower: T,
    upper: T,
    kind: RangeKind,
) -> Result<T, ValidationErrorView> {
    let (v, l, u) = (value.numeric_value(), lower.numeric_value(), upper.numeric_value());
    if !value.valid_value() {
        Err(ValidationErrorView::NonFinite { name, value: value.rendered() })
    } else if !lower.valid_value() {
        Err(ValidationErrorView::NonFinite { name, value: lower.rendered() })
    } else if !upper.valid_value() {
        Err(ValidationErrorView::NonFinite { name, value: upper.rendered() })
    } else if (kind == RangeKind::Inclusive && l > u) || (kind == RangeKind::HalfOpen && l >= u) {
        Err(
            ValidationErrorView::InvalidRange {
                name,
                lower: lower.rendered(),
                upper: upper.rendered(),
                kind,
            },
        )
    } else if v < l || (kind == RangeKind::Inclusive && v > u) || (kind == RangeKind::HalfOpen
        && v >= u) {
        Err(
            ValidationErrorView::OutOfRange {
                name,
                value: value.rendered(),
                lower: lower.rendered(),
                upper: upper.rendered(),
                kind,
            },
        )
    } else {
        Ok(value)
    }
}

fn require_finite_number<T: Number>(name: &str, value: T) -> (r: Result<(), ValidationError>)
    ensures
        value.valid_value() ==> r is Ok,
        !value.valid_value() ==> (r matches Err(e) && e@ == (ValidationErrorView::NonFinite {
            name: name@,
            value: value.rendered(),
        })),
{
    if value.is_valid_number() {
        Ok(())
    } else {
        Err(ValidationError::NonFinite { name: owned(name), value: value.render() })
    }
}

fn invalid_range<T: Number>(name: &str, lower: T, upper: T, kind: RangeKind) -> (e: ValidationError)
    ensures
        e@ == (ValidationErrorView::InvalidRange {
            name: name@,
            lower: lower.rendered(),
            upper: upper.rendered(),
            kind,
        }),
{
    ValidationError::InvalidRange { name: owned(name), lower: lower.render(), upper: upper.render(), kind }
}

fn out_of_range<T: Number>(name: &str, value: T, lower: T, upper: T, kind: RangeKind) -> (e: ValidationError)
    ensures
        e@ == (ValidationErrorView::OutOfRange {
            name: name@,
            value: value.rendered(),
            lower: lower.rendered(),
            upper: upper.rendered(),
            kind,
        }),
{
    ValidationError::OutOfRange {
        name: owned(name),
        value: value.render(),
        lower: lower.render(),
        upper: upper.render(),
        kind,
    }
}

fn check_range<T: Number>(name: &str, value: T, lower: T, upper: T, kind: RangeKind) -> (r: Result<T, ValidationError>)
    ensures
        outcome_view(r) == range_outcome(name@, value, lower, upper, kind),
{
    match require_finite_number(name, value) {
        Err(e) => return Err(e),
        Ok(()) => {},
    }
    match require_finite_number(name, lower) {
        Err(e) => return Err(e),
        Ok(()) => {},
    }
    match require_finite_number(name, upper) {
        Err(e) => return Err(e),
        Ok(()) => {},
    }
    let invalid = match kind {
        RangeKind::Inclusive => upper.less_than(lower),
        RangeKind::HalfOpen => !lower.less_than(upper),
    };
    if invalid {
        return Err(invalid_range(name, lower, upper, kind));
    }
    let outside = match kind {
        RangeKind::Inclusive => value.less_than(lower) || upper.less_than(value),
        RangeKind::HalfOpen => value.less_than(lower) || !value.less_than(upper),
    };
    if outside {
        return Err(out_of_range(name, value, lower, upper, kind));
    }
    Ok(value)
}

/// Returns `Ok(value)` when it is inside the inclusive `[lower, upper]` range.
///
/// Fails with `NonFinite` for the first of value, lower and upper that is no
/// valid number, then with `InvalidRange` when `lower > upper`, then with
/// `OutOfRange` when the value lies outside.
pub fn require_in_range<T: Number>(name: &str, value: T, lower: T, upper: T) -> (r: Result<T, ValidationError>)
    ensures
        outcome_view(r) == range_outcome(name@, value, lower, upper, RangeKind::Inclusive),
{
    check_range(name, value, lower, upper, RangeKind::Inclusive)
}

/// Returns `Ok(value)` when it is inside the half-open `[lower, upper)` range.
///
/// Fails with `NonFinite` for the first of value, lower and upper that is no
/// valid number, then with `InvalidRange` when `lower >= upper`, then with
/// `OutOfRange` when the value lies outside.
pub fn require_in_half_open_range<T: Number>(name: &str, value: T, lower: T, upper: T) -> (r: Result<T, ValidationError>)
    ensures
        outcome_view(r) == range_outcome(name@, value, lower, upper, RangeKind::HalfOpen),
{
    check_range(name, value, lower, upper, RangeKind::HalfOpen)
}

/// Returns `Ok(value)` when it is greater than zero.
pub fn require_positive<T: Number>(name: &str, value: T) -> (r: Result<T, ValidationError>)
    ensures
        outcome_view(r) == if !value.valid_value() {
            Err(ValidationErrorView::NonFinite { name: name@, value: value.rendered() })
        } else if value.numeric_value() <= 0 {
            Err(ValidationErrorView::NotPositive { name: name@, value: value.rendered() })
        } else {
            Ok::<T, ValidationErrorView>(value)
        },
{
    match require_finite_number(name, value) {
        Err(e) => return Err(e),
        Ok(()) => {},
    }
    if !T::zero().less_than(value) {
        Err(ValidationError::NotPositive { name: owned(name), value: value.render() })
    } else {
        Ok(value)
    }
}

/// Returns `Ok(value)` when it is greater than or equal to zero.
pub fn require_non_negative<T: Number>(name: &str, value: T) -> (r: Result<T, ValidationError>)
    ensures
        outcome_view(r) == if !value.valid_value() {
            Err(ValidationErrorView::NonFinite { name: name@, value: value.rendered() })
        } else if value.numeric_value() < 0 {
            Err(ValidationErrorView::Negative { name: name@, value: value.rendered() })
        } else {
            Ok::<T, ValidationErrorView>(value)
        },
{
    match require_finite_number(name, value) {
        Err(e) => return Err(e),
        Ok(()) => {},
    }
    if value.less_than(T::zero()) {
        Err(ValidationError::Negative { name: owned(name), value: value.render() })
    } else {
        Ok(value)
    }
}

/// Outcome of clamping `value` into the inclusive range from `lower` to `upper`.
pub open spec fn clamp_outcome<T: Number>(value: T, lower: T, upper: T) -> Result<T, ValidationErrorView> {
    if !value.valid_value() {
        Err(ValidationErrorView::NonFinite { name: "value"@, value: value.rendered() })
    } else if !lower.valid_value() {
        Err(ValidationErrorView::NonFinite { name: "lower"@, value: lower.rendered() })
    } else if !upper.valid_value() {
        Err(ValidationErrorView::NonFinite { name: "upper"@, value: upper.rendered() })
    } else if lower.numeric_value() > upper.numeric_value() {
        Err(
            ValidationErrorView::InvalidRange {
                name: "range"@,
                lower: lower.rendered(),
                upper: upper.rendered(),
                kind: RangeKind::Inclusive,
            },
        )
    } else if value.numeric_value() < lower.numeric_value() {
        Ok(lower)
    } else if value.numeric_value() > upper.numeric_value() {
        Ok(upper)
    } else {
        Ok(value)
    }
}

/// Returns `value` constrained to the inclusive `[lower, upper]` range.
pub fn clamp<T: Number>(value: T, lower: T, upper: T) -> (r: Result<T, ValidationError>)
    ensures
        outcome_view(r) == clamp_outcome(value, lower, upper),
{
    match require_finite_number("value", value) {
        Err(e) => return Err(e),
        Ok(()) => {},
    }
    match require_finite_number("lower", lower) {
        Err(e) => return Err(e),
        Ok(()) => {},
    }
    match require_finite_number("upper", upper) {
        Err(e) => return Err(e),
        Ok(()) => {},
    }
    if upper.less_than(lower) {
        return Err(invalid_range("range", lower, upper, RangeKind::Inclusive));
    }
    if value.less_than(lower) {
        Ok(lower)
    } else if upper.less_than(value) {
        Ok(upper)
    } else {
        Ok(value)
    }
}

/// A clamped value lies in the range and is the value itself whenever the
/// value was already inside it.
pub proof fn lemma_clamp_in_range<T: Number>(value: T, lower: T, upper: T)
    requires
        value.valid_value(),
        lower.valid_value(),
        upper.valid_value(),
        lower.numeric_value() <= upper.numeric_value(),
    ensures
        clamp_outcome(value, lower, upper) matches Ok(c) && lower.numeric_value()
            <= c.numeric_value() <= upper.numeric_value(),
        lower.numeric_value() <= value.numeric_value() <= upper.numeric_value()
            ==> clamp_outcome(value, lower, upper) == Ok::<T, ValidationErrorView>(value),
{
}

/// A range check accepts exactly the values inside the range, and gives
/// the value back: for valid numbers and a valid range, the inclusive check
/// succeeds iff `lower <= value <= upper`, the half-open check iff
/// `lower <= value < upper`; so the lower bound itself is always accepted.
pub proof fn lemma_range_accepts_exactly_inside<T: Number>(
    name: Seq<char>,
    value: T,
    lower: T,
    upper: T,
)
    requires
        value.valid_value(),
        lower.valid_value(),
        upper.valid_value(),
    ensures
        lower.numeric_value() <= upper.numeric_value() ==> (range_outcome(
            name,
            value,
            lower,
            upper,
            RangeKind::Inclusive,
        ) is Ok <==> lower.numeric_value() <= value.numeric_value() <= upper.numeric_value()),
        lower.numeric_value() < upper.numeric_value() ==> (range_outcome(
            name,
            value,
            lower,
            upper,
            RangeKind::HalfOpen,
        ) is Ok <==> lower.numeric_value() <= value.numeric_value() < upper.numeric_value()),
        range_outcome(name, value, lower, upper, RangeKind::Inclusive) matches Ok(v) ==> v == value,
        range_outcome(name, value, lower, upper, RangeKind::HalfOpen) matches Ok(v) ==> v == value,
        lower.numeric_value() <= upper.numeric_value() ==> range_outcome(
            name,
            lower,
            lower,
            upper,
            RangeKind::Inclusive,
        ) == Ok::<T, ValidationErrorView>(lower),
        lower.numeric_value() < upper.numeric_value() ==> range_outcome(
            name,
            lower,
            lower,
            upper,
            RangeKind::HalfOpen,
        ) == Ok::<T, ValidationErrorView>(lower),
{
}

} // verus!

//! Validation, string and numeric helpers for caller-owned input.

pub mod error;
pub mod hex;
pub mod number;
pub mod string;

pub use error::{RangeKind, ValidationError, ValidationErrorView};
pub use number::{
    clamp, require_in_half_open_range, require_in_range, require_non_negative, require_positive,
    Number,
};
pub use hex::{is_hex_digit, is_prefixed_hex};
pub use string::{
    blank_to_default, empty_to_default, has_text, require_not_blank, require_not_empty,
    truncate_utf8_bytes,
};

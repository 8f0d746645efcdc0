//! Errors returned by collection helper constructors.
use vstd::prelude::*;
use crate::text_support::{decimal_chars, owned, push_decimal, push_str};

verus! {

/// Errors produced by collection helper constructors.
#[derive(Debug, Clone, PartialEq, Eq)]
#[non_exhaustive]
pub enum CollectionError {
    /// A size parameter was zero, but the helper requires a positive value.
    InvalidSize {
        /// Name of the invalid parameter.
        parameter: &'static str,
        /// Invalid value supplied by the caller.
        value: usize,
    },
}

impl CollectionError {
    /// Human-readable description of the failure.
    pub fn message(&self) -> (m: String)
        ensures
            m@ == match *self {
                CollectionError::InvalidSize { parameter, value } => parameter@
                    + " must be positive, got "@ + decimal_chars(value as nat),
            },
    {
        match self {
            CollectionError::InvalidSize { parameter, value } => {
                let mut m = owned(parameter);
                push_str(&mut m, " must be positive, got ");
                push_decimal(&mut m, *value as u128);
                m
            },
        }
    }
}

} // verus!

//! Verified backend primitives: validation helpers, strict codecs, collection
//! helpers, compression policy, serialization metadata contracts, correlation
//! identifiers and bounded task bookkeeping.

pub mod benchmark;
pub mod codec;
pub mod logging;
pub mod collections;
pub mod compression;
pub mod serialization;
pub mod tasks;
pub mod text_support;
pub mod validation;

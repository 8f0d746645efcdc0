//! The traits that serialization adapters implement.
use vstd::prelude::*;
use crate::serialization::error::SerializationError;
use crate::serialization::metadata::{PayloadMetadataPolicy, SerializedPayload};

verus! {

/// Turns values of `T` into serialized payloads.
pub trait Serializer<T> {
    /// Serializes `value` into bytes with the metadata that describes them.
    fn serialize(&self, value: &T) -> Result<SerializedPayload, SerializationError>;
}

/// Turns serialized payloads back into values of `T`.
pub trait Deserializer<T> {
    /// Deserializes a payload; implementations check its metadata against
    /// `expected_metadata` first.
    fn deserialize(&self, payload: &SerializedPayload) -> Result<T, SerializationError>;

    /// The metadata this deserializer accepts.
    fn expected_metadata(&self) -> PayloadMetadataPolicy;
}

/// An adapter that both serializes and deserializes `T`.
pub trait BinarySerializer<T>: Serializer<T> + Deserializer<T> {

}

impl<T, S: Serializer<T> + Deserializer<T>> BinarySerializer<T> for S {

}

} // verus!

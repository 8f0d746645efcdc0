//! Serialization metadata contracts: validated tokens, payload metadata and
//! envelopes, configuration, metadata policies, errors, and the traits that
//! serialization adapters implement.

pub mod config;
pub mod error;
pub mod format;
pub mod metadata;
pub mod traits;
pub mod trust;

pub use trust::SerializationTrustProfile;
pub use error::{
    AdapterFailureSource, SerializationError, SerializationErrorKind, SerializationErrorView,
    SerializationOperation,
};
pub use format::{
    AdapterId, ContentType, PayloadVersion, SerializationFormat, MAX_ADAPTER_ID_LEN,
    MAX_CONTENT_TYPE_LEN, MAX_FORMAT_ID_LEN,
};
pub use metadata::{
    PayloadMetadata, PayloadMetadataPolicy, PayloadMetadataPolicyView, PayloadMetadataView,
    SerializedPayload,
};
pub use config::{SerializationConfig, SerializationConfigView, DEFAULT_MAX_PAYLOAD_SIZE};
pub use traits::{BinarySerializer, Deserializer, Serializer};

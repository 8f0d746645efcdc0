//! Errors returned by serialization contracts and adapters.
use vstd::prelude::*;
use crate::serialization::format::{AdapterId, ContentType, PayloadVersion, SerializationFormat};
use crate::serialization::trust::{trust_profile_name, SerializationTrustProfile};
use crate::text_support::{int_text, owned, push_str, uint_string};

verus! {

/// Serialization operation direction for diagnostics.
#[derive(Debug, Clone, Copy, PartialEq, Eq, Hash, Structural)]
#[non_exhaustive]
pub enum SerializationOperation {
    /// Encoding a Rust value to bytes.
    Serialize,
    /// Decoding bytes to a Rust value.
    Deserialize,
}

/// `serialize` or `deserialize`.
pub open spec fn operation_text(op: SerializationOperation) -> Seq<char> {
    match op {
        SerializationOperation::Serialize => "serialize"@,
        SerializationOperation::Deserialize => "deserialize"@,
    }
}

impl SerializationOperation {
    /// `serialize` or `deserialize`.
    pub fn as_str(&self) -> (r: &'static str)
        ensures
            r@ == operation_text(*self),
    {
        match self {
            SerializationOperation::Serialize => "serialize",
            SerializationOperation::Deserialize => "deserialize",
        }
    }
}

/// Stable category for a serialization failure.
#[derive(Debug, Clone, Copy, PartialEq, Eq, Structural)]
#[non_exhaustive]
pub enum SerializationErrorKind {
    /// Invalid metadata token or metadata consistency problem.
    InvalidMetadata,
    /// Invalid serialization configuration.
    InvalidConfig,
    /// Payload format id did not match the expected format.
    FormatMismatch,
    /// Payload content type did not match the expected content type.
    ContentTypeMismatch,
    /// Payload version is not supported by this reader.
    UnsupportedVersion,
    /// Payload trust profile did not match the expected profile.
    TrustProfileMismatch,
    /// Payload adapter id did not match a strict policy.
    AdapterIdMismatch,
    /// Payload size exceeded a configured limit.
    PayloadSizeLimitExceeded,
    /// Payload bytes are malformed for the selected adapter.
    MalformedInput,
    /// Adapter failed while serializing or deserializing.
    AdapterFailure,
}

/// The source of an adapter failure, kept as the text that describes it.
///
/// Use `safe` only for a source known not to include raw payload bytes or
/// snippets; `redacted` keeps no trace of the source.
pub struct AdapterFailureSource {
    message: String,
}

/// What a redacted source reads.
pub open spec fn redacted_source_text() -> Seq<char> {
    "adapter source redacted"@
}

impl View for AdapterFailureSource {
    type V = Seq<char>;

    closed spec fn view(&self) -> Seq<char> {
        self.message@
    }
}

impl AdapterFailureSource {
    /// Stores a safe, payload-free adapter source by the text that describes it.
    pub fn safe(message: String) -> (r: Self)
        ensures
            r@ == message@,
    {
        AdapterFailureSource { message }
    }

    /// Replaces a potentially payload-bearing source with a redacted source.
    pub fn redacted<E>(source: E) -> (r: Self)
        ensures
            r@ == redacted_source_text(),
    {
        AdapterFailureSource { message: owned("adapter source redacted") }
    }

    /// The text that describes the source.
    pub fn message(&self) -> (r: &str)
        ensures
            r@ == self@,
    {
        self.message.as_str()
    }
}

/// Errors returned by serialization contracts and adapters.
#[derive(Debug)]
#[non_exhaustive]
pub enum SerializationError {
    /// Invalid metadata.
    InvalidMetadata {
        /// Metadata field name.
        field: &'static str,
        /// Payload-free reason.
        reason: &'static str,
    },
    /// Invalid config.
    InvalidConfig {
        /// Config field name.
        field: &'static str,
        /// Payload-free reason.
        reason: &'static str,
    },
    /// Format mismatch.
    FormatMismatch {
        /// Operation direction.
        operation: SerializationOperation,
        /// Expected format.
        expected: SerializationFormat,
        /// Observed format.
        observed: SerializationFormat,
    },
    /// Content type mismatch.
    ContentTypeMismatch {
        /// Operation direction.
        operation: SerializationOperation,
        /// Expected content type.
        expected: ContentType,
        /// Observed content type.
        observed: ContentType,
    },
    /// Unsupported payload version.
    UnsupportedVersion {
        /// Operation direction.
        operation: SerializationOperation,
        /// Inclusive maximum supported version.
        max_supported: PayloadVersion,
        /// Observed version.
        observed: PayloadVersion,
    },
    /// Trust profile mismatch.
    TrustProfileMismatch {
        /// Operation direction.
        operation: SerializationOperation,
        /// Expected trust profile.
        expected: SerializationTrustProfile,
        /// Observed trust profile.
        observed: SerializationTrustProfile,
    },
    /// Adapter id mismatch.
    AdapterIdMismatch {
        /// Operation direction.
        operation: SerializationOperation,
        /// Expected adapter id.
        expected: AdapterId,
        /// Observed adapter id.
        observed: AdapterId,
    },
    /// Payload size exceeded a configured limit.
    PayloadSizeLimitExceeded {
        /// Operation direction.
        operation: SerializationOperation,
        /// Configured limit.
        limit: usize,
        /// Observed size.
        actual: usize,
    },
    /// Malformed payload input.
    MalformedInput {
        /// Operation direction.
        operation: SerializationOperation,
        /// Adapter id.
        adapter_id: AdapterId,
        /// Payload-free reason.
        reason: &'static str,
    },
    /// Adapter failure with a safe or redacted source.
    AdapterFailure {
        /// Adapter id.
        adapter_id: AdapterId,
        /// Operation direction.
        operation: SerializationOperation,
        /// Safe or redacted source.
        source: AdapterFailureSource,
    },
}

/// A serialization error with its tokens and texts taken by their views.
#[allow(inconsistent_fields)]
pub enum SerializationErrorView {
    InvalidMetadata { field: Seq<char>, reason: Seq<char> },
    InvalidConfig { field: Seq<char>, reason: Seq<char> },
    FormatMismatch { operation: SerializationOperation, expected: Seq<char>, observed: Seq<char> },
    ContentTypeMismatch {
        operation: SerializationOperation,
        expected: Seq<char>,
        observed: Seq<char>,
    },
    UnsupportedVersion { operation: SerializationOperation, max_supported: u16, observed: u16 },
    TrustProfileMismatch {
        operation: SerializationOperation,
        expected: SerializationTrustProfile,
        observed: SerializationTrustProfile,
    },
    AdapterIdMismatch {
        operation: SerializationOperation,
        expected: Seq<char>,
        observed: Seq<char>,
    },
    PayloadSizeLimitExceeded { operation: SerializationOperation, limit: usize, actual: usize },
    MalformedInput { operation: SerializationOperation, adapter_id: Seq<char>, reason: Seq<char> },
    AdapterFailure { adapter_id: Seq<char>, operation: SerializationOperation, source: Seq<char> },
}

impl View for SerializationError {
    type V = SerializationErrorView;

    open spec fn view(&self) -> SerializationErrorView {
        match self {
            SerializationError::InvalidMetadata { field, reason } =>
                SerializationErrorView::InvalidMetadata { field: field@, reason: reason@ },
            SerializationError::InvalidConfig { field, reason } =>
                SerializationErrorView::InvalidConfig { field: field@, reason: reason@ },
            SerializationError::FormatMismatch { operation, expected, observed } =>
                SerializationErrorView::FormatMismatch {
                operation: *operation,
                expected: expected@,
                observed: observed@,
            },
            SerializationError::ContentTypeMismatch { operation, expected, observed } =>
                SerializationErrorView::ContentTypeMismatch {
                operation: *operation,
                expected: expected@,
                observed: observed@,
            },
            SerializationError::UnsupportedVersion { operation, max_supported, observed } =>
                SerializationErrorView::UnsupportedVersion {
                operation: *operation,
                max_supported: max_supported@,
                observed: observed@,
            },
            SerializationError::TrustProfileMismatch { operation, expected, observed } =>
                SerializationErrorView::TrustProfileMismatch {
                operation: *operation,
                expected: *expected,
                observed: *observed,
            },
            SerializationError::AdapterIdMismatch { operation, expected, observed } =>
                SerializationErrorView::AdapterIdMismatch {
                operation: *operation,
                expected: expected@,
                observed: observed@,
            },
            SerializationError::PayloadSizeLimitExceeded { operation, limit, actual } =>
                SerializationErrorView::PayloadSizeLimitExceeded {
                operation: *operation,
                limit: *limit,
                actual: *actual,
            },
            SerializationError::MalformedInput { operation, adapter_id, reason } =>
                SerializationErrorView::MalformedInput {
                operation: *operation,
                adapter_id: adapter_id@,
                reason: reason@,
            },
            SerializationError::AdapterFailure { adapter_id, operation, source } =>
                SerializationErrorView::AdapterFailure {
                adapter_id: adapter_id@,
                operation: *operation,
                source: source@,
            },
        }
    }
}

/// The category of an error.
pub open spec fn error_kind(e: SerializationErrorView) -> SerializationErrorKind {
    match e {
        SerializationErrorView::InvalidMetadata { .. } => SerializationErrorKind::InvalidMetadata,
        SerializationErrorView::InvalidConfig { .. } => SerializationErrorKind::InvalidConfig,
        SerializationErrorView::FormatMismatch { .. } => SerializationErrorKind::FormatMismatch,
        SerializationErrorView::ContentTypeMismatch { .. } => SerializationErrorKind::ContentTypeMismatch,
        SerializationErrorView::UnsupportedVersion { .. } => SerializationErrorKind::UnsupportedVersion,
        SerializationErrorView::TrustProfileMismatch { .. } => SerializationErrorKind::TrustProfileMismatch,
        SerializationErrorView::AdapterIdMismatch { .. } => SerializationErrorKind::AdapterIdMismatch,
        SerializationErrorView::PayloadSizeLimitExceeded { .. } =>
            SerializationErrorKind::PayloadSizeLimitExceeded,
        SerializationErrorView::MalformedInput { .. } => SerializationErrorKind::MalformedInput,
        SerializationErrorView::AdapterFailure { .. } => SerializationErrorKind::AdapterFailure,
    }
}

/// The operation an error belongs to, when it is operation-specific.
pub open spec fn error_operation(e: SerializationErrorView) -> Option<SerializationOperation> {
    match e {
        SerializationErrorView::InvalidMetadata { .. } => None,
        SerializationErrorView::InvalidConfig { .. } => None,
        SerializationErrorView::FormatMismatch { operation, .. } => Some(operation),
        SerializationErrorView::ContentTypeMismatch { operation, .. } => Some(operation),
        SerializationErrorView::UnsupportedVersion { operation, .. } => Some(operation),
        SerializationErrorView::TrustProfileMismatch { operation, .. } => Some(operation),
        SerializationErrorView::AdapterIdMismatch { operation, .. } => Some(operation),
        SerializationErrorView::PayloadSizeLimitExceeded { operation, .. } => Some(operation),
        SerializationErrorView::MalformedInput { operation, .. } => Some(operation),
        SerializationErrorView::AdapterFailure { operation, .. } => Some(operation),
    }
}

/// The message that describes an error. It names the operation, the
/// mismatching tokens, versions and sizes, and never any payload bytes.
pub open spec fn error_message(e: SerializationErrorView) -> Seq<char> {
    match e {
        SerializationErrorView::InvalidMetadata { field, reason } => "invalid "@ + field + ": "@
            + reason,
        SerializationErrorView::InvalidConfig { field, reason } => "invalid serialization config "@
            + field + ": "@ + reason,
        SerializationErrorView::FormatMismatch { operation, expected, observed } => "serialization "@
            + operation_text(operation) + " format mismatch: expected "@ + expected
            + ", observed "@ + observed,
        SerializationErrorView::ContentTypeMismatch { operation, expected, observed } =>
            "serialization "@ + operation_text(operation) + " content type mismatch: expected "@
            + expected + ", observed "@ + observed,
        SerializationErrorView::UnsupportedVersion { operation, max_supported, observed } =>
            "unsupported serialization "@ + operation_text(operation)
            + " payload version: observed "@ + int_text(observed as int) + ", max supported "@
            + int_text(max_supported as int),
        SerializationErrorView::TrustProfileMismatch { operation, expected, observed } =>
            "serialization "@ + operation_text(operation) + " trust profile mismatch: expected "@
            + trust_profile_name(expected) + ", observed "@ + trust_profile_name(observed),
        SerializationErrorView::AdapterIdMismatch { operation, expected, observed } =>
            "serialization "@ + operation_text(operation) + " adapter id mismatch: expected "@
            + expected + ", observed "@ + observed,
        SerializationErrorView::PayloadSizeLimitExceeded { operation, limit, actual } =>
            "serialization "@ + operation_text(operation) + " payload size "@ + int_text(
                actual as int,
            ) + " exceeded limit "@ + int_text(limit as int),
        SerializationErrorView::MalformedInput { operation, adapter_id, reason } =>
            "malformed serialization "@ + operation_text(operation) + " input from "@ + adapter_id
            + ": "@ + reason,
        SerializationErrorView::AdapterFailure { adapter_id, operation, .. } => "serialization "@
            + operation_text(operation) + " failed in adapter "@ + adapter_id,
    }
}

impl SerializationError {
    /// Returns the stable error category.
    pub fn kind(&self) -> (k: SerializationErrorKind)
        ensures
            k == error_kind(self@),
    {
        match self {
            SerializationError::InvalidMetadata { .. } => SerializationErrorKind::InvalidMetadata,
            SerializationError::InvalidConfig { .. } => SerializationErrorKind::InvalidConfig,
            SerializationError::FormatMismatch { .. } => SerializationErrorKind::FormatMismatch,
            SerializationError::ContentTypeMismatch { .. } => SerializationErrorKind::ContentTypeMismatch,
            SerializationError::UnsupportedVersion { .. } => SerializationErrorKind::UnsupportedVersion,
            SerializationError::TrustProfileMismatch { .. } =>
                SerializationErrorKind::TrustProfileMismatch,
            SerializationError::AdapterIdMismatch { .. } => SerializationErrorKind::AdapterIdMismatch,
            SerializationError::PayloadSizeLimitExceeded { .. } =>
                SerializationErrorKind::PayloadSizeLimitExceeded,
            SerializationError::MalformedInput { .. } => SerializationErrorKind::MalformedInput,
            SerializationError::AdapterFailure { .. } => SerializationErrorKind::AdapterFailure,
        }
    }

    /// Returns the operation direction when the error is operation-specific.
    pub fn operation(&self) -> (r: Option<SerializationOperation>)
        ensures
            r == error_operation(self@),
    {
        match self {
            SerializationError::InvalidMetadata { .. } => None,
            SerializationError::InvalidConfig { .. } => None,
            SerializationError::FormatMismatch { operation, .. } => Some(*operation),
            SerializationError::ContentTypeMismatch { operation, .. } => Some(*operation),
            SerializationError::UnsupportedVersion { operation, .. } => Some(*operation),
            SerializationError::TrustProfileMismatch { operation, .. } => Some(*operation),
            SerializationError::AdapterIdMismatch { operation, .. } => Some(*operation),
            SerializationError::PayloadSizeLimitExceeded { operation, .. } => Some(*operation),
            SerializationError::MalformedInput { operation, .. } => Some(*operation),
            SerializationError::AdapterFailure { operation, .. } => Some(*operation),
        }
    }

    /// The text of the source of an adapter failure, if this is one.
    pub fn source_message(&self) -> (r: Option<&str>)
        ensures
            match self@ {
                SerializationErrorView::AdapterFailure { source, .. } => r matches Some(s)
                    && s@ == source,
                _ => r is None,
            },
    {
        match self {
            SerializationError::AdapterFailure { source, .. } => Some(source.message()),
            _ => None,
        }
    }

    /// Human-readable description of the failure, free of payload bytes.
    pub fn message(&self) -> (m: String)
        ensures
            m@ == error_message(self@),
    {
        match self {
            SerializationError::InvalidMetadata { field, reason } => {
                let mut m = owned("invalid ");
                push_str(&mut m, field);
                push_str(&mut m, ": ");
                push_str(&mut m, reason);
                m
            },
            SerializationError::InvalidConfig { field, reason } => {
                let mut m = owned("invalid serialization config ");
                push_str(&mut m, field);
                push_str(&mut m, ": ");
                push_str(&mut m, reason);
                m
            },
            SerializationError::FormatMismatch { operation, expected, observed } => {
                let mut m = owned("serialization ");
                push_str(&mut m, operation.as_str());
                push_str(&mut m, " format mismatch: expected ");
                push_str(&mut m, expected.as_str());
                push_str(&mut m, ", observed ");
                push_str(&mut m, observed.as_str());
                m
            },
            SerializationError::ContentTypeMismatch { operation, expected, observed } => {
                let mut m = owned("serialization ");
                push_str(&mut m, operation.as_str());
                push_str(&mut m, " content type mismatch: expected ");
                push_str(&mut m, expected.as_str());
                push_str(&mut m, ", observed ");
                push_str(&mut m, observed.as_str());
                m
            },
            SerializationError::UnsupportedVersion { operation, max_supported, observed } => {
                let mut m = owned("unsupported serialization ");
                push_str(&mut m, operation.as_str());
                push_str(&mut m, " payload version: observed ");
                let o = uint_string(observed.get() as u128);
                push_str(&mut m, o.as_str());
                push_str(&mut m, ", max supported ");
                let x = uint_string(max_supported.get() as u128);
                push_str(&mut m, x.as_str());
                m
            },
            SerializationError::TrustProfileMismatch { operation, expected, observed } => {
                let mut m = owned("serialization ");
                push_str(&mut m, operation.as_str());
                push_str(&mut m, " trust profile mismatch: expected ");
                push_str(&mut m, expected.name());
                push_str(&mut m, ", observed ");
                push_str(&mut m, observed.name());
                m
            },
            SerializationError::AdapterIdMismatch { operation, expected, observed } => {
                let mut m = owned("serialization ");
                push_str(&mut m, operation.as_str());
                push_str(&mut m, " adapter id mismatch: expected ");
                push_str(&mut m, expected.as_str());
                push_str(&mut m, ", observed ");
                push_str(&mut m, observed.as_str());
                m
            },
            SerializationError::PayloadSizeLimitExceeded { operation, limit, actual } => {
                let mut m = owned("serialization ");
                push_str(&mut m, operation.as_str());
                push_str(&mut m, " payload size ");
                let a = uint_string(*actual as u128);
                push_str(&mut m, a.as_str());
                push_str(&mut m, " exceeded limit ");
                let l = uint_string(*limit as u128);
                push_str(&mut m, l.as_str());
                m
            },
            SerializationError::MalformedInput { operation, adapter_id, reason } => {
                let mut m = owned("malformed serialization ");
                push_str(&mut m, operation.as_str());
                push_str(&mut m, " input from ");
                push_str(&mut m, adapter_id.as_str());
                push_str(&mut m, ": ");
                push_str(&mut m, reason);
                m
            },
            SerializationError::AdapterFailure { adapter_id, operation, .. } => {
                let mut m = owned("serialization ");
                push_str(&mut m, operation.as_str());
                push_str(&mut m, " failed in adapter ");
                push_str(&mut m, adapter_id.as_str());
                m
            },
        }
    }

    /// Creates an invalid metadata error.
    pub fn invalid_metadata(field: &'static str, reason: &'static str) -> (e: Self)
        ensures
            e == (SerializationError::InvalidMetadata { field, reason }),
    {
        SerializationError::InvalidMetadata { field, reason }
    }

    /// Creates an invalid config error.
    pub fn invalid_config(field: &'static str, reason: &'static str) -> (e: Self)
        ensures
            e == (SerializationError::InvalidConfig { field, reason }),
    {
        SerializationError::InvalidConfig { field, reason }
    }

    /// Creates a format mismatch error.
    pub fn format_mismatch(
        operation: SerializationOperation,
        expected: SerializationFormat,
        observed: SerializationFormat,
    ) -> (e: Self)
        ensures
            e == (SerializationError::FormatMismatch { operation, expected, observed }),
    {
        SerializationError::FormatMismatch { operation, expected, observed }
    }

    /// Creates a content type mismatch error.
    pub fn content_type_mismatch(
        operation: SerializationOperation,
        expected: ContentType,
        observed: ContentType,
    ) -> (e: Self)
        ensures
            e == (SerializationError::ContentTypeMismatch { operation, expected, observed }),
    {
        SerializationError::ContentTypeMismatch { operation, expected, observed }
    }

    /// Creates an unsupported version error.
    pub fn unsupported_version(
        operation: SerializationOperation,
        max_supported: PayloadVersion,
        observed: PayloadVersion,
    ) -> (e: Self)
        ensures
            e == (SerializationError::UnsupportedVersion { operation, max_supported, observed }),
    {
        SerializationError::UnsupportedVersion { operation, max_supported, observed }
    }

    /// Creates a trust profile mismatch error.
    pub fn trust_profile_mismatch(
        operation: SerializationOperation,
        expected: SerializationTrustProfile,
        observed: SerializationTrustProfile,
    ) -> (e: Self)
        ensures
            e == (SerializationError::TrustProfileMismatch { operation, expected, observed }),
    {
        SerializationError::TrustProfileMismatch { operation, expected, observed }
    }

    /// Creates an adapter id mismatch error.
    pub fn adapter_id_mismatch(operation: SerializationOperation, expected: AdapterId, observed: AdapterId) -> (e:
        Self)
        ensures
            e == (SerializationError::AdapterIdMismatch { operation, expected, observed }),
    {
        SerializationError::AdapterIdMismatch { operation, expected, observed }
    }

    /// Creates a payload size limit error.
    pub fn payload_size_limit_exceeded(operation: SerializationOperation, limit: usize, actual: usize) -> (e:
        Self)
        ensures
            e == (SerializationError::PayloadSizeLimitExceeded { operation, limit, actual }),
    {
        SerializationError::PayloadSizeLimitExceeded { operation, limit, actual }
    }

    /// Creates an adapter failure with a safe, payload-free source, kept by
    /// the text that describes it.
    pub fn safe_adapter_failure(adapter_id: AdapterId, operation: SerializationOperation, source: String) -> (e:
        Self)
        ensures
            e@ == (SerializationErrorView::AdapterFailure {
                adapter_id: adapter_id@,
                operation,
                source: source@,
            }),
    {
        SerializationError::AdapterFailure {
            adapter_id,
            operation,
            source: AdapterFailureSource::safe(source),
        }
    }

    /// Creates an adapter failure whose source is redacted.
    pub fn redacted_adapter_failure<E>(adapter_id: AdapterId, operation: SerializationOperation, source: E) -> (e:
        Self)
        ensures
            e@ == (SerializationErrorView::AdapterFailure {
                adapter_id: adapter_id@,
                operation,
                source: redacted_source_text(),
            }),
    {
        SerializationError::AdapterFailure {
            adapter_id,
            operation,
            source: AdapterFailureSource::redacted(source),
        }
    }

    /// Creates a malformed input error.
    pub fn malformed_input(operation: SerializationOperation, adapter_id: AdapterId, reason: &'static str) -> (e:
        Self)
        ensures
            e == (SerializationError::MalformedInput { operation, adapter_id, reason }),
    {
        SerializationError::MalformedInput { operation, adapter_id, reason }
    }
}

impl std::fmt::Debug for AdapterFailureSource {
    /// Shows only the type's name, so that no adapter text reaches debug
    /// output.
    #[verifier::external_body]
    fn fmt(&self, f: &mut std::fmt::Formatter<'_>) -> std::fmt::Result {
        write!(f, "AdapterFailureSource")
    }
}

} // verus!

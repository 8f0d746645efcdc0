//! Payload metadata, serialized payload envelopes and metadata policies.
use vstd::prelude::*;
use crate::serialization::error::{SerializationError, SerializationErrorView, SerializationOperation};
use crate::serialization::format::{AdapterId, ContentType, PayloadVersion, SerializationFormat};
use crate::serialization::trust::SerializationTrustProfile;

verus! {

/// Metadata that travels with a serialized payload.
#[derive(Debug, Clone, PartialEq, Eq)]
pub struct PayloadMetadata {
    /// Serialization format id.
    pub format: SerializationFormat,
    /// Media type of the payload bytes.
    pub content_type: ContentType,
    /// Payload version.
    pub version: PayloadVersion,
    /// Trust profile the payload was written under.
    pub trust_profile: SerializationTrustProfile,
    /// Adapter that wrote the payload.
    pub adapter_id: AdapterId,
    /// Payload size in bytes.
    pub payload_size: usize,
}

/// Payload metadata with its tokens taken by their views.
pub struct PayloadMetadataView {
    pub format: Seq<char>,
    pub content_type: Seq<char>,
    pub version: u16,
    pub trust_profile: SerializationTrustProfile,
    pub adapter_id: Seq<char>,
    pub payload_size: usize,
}

impl View for PayloadMetadata {
    type V = PayloadMetadataView;

    open spec fn view(&self) -> PayloadMetadataView {
        PayloadMetadataView {
            format: self.format@,
            content_type: self.content_type@,
            version: self.version@,
            trust_profile: self.trust_profile,
            adapter_id: self.adapter_id@,
            payload_size: self.payload_size,
        }
    }
}

impl PayloadMetadata {
    /// Creates payload metadata from its parts.
    pub fn new(
        format: SerializationFormat,
        content_type: ContentType,
        version: PayloadVersion,
        trust_profile: SerializationTrustProfile,
        adapter_id: AdapterId,
        payload_size: usize,
    ) -> (r: Self)
        ensures
            r == (PayloadMetadata {
                format,
                content_type,
                version,
                trust_profile,
                adapter_id,
                payload_size,
            }),
    {
        PayloadMetadata { format, content_type, version, trust_profile, adapter_id, payload_size }
    }

    /// The serialization format id.
    pub fn format(&self) -> (r: &SerializationFormat)
        ensures
            r == &self.format,
    {
        &self.format
    }

    /// The media type of the payload bytes.
    pub fn content_type(&self) -> (r: &ContentType)
        ensures
            r == &self.content_type,
    {
        &self.content_type
    }

    /// The payload version.
    pub fn version(&self) -> (r: PayloadVersion)
        ensures
            r@ == self.version@,
    {
        self.version.clone()
    }

    /// The trust profile the payload was written under.
    pub fn trust_profile(&self) -> (r: SerializationTrustProfile)
        ensures
            r == self.trust_profile,
    {
        self.trust_profile
    }

    /// The adapter that wrote the payload.
    pub fn adapter_id(&self) -> (r: &AdapterId)
        ensures
            r == &self.adapter_id,
    {
        &self.adapter_id
    }

    /// The payload size in bytes.
    pub fn payload_size(&self) -> (r: usize)
        ensures
            r == self.payload_size,
    {
        self.payload_size
    }
}

/// Serialized bytes together with the metadata that describes them; the
/// metadata's payload size is always the number of bytes.
#[derive(PartialEq, Eq)]
pub struct SerializedPayload {
    bytes: Vec<u8>,
    metadata: PayloadMetadata,
}

impl View for SerializedPayload {
    type V = (Seq<u8>, PayloadMetadataView);

    closed spec fn view(&self) -> (Seq<u8>, PayloadMetadataView) {
        (self.bytes@, self.metadata@)
    }
}

impl SerializedPayload {
    #[verifier::type_invariant]
    spec fn well_formed(self) -> bool {
        self.bytes@.len() == self.metadata.payload_size
    }

    /// Wraps serialized bytes with their metadata.
    ///
    /// Fails with `InvalidMetadata` for the field `payload_size` exactly when
    /// the metadata's payload size is not the number of bytes.
    pub fn new(bytes: Vec<u8>, metadata: PayloadMetadata) -> (r: Result<Self, SerializationError>)
        ensures
            bytes@.len() != metadata.payload_size ==> (r matches Err(e) && e@ == (
            SerializationErrorView::InvalidMetadata {
                field: "payload_size"@,
                reason: "metadata payload size must match byte length"@,
            })),
            bytes@.len() == metadata.payload_size ==> (r matches Ok(p) && p@ == (
            bytes@,
            metadata@,
            )),
    {
        if bytes.len() != metadata.payload_size {
            return Err(
                SerializationError::InvalidMetadata {
                    field: "payload_size",
                    reason: "metadata payload size must match byte length",
                },
            );
        }
        Ok(SerializedPayload { bytes, metadata })
    }

    /// The serialized bytes.
    pub fn bytes(&self) -> (r: &[u8])
        ensures
            r@ == self@.0,
    {
        self.bytes.as_slice()
    }

    /// Consumes the payload and returns its bytes.
    pub fn into_bytes(self) -> (r: Vec<u8>)
        ensures
            r@ == self@.0,
    {
        self.bytes
    }

    /// The metadata; its payload size is the number of bytes.
    pub fn metadata(&self) -> (r: &PayloadMetadata)
        ensures
            r@ == self@.1,
            r.payload_size == self@.0.len(),
    {
        proof {
            use_type_invariant(self);
        }
        &self.metadata
    }
}

/// What a reader accepts: the metadata a payload must carry.
#[derive(Debug, PartialEq, Eq)]
pub struct PayloadMetadataPolicy {
    format: SerializationFormat,
    content_type: ContentType,
    max_supported_version: PayloadVersion,
    trust_profile: SerializationTrustProfile,
    adapter_id: Option<AdapterId>,
    max_payload_size: usize,
}

/// A metadata policy with its tokens taken by their views. A missing
/// adapter id accepts every adapter.
pub struct PayloadMetadataPolicyView {
    pub format: Seq<char>,
    pub content_type: Seq<char>,
    pub max_supported_version: u16,
    pub trust_profile: SerializationTrustProfile,
    pub adapter_id: Option<Seq<char>>,
    pub max_payload_size: usize,
}

/// The view of an optional adapter id.
pub open spec fn optional_adapter_view(a: Option<AdapterId>) -> Option<Seq<char>> {
    match a {
        Some(id) => Some(id@),
        None => None,
    }
}

impl View for PayloadMetadataPolicy {
    type V = PayloadMetadataPolicyView;

    closed spec fn view(&self) -> PayloadMetadataPolicyView {
        PayloadMetadataPolicyView {
            format: self.format@,
            content_type: self.content_type@,
            max_supported_version: self.max_supported_version@,
            trust_profile: self.trust_profile,
            adapter_id: optional_adapter_view(self.adapter_id),
            max_payload_size: self.max_payload_size,
        }
    }
}

/// What a policy makes of a payload's metadata: the first mismatch among
/// format, content type, version (newer than supported), trust profile,
/// adapter id (when the policy names one) and size (over the limit), in that
/// order, or acceptance.
pub open spec fn policy_outcome(p: PayloadMetadataPolicyView, m: PayloadMetadataView) -> Result<
    (),
    SerializationErrorView,
> {
    let op = SerializationOperation::Deserialize;
    if m.format != p.format {
        Err(
            SerializationErrorView::FormatMismatch {
                operation: op,
                expected: p.format,
                observed: m.format,
            },
        )
    } else if m.content_type != p.content_type {
        Err(
            SerializationErrorView::ContentTypeMismatch {
                operation: op,
                expected: p.content_type,
                observed: m.content_type,
            },
        )
    } else if m.version > p.max_supported_version {
        Err(
            SerializationErrorView::UnsupportedVersion {
                operation: op,
                max_supported: p.max_supported_version,
                observed: m.version,
            },
        )
    } else if m.trust_profile != p.trust_profile {
        Err(
            SerializationErrorView::TrustProfileMismatch {
                operation: op,
                expected: p.trust_profile,
                observed: m.trust_profile,
            },
        )
    } else if p.adapter_id is Some && m.adapter_id != p.adapter_id->0 {
        Err(
            SerializationErrorView::AdapterIdMismatch {
                operation: op,
                expected: p.adapter_id->0,
                observed: m.adapter_id,
            },
        )
    } else if m.payload_size > p.max_payload_size {
        Err(
            SerializationErrorView::PayloadSizeLimitExceeded {
                operation: op,
                limit: p.max_payload_size,
                actual: m.payload_size,
            },
        )
    } else {
        Ok(())
    }
}

/// The view of a validation outcome.
pub open spec fn unit_outcome_view(r: Result<(), SerializationError>) -> Result<(), SerializationErrorView> {
    match r {
        Ok(()) => Ok(()),
        Err(e) => Err(e@),
    }
}

impl PayloadMetadataPolicy {
    /// A policy from its parts.
    ///
    /// Fails with `InvalidConfig` for the field `max_payload_size` exactly
    /// when `max_payload_size` is zero.
    pub fn from_parts(
        format: SerializationFormat,
        content_type: ContentType,
        max_supported_version: PayloadVersion,
        trust_profile: SerializationTrustProfile,
        adapter_id: Option<AdapterId>,
        max_payload_size: usize,
    ) -> (r: Result<Self, SerializationError>)
        ensures
            max_payload_size == 0 ==> (r matches Err(e) && e@ == (SerializationErrorView::InvalidConfig {
                field: "max_payload_size"@,
                reason: "max payload size must be positive"@,
            })),
            max_payload_size > 0 ==> (r matches Ok(p) && p@ == (PayloadMetadataPolicyView {
                format: format@,
                content_type: content_type@,
                max_supported_version: max_supported_version@,
                trust_profile,
                adapter_id: optional_adapter_view(adapter_id),
                max_payload_size,
            })),
    {
        if max_payload_size == 0 {
            return Err(
                SerializationError::InvalidConfig {
                    field: "max_payload_size",
                    reason: "max payload size must be positive",
                },
            );
        }
        Ok(
            Self::new_unchecked(
                format,
                content_type,
                max_supported_version,
                trust_profile,
                adapter_id,
                max_payload_size,
            ),
        )
    }

    pub(crate) fn new_unchecked(
        format: SerializationFormat,
        content_type: ContentType,
        max_supported_version: PayloadVersion,
        trust_profile: SerializationTrustProfile,
        adapter_id: Option<AdapterId>,
        max_payload_size: usize,
    ) -> (r: Self)
        ensures
            r@ == (PayloadMetadataPolicyView {
                format: format@,
                content_type: content_type@,
                max_supported_version: max_supported_version@,
                trust_profile,
                adapter_id: optional_adapter_view(adapter_id),
                max_payload_size,
            }),
    {
        PayloadMetadataPolicy {
            format,
            content_type,
            max_supported_version,
            trust_profile,
            adapter_id,
            max_payload_size,
        }
    }

    /// Checks a payload's metadata against the policy.
    ///
    /// Reports the first mismatch among format, content type, version,
    /// trust profile, adapter id and size, in that order, as a deserialize
    /// error; the error carries the expected and observed metadata, never
    /// payload bytes.
    pub fn validate(&self, metadata: &PayloadMetadata) -> (r: Result<(), SerializationError>)
        ensures
            unit_outcome_view(r) == policy_outcome(self@, metadata@),
    {
        let op = SerializationOperation::Deserialize;
        if !metadata.format.same_as(&self.format) {
            return Err(
                SerializationError::format_mismatch(op, self.format.clone(), metadata.format.clone()),
            );
        }
        if !metadata.content_type.same_as(&self.content_type) {
            return Err(
                SerializationError::content_type_mismatch(
                    op,
                    self.content_type.clone(),
                    metadata.content_type.clone(),
                ),
            );
        }
        if metadata.version.get() > self.max_supported_version.get() {
            return Err(
                SerializationError::unsupported_version(
                    op,
                    self.max_supported_version.clone(),
                    metadata.version.clone(),
                ),
            );
        }
        if metadata.trust_profile != self.trust_profile {
            return Err(
                SerializationError::trust_profile_mismatch(
                    op,
                    self.trust_profile,
                    metadata.trust_profile,
                ),
            );
        }
        match &self.adapter_id {
            Some(expected) => {
                if !metadata.adapter_id.same_as(expected) {
                    return Err(
                        SerializationError::adapter_id_mismatch(
                            op,
                            expected.clone(),
                            metadata.adapter_id.clone(),
                        ),
                    );
                }
            },
            None => {},
        }
        if metadata.payload_size > self.max_payload_size {
            return Err(
                SerializationError::payload_size_limit_exceeded(
                    op,
                    self.max_payload_size,
                    metadata.payload_size,
                ),
            );
        }
        Ok(())
    }
}

impl std::fmt::Debug for SerializedPayload {
    /// Shows the metadata and the number of bytes, never the bytes.
    #[verifier::external_body]
    fn fmt(&self, f: &mut std::fmt::Formatter<'_>) -> std::fmt::Result {
        write!(f, "SerializedPayload {{ metadata: {:?}, bytes_len: {} }}", self.metadata, self.bytes.len())
    }
}

/// A policy accepts exactly the metadata that matches it: the same format,
/// content type and trust profile, the policy's adapter id when it names
/// one, a payload size within its limit, and any version at or below the
/// newest it supports. Metadata that matches in every other field but
/// carries a newer version is refused as unsupported.
pub proof fn lemma_policy_accepts_matching_metadata(p: PayloadMetadataPolicyView, m: PayloadMetadataView)
    ensures
        policy_outcome(p, m) is Ok <==> {
            &&& m.format == p.format
            &&& m.content_type == p.content_type
            &&& m.version <= p.max_supported_version
            &&& m.trust_profile == p.trust_profile
            &&& (p.adapter_id matches Some(a) ==> m.adapter_id == a)
            &&& m.payload_size <= p.max_payload_size
        },
        m.format == p.format && m.content_type == p.content_type && m.version
            > p.max_supported_version ==> policy_outcome(p, m) == Err::<(), SerializationErrorView>(
            SerializationErrorView::UnsupportedVersion {
                operation: SerializationOperation::Deserialize,
                max_supported: p.max_supported_version,
                observed: m.version,
            },
        ),
{
}

/// Older payloads stay readable: metadata that a policy accepts is still
/// accepted with any lower version.
pub proof fn lemma_policy_accepts_older_versions(
    p: PayloadMetadataPolicyView,
    m: PayloadMetadataView,
    version: u16,
)
    requires
        policy_outcome(p, m) is Ok,
        version <= m.version,
    ensures
        policy_outcome(p, PayloadMetadataView { version, ..m }) is Ok,
{
}

} // verus!

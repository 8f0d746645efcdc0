//! Serialization configuration with safe defaults.
use vstd::prelude::*;
use crate::serialization::error::{SerializationError, SerializationErrorView, SerializationOperation};
use crate::serialization::format::{AdapterId, ContentType, PayloadVersion, SerializationFormat};
use crate::serialization::metadata::{
    optional_adapter_view, policy_outcome, PayloadMetadata, PayloadMetadataPolicy,
    PayloadMetadataPolicyView, PayloadMetadataView,
};
use crate::serialization::trust::SerializationTrustProfile;

verus! {

/// Default maximum payload size: 16 MiB.
pub const DEFAULT_MAX_PAYLOAD_SIZE: usize = 16 * 1024 * 1024;

/// Serialization configuration: what a writer stamps on its payloads and
/// what its readers accept. The payload size limit is always positive.
#[derive(Debug, PartialEq, Eq)]
pub struct SerializationConfig {
    format: SerializationFormat,
    content_type: ContentType,
    version: PayloadVersion,
    trust_profile: SerializationTrustProfile,
    adapter_id: AdapterId,
    max_payload_size: usize,
}

/// A configuration with its tokens taken by their views.
pub struct SerializationConfigView {
    pub format: Seq<char>,
    pub content_type: Seq<char>,
    pub version: u16,
    pub trust_profile: SerializationTrustProfile,
    pub adapter_id: Seq<char>,
    pub max_payload_size: usize,
}

impl View for SerializationConfig {
    type V = SerializationConfigView;

    closed spec fn view(&self) -> SerializationConfigView {
        SerializationConfigView {
            format: self.format@,
            content_type: self.content_type@,
            version: self.version@,
            trust_profile: self.trust_profile,
            adapter_id: self.adapter_id@,
            max_payload_size: self.max_payload_size,
        }
    }
}

/// The metadata a configuration stamps on a payload of `payload_size` bytes.
pub open spec fn config_metadata(c: SerializationConfigView, payload_size: usize) -> PayloadMetadataView {
    PayloadMetadataView {
        format: c.format,
        content_type: c.content_type,
        version: c.version,
        trust_profile: c.trust_profile,
        adapter_id: c.adapter_id,
        payload_size,
    }
}

/// The policy of a configuration's readers: its own metadata, up to its
/// version, from its adapter only, within its size limit.
pub open spec fn config_policy(c: SerializationConfigView) -> PayloadMetadataPolicyView {
    PayloadMetadataPolicyView {
        format: c.format,
        content_type: c.content_type,
        max_supported_version: c.version,
        trust_profile: c.trust_profile,
        adapter_id: Some(c.adapter_id),
        max_payload_size: c.max_payload_size,
    }
}

/// `c` with `max_payload_size` replaced.
pub open spec fn with_limit(c: SerializationConfigView, max_payload_size: usize) -> SerializationConfigView {
    SerializationConfigView { max_payload_size, ..c }
}

/// `c` with the trust profile replaced.
pub open spec fn with_profile(c: SerializationConfigView, trust_profile: SerializationTrustProfile) -> SerializationConfigView {
    SerializationConfigView { trust_profile, ..c }
}

impl Clone for SerializationConfig {
    fn clone(&self) -> (r: Self)
        ensures
            r@ == self@,
    {
        proof {
            use_type_invariant(self);
        }
        SerializationConfig {
            format: self.format.clone(),
            content_type: self.content_type.clone(),
            version: self.version.clone(),
            trust_profile: self.trust_profile,
            adapter_id: self.adapter_id.clone(),
            max_payload_size: self.max_payload_size,
        }
    }
}

impl SerializationConfig {
    #[verifier::type_invariant]
    spec fn well_formed(self) -> bool {
        self.max_payload_size > 0
    }

    /// A configuration with safe defaults: content type
    /// `application/octet-stream`, version 1, the `StaticallyTyped` trust
    /// profile and a 16 MiB payload limit. Never fails.
    pub fn new(format: SerializationFormat, adapter_id: AdapterId) -> (r: Result<Self, SerializationError>)
        ensures
            r matches Ok(c) && c@ == (SerializationConfigView {
                format: format@,
                content_type: "application/octet-stream"@,
                version: 1,
                trust_profile: SerializationTrustProfile::StaticallyTyped,
                adapter_id: adapter_id@,
                max_payload_size: DEFAULT_MAX_PAYLOAD_SIZE,
            }),
    {
        let version = match PayloadVersion::new(1) {
            Ok(v) => v,
            Err(e) => {
                return Err(e);
            },
        };
        Ok(
            SerializationConfig {
                format,
                content_type: ContentType::octet_stream(),
                version,
                trust_profile: SerializationTrustProfile::StaticallyTyped,
                adapter_id,
                max_payload_size: DEFAULT_MAX_PAYLOAD_SIZE,
            },
        )
    }

    /// Sets the payload size limit; fails with `InvalidConfig` for the field
    /// `max_payload_size` exactly when it is zero.
    pub fn with_max_payload_size(self, max_payload_size: usize) -> (r: Result<Self, SerializationError>)
        ensures
            max_payload_size == 0 ==> (r matches Err(e) && e@ == (SerializationErrorView::InvalidConfig {
                field: "max_payload_size"@,
                reason: "max payload size must be positive"@,
            })),
            max_payload_size > 0 ==> (r matches Ok(c) && c@ == with_limit(self@, max_payload_size)),
    {
        if max_payload_size == 0 {
            return Err(
                SerializationError::invalid_config(
                    "max_payload_size",
                    "max payload size must be positive",
                ),
            );
        }
        let SerializationConfig { format, content_type, version, trust_profile, adapter_id, .. } =
            self;
        Ok(SerializationConfig { format, content_type, version, trust_profile, adapter_id, max_payload_size })
    }

    /// Sets the content type.
    pub fn with_content_type(self, content_type: ContentType) -> (r: Self)
        ensures
            r@ == (SerializationConfigView { content_type: content_type@, ..self@ }),
    {
        proof {
            use_type_invariant(&self);
        }
        let SerializationConfig { format, version, trust_profile, adapter_id, max_payload_size, .. } =
            self;
        SerializationConfig { format, content_type, version, trust_profile, adapter_id, max_payload_size }
    }

    /// Sets the payload version.
    pub fn with_version(self, version: PayloadVersion) -> (r: Self)
        ensures
            r@ == (SerializationConfigView { version: version@, ..self@ }),
    {
        proof {
            use_type_invariant(&self);
        }
        let SerializationConfig {
            format,
            content_type,
            trust_profile,
            adapter_id,
            max_payload_size,
            ..
        } = self;
        SerializationConfig { format, content_type, version, trust_profile, adapter_id, max_payload_size }
    }

    /// Sets the trust profile. The unsafe legacy profile is refused with
    /// `InvalidConfig` for the field `trust_profile`; it takes the explicit
    /// migration opt-in.
    pub fn with_trust_profile(self, trust_profile: SerializationTrustProfile) -> (r: Result<
        Self,
        SerializationError,
    >)
        ensures
            trust_profile == SerializationTrustProfile::UnsafeLegacyCompatibility ==> (r matches Err(e)
                && e@ == (SerializationErrorView::InvalidConfig {
                field: "trust_profile"@,
                reason: "unsafe legacy compatibility requires explicit migration opt-in"@,
            })),
            trust_profile != SerializationTrustProfile::UnsafeLegacyCompatibility ==> (r matches Ok(c)
                && c@ == with_profile(self@, trust_profile)),
    {
        if trust_profile == SerializationTrustProfile::UnsafeLegacyCompatibility {
            return Err(
                SerializationError::invalid_config(
                    "trust_profile",
                    "unsafe legacy compatibility requires explicit migration opt-in",
                ),
            );
        }
        proof {
            use_type_invariant(&self);
        }
        let SerializationConfig {
            format,
            content_type,
            version,
            adapter_id,
            max_payload_size,
            ..
        } = self;
        Ok(SerializationConfig { format, content_type, version, trust_profile, adapter_id, max_payload_size })
    }

    /// Opts in to the unsafe legacy compatibility profile, for migrations.
    pub fn with_unsafe_legacy_compatibility_for_migration(self) -> (r: Self)
        ensures
            r@ == with_profile(self@, SerializationTrustProfile::UnsafeLegacyCompatibility),
    {
        proof {
            use_type_invariant(&self);
        }
        let SerializationConfig {
            format,
            content_type,
            version,
            adapter_id,
            max_payload_size,
            ..
        } = self;
        SerializationConfig {
            format,
            content_type,
            version,
            trust_profile: SerializationTrustProfile::UnsafeLegacyCompatibility,
            adapter_id,
            max_payload_size,
        }
    }

    /// The metadata to stamp on a payload of `payload_size` bytes.
    ///
    /// Fails with a serialize `PayloadSizeLimitExceeded` exactly when the
    /// size is over the configured limit.
    pub fn metadata_for_size(&self, payload_size: usize) -> (r: Result<PayloadMetadata, SerializationError>)
        ensures
            payload_size > self@.max_payload_size ==> (r matches Err(e) && e@ == (
            SerializationErrorView::PayloadSizeLimitExceeded {
                operation: SerializationOperation::Serialize,
                limit: self@.max_payload_size,
                actual: payload_size,
            })),
            payload_size <= self@.max_payload_size ==> (r matches Ok(m) && m@ == config_metadata(
                self@,
                payload_size,
            )),
    {
        if payload_size > self.max_payload_size {
            return Err(
                SerializationError::payload_size_limit_exceeded(
                    SerializationOperation::Serialize,
                    self.max_payload_size,
                    payload_size,
                ),
            );
        }
        Ok(
            PayloadMetadata::new(
                self.format.clone(),
                self.content_type.clone(),
                self.version.clone(),
                self.trust_profile,
                self.adapter_id.clone(),
                payload_size,
            ),
        )
    }

    /// The policy for this configuration's readers.
    pub fn metadata_policy(&self) -> (r: PayloadMetadataPolicy)
        ensures
            r@ == config_policy(self@),
    {
        PayloadMetadataPolicy::from_config(self)
    }

    /// The serialization format id.
    pub fn format(&self) -> (r: &SerializationFormat)
        ensures
            r@ == self@.format,
    {
        &self.format
    }

    /// The content type.
    pub fn content_type(&self) -> (r: &ContentType)
        ensures
            r@ == self@.content_type,
    {
        &self.content_type
    }

    /// The payload version.
    pub fn version(&self) -> (r: PayloadVersion)
        ensures
            r@ == self@.version,
    {
        self.version.clone()
    }

    /// The trust profile.
    pub fn trust_profile(&self) -> (r: SerializationTrustProfile)
        ensures
            r == self@.trust_profile,
    {
        self.trust_profile
    }

    /// The payload size limit; it is always positive.
    pub fn max_payload_size(&self) -> (r: usize)
        ensures
            r == self@.max_payload_size,
            r > 0,
    {
        proof {
            use_type_invariant(self);
        }
        self.max_payload_size
    }
}

impl PayloadMetadataPolicy {
    /// The policy for a configuration's readers: its own format, content
    /// type, trust profile and adapter, versions up to its own, payloads up to
    /// its size limit.
    pub fn from_config(config: &SerializationConfig) -> (r: Self)
        ensures
            r@ == config_policy(config@),
    {
        PayloadMetadataPolicy::new_unchecked(
            config.format.clone(),
            config.content_type.clone(),
            config.version.clone(),
            config.trust_profile,
            Some(config.adapter_id.clone()),
            config.max_payload_size,
        )
    }
}

/// Metadata that a configuration stamps on a payload within its size limit
/// passes the policy of the same configuration's readers.
pub proof fn lemma_config_metadata_passes_own_policy(c: SerializationConfigView, payload_size: usize)
    requires
        payload_size <= c.max_payload_size,
    ensures
        policy_outcome(config_policy(c), config_metadata(c, payload_size)) == Ok::<
            (),
            SerializationErrorView,
        >(()),
{
}

/// Metadata over the size limit, otherwise the configuration's own, is
/// refused by its policy with a deserialize size error.
pub proof fn lemma_oversized_metadata_refused(c: SerializationConfigView, payload_size: usize)
    requires
        payload_size > c.max_payload_size,
    ensures
        policy_outcome(config_policy(c), config_metadata(c, payload_size)) == Err::<
            (),
            SerializationErrorView,
        >(
            SerializationErrorView::PayloadSizeLimitExceeded {
                operation: SerializationOperation::Deserialize,
                limit: c.max_payload_size,
                actual: payload_size,
            },
        ),
{
}

} // verus!

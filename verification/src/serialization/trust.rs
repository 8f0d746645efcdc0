//! How much serialized data can influence deserialization.
use vstd::prelude::*;

verus! {

/// Describes how much serialized data can influence deserialization.
#[derive(Debug, Clone, Copy, PartialEq, Eq, Hash, Structural)]
#[non_exhaustive]
pub enum SerializationTrustProfile {
    /// Private caches or queues controlled by one trusted deployment boundary.
    TrustedInternal,
    /// Payloads may carry type metadata, but only through explicit allowlists.
    AllowListedTypes,
    /// Payloads do not select runtime types; callers provide the Rust target
    /// type.
    StaticallyTyped,
    /// Migration-only boundary for fully trusted legacy data.
    UnsafeLegacyCompatibility,
}

impl Default for SerializationTrustProfile {
    /// The safe default: `StaticallyTyped`.
    fn default() -> (r: Self)
        ensures
            r == SerializationTrustProfile::StaticallyTyped,
    {
        SerializationTrustProfile::StaticallyTyped
    }
}

/// The name of a trust profile, as its variant is written.
pub open spec fn trust_profile_name(p: SerializationTrustProfile) -> Seq<char> {
    match p {
        SerializationTrustProfile::TrustedInternal => "TrustedInternal"@,
        SerializationTrustProfile::AllowListedTypes => "AllowListedTypes"@,
        SerializationTrustProfile::StaticallyTyped => "StaticallyTyped"@,
        SerializationTrustProfile::UnsafeLegacyCompatibility => "UnsafeLegacyCompatibility"@,
    }
}

impl SerializationTrustProfile {
    /// The name of the profile, as its variant is written.
    pub fn name(&self) -> (r: &'static str)
        ensures
            r@ == trust_profile_name(*self),
    {
        match self {
            SerializationTrustProfile::TrustedInternal => "TrustedInternal",
            SerializationTrustProfile::AllowListedTypes => "AllowListedTypes",
            SerializationTrustProfile::StaticallyTyped => "StaticallyTyped",
            SerializationTrustProfile::UnsafeLegacyCompatibility => "UnsafeLegacyCompatibility",
        }
    }
}

} // verus!

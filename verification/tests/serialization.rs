use bluetape_rs::serialization::{
    AdapterId, BinarySerializer, ContentType, Deserializer, PayloadMetadata,
    PayloadMetadataPolicy, PayloadVersion, SerializationConfig, SerializationError,
    SerializationErrorKind, SerializationFormat, SerializationOperation,
    SerializationTrustProfile, SerializedPayload, Serializer, DEFAULT_MAX_PAYLOAD_SIZE,
    MAX_ADAPTER_ID_LEN, MAX_CONTENT_TYPE_LEN, MAX_FORMAT_ID_LEN,
};

#[test]
fn accepts_valid_metadata_tokens() {
    assert_eq!(
        SerializationFormat::new("binary").unwrap().as_str(),
        "binary"
    );
    assert_eq!(
        SerializationFormat::new("custom.binary/v1")
            .unwrap()
            .as_str(),
        "custom.binary/v1"
    );
    assert_eq!(
        ContentType::new("application/octet-stream")
            .unwrap()
            .as_str(),
        "application/octet-stream"
    );
    assert_eq!(
        AdapterId::new("binary.primary").unwrap().as_str(),
        "binary.primary"
    );
    assert_eq!(PayloadVersion::new(1).unwrap().get(), 1);
    assert_eq!(
        SerializationTrustProfile::default(),
        SerializationTrustProfile::StaticallyTyped
    );
}

#[test]
fn rejects_invalid_metadata_tokens() {
    assert!(SerializationFormat::new("").is_err());
    assert!(SerializationFormat::new("Binary").is_err());
    assert!(SerializationFormat::new("binary payload").is_err());
    assert!(SerializationFormat::new(&"x".repeat(MAX_FORMAT_ID_LEN + 1)).is_err());

    assert!(ContentType::new("").is_err());
    assert!(ContentType::new("application").is_err());
    assert!(ContentType::new("/json").is_err());
    assert!(ContentType::new("application/").is_err());
    assert!(ContentType::new("application/json; charset=utf-8").is_err());
    assert!(ContentType::new("application/\noctet-stream").is_err());
    assert!(ContentType::new(&("x/".to_owned() + &"y".repeat(MAX_CONTENT_TYPE_LEN))).is_err());

    assert!(AdapterId::new("").is_err());
    assert!(AdapterId::new("Binary").is_err());
    assert!(AdapterId::new("binary adapter").is_err());
    assert!(AdapterId::new(&"x".repeat(MAX_ADAPTER_ID_LEN + 1)).is_err());

    assert!(PayloadVersion::new(0).is_err());
}

#[test]
fn reports_mismatches_without_payload_bytes() {
    let expected = SerializationFormat::new("binary").unwrap();
    let observed = SerializationFormat::new("json").unwrap();
    let error = SerializationError::format_mismatch(
        SerializationOperation::Deserialize,
        expected,
        observed,
    );

    assert_eq!(error.kind(), SerializationErrorKind::FormatMismatch);
    assert_eq!(error.operation(), Some(SerializationOperation::Deserialize));
    assert!(error.message().contains("format mismatch"));
    assert!(!error.message().contains("SECRET_PAYLOAD_MARKER"));
}

#[test]
fn safe_adapter_source_errors_preserve_cause_chain() {
    let adapter = AdapterId::new("binary.primary").unwrap();
    let error = SerializationError::safe_adapter_failure(
        adapter,
        SerializationOperation::Deserialize,
        "safe adapter diagnostic".to_string(),
    );

    assert_eq!(error.kind(), SerializationErrorKind::AdapterFailure);
    assert_eq!(error.operation(), Some(SerializationOperation::Deserialize));
    assert_eq!(
        error.source_message().map(ToString::to_string).unwrap_or_default(),
        "safe adapter diagnostic"
    );
}

#[derive(Debug)]
struct PayloadLeakingError;

#[test]
fn adapter_source_errors_are_redacted_when_needed() {
    let adapter = AdapterId::new("binary.primary").unwrap();
    let error = SerializationError::redacted_adapter_failure(
        adapter,
        SerializationOperation::Deserialize,
        PayloadLeakingError,
    );

    assert_eq!(error.kind(), SerializationErrorKind::AdapterFailure);
    assert!(!error.message().contains("SECRET_PAYLOAD_MARKER"));
    assert!(!format!("{error:?}").contains("SECRET_PAYLOAD_MARKER"));
    assert!(!error
        .source_message()
        .map(ToString::to_string)
        .unwrap_or_default()
        .contains("SECRET_PAYLOAD_MARKER"));
}

#[test]
fn config_defaults_are_safe_and_explicit() {
    let config = SerializationConfig::new(
        SerializationFormat::new("binary").unwrap(),
        AdapterId::new("binary.primary").unwrap(),
    )
    .unwrap();

    assert_eq!(config.format().as_str(), "binary");
    assert_eq!(config.content_type().as_str(), "application/octet-stream");
    assert_eq!(config.version().get(), 1);
    assert_eq!(
        config.trust_profile(),
        SerializationTrustProfile::StaticallyTyped
    );
    assert_eq!(config.max_payload_size(), DEFAULT_MAX_PAYLOAD_SIZE);
}

#[test]
fn config_rejects_unsafe_defaults_and_zero_limits() {
    let config = SerializationConfig::new(
        SerializationFormat::new("binary").unwrap(),
        AdapterId::new("binary.primary").unwrap(),
    )
    .unwrap();

    assert!(config.clone().with_max_payload_size(0).is_err());
    let legacy = config.with_unsafe_legacy_compatibility_for_migration();
    assert_eq!(
        legacy.trust_profile(),
        SerializationTrustProfile::UnsafeLegacyCompatibility
    );
}

#[test]
fn serialized_payload_derives_size_from_bytes() {
    let metadata = SerializationConfig::new(
        SerializationFormat::new("binary").unwrap(),
        AdapterId::new("binary.primary").unwrap(),
    )
    .unwrap()
    .metadata_for_size(3)
    .unwrap();

    let payload = SerializedPayload::new(vec![1, 2, 3], metadata).unwrap();
    assert_eq!(payload.bytes(), &[1, 2, 3]);
    assert_eq!(payload.metadata().payload_size, 3);
}

#[test]
fn serialized_payload_rejects_metadata_size_mismatch() {
    let metadata = SerializationConfig::new(
        SerializationFormat::new("binary").unwrap(),
        AdapterId::new("binary.primary").unwrap(),
    )
    .unwrap()
    .metadata_for_size(9)
    .unwrap();

    let error = SerializedPayload::new(vec![1, 2, 3], metadata).unwrap_err();
    assert_eq!(error.kind(), SerializationErrorKind::InvalidMetadata);
    assert_eq!(error.operation(), None);
}

#[test]
fn metadata_policy_rejects_mismatches() {
    let config = SerializationConfig::new(
        SerializationFormat::new("binary").unwrap(),
        AdapterId::new("binary.primary").unwrap(),
    )
    .unwrap();
    let metadata = config.metadata_for_size(10).unwrap();
    let policy = PayloadMetadataPolicy::from_config(&config);

    assert!(policy.validate(&metadata).is_ok());

    let wrong_format = PayloadMetadata {
        format: SerializationFormat::new("json").unwrap(),
        ..metadata.clone()
    };
    assert_eq!(
        policy.validate(&wrong_format).unwrap_err().kind(),
        SerializationErrorKind::FormatMismatch
    );

    let wrong_content_type = PayloadMetadata {
        content_type: ContentType::new("application/json").unwrap(),
        ..metadata.clone()
    };
    assert_eq!(
        policy.validate(&wrong_content_type).unwrap_err().kind(),
        SerializationErrorKind::ContentTypeMismatch
    );

    let wrong_trust_profile = PayloadMetadata {
        trust_profile: SerializationTrustProfile::TrustedInternal,
        ..metadata.clone()
    };
    assert_eq!(
        policy.validate(&wrong_trust_profile).unwrap_err().kind(),
        SerializationErrorKind::TrustProfileMismatch
    );

    let wrong_adapter = PayloadMetadata {
        adapter_id: AdapterId::new("binary.secondary").unwrap(),
        ..metadata.clone()
    };
    assert_eq!(
        policy.validate(&wrong_adapter).unwrap_err().kind(),
        SerializationErrorKind::AdapterIdMismatch
    );

    let adapter_wildcard = PayloadMetadataPolicy::from_parts(
        config.format().clone(),
        config.content_type().clone(),
        config.version(),
        config.trust_profile(),
        None,
        config.max_payload_size(),
    )
    .unwrap();
    assert!(adapter_wildcard.validate(&wrong_adapter).is_ok());
}

#[test]
fn metadata_policy_enforces_version_and_size_boundaries() {
    let config = SerializationConfig::new(
        SerializationFormat::new("binary").unwrap(),
        AdapterId::new("binary.primary").unwrap(),
    )
    .unwrap()
    .with_max_payload_size(10)
    .unwrap();
    let policy = PayloadMetadataPolicy::from_config(&config);

    let exact_limit = config.metadata_for_size(10).unwrap();
    assert!(policy.validate(&exact_limit).is_ok());

    let oversized = PayloadMetadata {
        payload_size: 11,
        ..exact_limit.clone()
    };
    assert_eq!(
        policy.validate(&oversized).unwrap_err().kind(),
        SerializationErrorKind::PayloadSizeLimitExceeded
    );

    let newer_version = PayloadMetadata {
        version: PayloadVersion::new(2).unwrap(),
        ..exact_limit
    };
    let error = policy.validate(&newer_version).unwrap_err();
    assert_eq!(error.kind(), SerializationErrorKind::UnsupportedVersion);
    assert_eq!(error.operation(), Some(SerializationOperation::Deserialize));
}

#[derive(Debug, Clone, PartialEq, Eq)]
struct Account {
    id: String,
}

struct EchoSerializer {
    config: SerializationConfig,
}

impl EchoSerializer {
    fn new() -> Self {
        Self {
            config: SerializationConfig::new(
                SerializationFormat::new("binary").unwrap(),
                AdapterId::new("echo").unwrap(),
            )
            .unwrap(),
        }
    }
}

impl Serializer<Account> for EchoSerializer {
    fn serialize(&self, value: &Account) -> Result<SerializedPayload, SerializationError> {
        let bytes = value.id.as_bytes().to_vec();
        let metadata = self.config.metadata_for_size(bytes.len())?;
        SerializedPayload::new(bytes, metadata)
    }
}

impl Deserializer<Account> for EchoSerializer {
    fn deserialize(&self, payload: &SerializedPayload) -> Result<Account, SerializationError> {
        self.expected_metadata().validate(payload.metadata())?;
        let id = std::str::from_utf8(payload.bytes())
            .map_err(|_| {
                SerializationError::malformed_input(
                    SerializationOperation::Deserialize,
                    AdapterId::new("echo").unwrap(),
                    "payload must be valid utf-8",
                )
            })?
            .to_owned();
        Ok(Account { id })
    }

    fn expected_metadata(&self) -> PayloadMetadataPolicy {
        self.config.metadata_policy()
    }
}

#[test]
fn traits_round_trip_with_caller_supplied_type() {
    fn assert_binary_serializer<T, S>(serializer: &S, value: &T) -> T
    where
        T: PartialEq + std::fmt::Debug,
        S: BinarySerializer<T>,
    {
        let payload = serializer.serialize(value).unwrap();
        serializer.deserialize(&payload).unwrap()
    }

    let serializer = EchoSerializer::new();
    let value = Account {
        id: "acct-1".to_owned(),
    };

    assert_eq!(assert_binary_serializer(&serializer, &value), value);
}

#[test]
fn serialization_messages_name_operation_and_tokens() {
    let error = SerializationFormat::new("").unwrap_err();
    assert_eq!(error.message(), "invalid format: value must not be empty");
    let error = ContentType::new("a/b/c").unwrap_err();
    assert_eq!(
        error.message(),
        "invalid content_type: content type must contain exactly one slash"
    );
    let error = AdapterId::new("é").unwrap_err();
    assert_eq!(error.message(), "invalid adapter_id: value contains unsupported bytes");
    let error = SerializationError::payload_size_limit_exceeded(
        SerializationOperation::Serialize,
        10,
        11,
    );
    assert_eq!(
        error.message(),
        "serialization serialize payload size 11 exceeded limit 10"
    );
    let error = SerializationError::trust_profile_mismatch(
        SerializationOperation::Deserialize,
        SerializationTrustProfile::StaticallyTyped,
        SerializationTrustProfile::TrustedInternal,
    );
    assert_eq!(
        error.message(),
        "serialization deserialize trust profile mismatch: expected StaticallyTyped, observed TrustedInternal"
    );
    let config = SerializationConfig::new(
        SerializationFormat::new("binary").unwrap(),
        AdapterId::new("binary.primary").unwrap(),
    )
    .unwrap();
    assert!(config
        .clone()
        .with_trust_profile(SerializationTrustProfile::UnsafeLegacyCompatibility)
        .is_err());
    assert_eq!(
        config.metadata_for_size(DEFAULT_MAX_PAYLOAD_SIZE + 1).unwrap_err().kind(),
        SerializationErrorKind::PayloadSizeLimitExceeded
    );
}

#[test]
fn config_builders_replace_only_their_field() {
    let config = SerializationConfig::new(
        SerializationFormat::new("binary").unwrap(),
        AdapterId::new("bytes.copy").unwrap(),
    )
    .unwrap();
    let config = config
        .with_content_type(ContentType::new("application/x-test").unwrap())
        .with_version(PayloadVersion::new(3).unwrap());
    assert_eq!(config.content_type().as_str(), "application/x-test");
    assert_eq!(config.version().get(), 3);

    let metadata = config.metadata_for_size(4).unwrap();
    assert_eq!(metadata.content_type().as_str(), "application/x-test");
    assert_eq!(metadata.version().get(), 3);
    let payload = SerializedPayload::new(vec![1, 2, 3, 4], metadata).unwrap();
    assert_eq!(payload.into_bytes(), vec![1, 2, 3, 4]);

    let err = SerializationError::invalid_metadata("format", "must not be empty");
    assert_eq!(err.kind(), SerializationErrorKind::InvalidMetadata);
}

#[test]
fn debug_output_shows_sizes_not_payload_bytes() {
    let config = SerializationConfig::new(
        SerializationFormat::new("binary").unwrap(),
        AdapterId::new("bytes.copy").unwrap(),
    )
    .unwrap();
    let secret = b"SECRET".to_vec();
    let metadata = config.metadata_for_size(secret.len()).unwrap();
    let payload = SerializedPayload::new(secret, metadata).unwrap();
    let shown = format!("{payload:?}");
    assert!(shown.contains("bytes_len: 6"));
    assert!(!shown.contains("83, 69, 67"));
}

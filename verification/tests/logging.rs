use bluetape_rs::logging::{
    CorrelationId, CorrelationIdError, CORRELATION_ID_FIELD, MAX_CORRELATION_ID_LEN,
    REQUEST_ID_FIELD, TASK_ID_FIELD,
};

#[test]
fn lib_accepts_visible_correlation_ids() {
    let id = CorrelationId::new(" request-1 ").expect("visible id");
    assert_eq!(id.as_str(), " request-1 ");
    assert_eq!(id.text(), " request-1 ");
    assert_eq!(CorrelationId::new(" \t"), Err(CorrelationIdError::Blank));
}

#[test]
fn lib_rejects_control_or_oversized_correlation_ids_with_typed_errors() {
    assert_eq!(
        CorrelationId::new("request\nforged"),
        Err(CorrelationIdError::UnsafeCharacter { ch: '\n' })
    );
    assert_eq!(
        CorrelationId::new("request\rforged"),
        Err(CorrelationIdError::UnsafeCharacter { ch: '\r' })
    );
    assert_eq!(
        CorrelationId::new("request\tforged"),
        Err(CorrelationIdError::UnsafeCharacter { ch: '\t' })
    );
    assert_eq!(
        CorrelationId::new("request\u{2028}forged"),
        Err(CorrelationIdError::UnsafeCharacter { ch: '\u{2028}' })
    );
    assert_eq!(
        CorrelationId::new("request\u{2029}forged"),
        Err(CorrelationIdError::UnsafeCharacter { ch: '\u{2029}' })
    );
    assert_eq!(
        CorrelationId::new("request\u{202e}forged"),
        Err(CorrelationIdError::UnsafeCharacter { ch: '\u{202e}' })
    );
    assert_eq!(
        CorrelationId::new("request\u{061c}forged"),
        Err(CorrelationIdError::UnsafeCharacter { ch: '\u{061c}' })
    );
    assert_eq!(
        CorrelationId::new(&"x".repeat(MAX_CORRELATION_ID_LEN + 1)),
        Err(CorrelationIdError::TooLong {
            len: MAX_CORRELATION_ID_LEN + 1,
            max: MAX_CORRELATION_ID_LEN,
        })
    );
    assert!(CorrelationId::new(&"x".repeat(MAX_CORRELATION_ID_LEN)).is_ok());
}

#[test]
fn lib_exposes_field_names() {
    assert_eq!(REQUEST_ID_FIELD, "request.id");
    assert_eq!(TASK_ID_FIELD, "task.id");
    assert_eq!(CORRELATION_ID_FIELD, "correlation.id");
}

#[test]
fn tests_accepts_visible_correlation_ids() {
    let id = CorrelationId::new(" request-1 ").expect("visible id");
    assert_eq!(id.as_str(), " request-1 ");
    assert_eq!(id.text(), " request-1 ");
    assert_eq!(CorrelationId::new(" \t"), Err(CorrelationIdError::Blank));
}

#[test]
fn tests_rejects_control_or_oversized_correlation_ids_with_typed_errors() {
    assert_eq!(
        CorrelationId::new("request\nforged"),
        Err(CorrelationIdError::UnsafeCharacter { ch: '\n' })
    );
    assert_eq!(
        CorrelationId::new("request\rforged"),
        Err(CorrelationIdError::UnsafeCharacter { ch: '\r' })
    );
    assert_eq!(
        CorrelationId::new("request\tforged"),
        Err(CorrelationIdError::UnsafeCharacter { ch: '\t' })
    );
    assert_eq!(
        CorrelationId::new("request\u{2028}forged"),
        Err(CorrelationIdError::UnsafeCharacter { ch: '\u{2028}' })
    );
    assert_eq!(
        CorrelationId::new("request\u{2029}forged"),
        Err(CorrelationIdError::UnsafeCharacter { ch: '\u{2029}' })
    );
    assert_eq!(
        CorrelationId::new("request\u{202e}forged"),
        Err(CorrelationIdError::UnsafeCharacter { ch: '\u{202e}' })
    );
    assert_eq!(
        CorrelationId::new("request\u{061c}forged"),
        Err(CorrelationIdError::UnsafeCharacter { ch: '\u{061c}' })
    );
    assert_eq!(
        CorrelationId::new("request\u{200e}forged"),
        Err(CorrelationIdError::UnsafeCharacter { ch: '\u{200e}' })
    );
    assert_eq!(
        CorrelationId::new("request\u{200f}forged"),
        Err(CorrelationIdError::UnsafeCharacter { ch: '\u{200f}' })
    );
    assert_eq!(
        CorrelationId::new("request\u{202a}forged"),
        Err(CorrelationIdError::UnsafeCharacter { ch: '\u{202a}' })
    );
    assert_eq!(
        CorrelationId::new("request\u{2066}forged"),
        Err(CorrelationIdError::UnsafeCharacter { ch: '\u{2066}' })
    );
    assert_eq!(
        CorrelationId::new(&"x".repeat(MAX_CORRELATION_ID_LEN + 1)),
        Err(CorrelationIdError::TooLong {
            len: MAX_CORRELATION_ID_LEN + 1,
            max: MAX_CORRELATION_ID_LEN,
        })
    );
    assert!(CorrelationId::new(&"x".repeat(MAX_CORRELATION_ID_LEN)).is_ok());
}

#[test]
fn correlation_id_error_formats_public_messages() {
    let blank = CorrelationIdError::Blank;
    let too_long = CorrelationIdError::TooLong { len: 257, max: 256 };
    let unsafe_character = CorrelationIdError::UnsafeCharacter { ch: '\u{202e}' };

    assert_eq!(
        blank.message(),
        "correlation id must contain visible text"
    );
    assert_eq!(
        too_long.message(),
        "correlation id is 257 bytes, exceeding the 256 byte limit"
    );
    assert_eq!(
        unsafe_character.message(),
        "correlation id contains unsafe character U+202E"
    );
}

#[test]
fn tests_exposes_field_names() {
    assert_eq!(REQUEST_ID_FIELD, "request.id");
    assert_eq!(TASK_ID_FIELD, "task.id");
    assert_eq!(CORRELATION_ID_FIELD, "correlation.id");
}

#[test]
fn correlation_ids_count_bytes_and_pad_code_points() {
    assert_eq!(
        CorrelationId::new(&"é".repeat(129)),
        Err(CorrelationIdError::TooLong { len: 258, max: 256 })
    );
    assert!(CorrelationId::new(&"é".repeat(128)).is_ok());
    assert_eq!(
        CorrelationIdError::UnsafeCharacter { ch: '\u{7f}' }.message(),
        "correlation id contains unsafe character U+007F"
    );
    assert_eq!(
        CorrelationId::new("\u{85}x"),
        Err(CorrelationIdError::UnsafeCharacter { ch: '\u{85}' })
    );
    assert_eq!(CorrelationId::new(""), Err(CorrelationIdError::Blank));
}

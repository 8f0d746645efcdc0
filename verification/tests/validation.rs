use bluetape_rs::validation::{
    blank_to_default, clamp, empty_to_default, has_text, is_hex_digit, is_prefixed_hex,
    require_in_half_open_range, require_in_range, require_non_negative, require_not_blank,
    require_not_empty, require_positive, truncate_utf8_bytes, RangeKind, ValidationError,
};

#[test]
fn validates_strings() {
    assert_eq!(
        require_not_empty("name", " ").expect("space is non-empty"),
        " "
    );
    assert!(matches!(
        require_not_empty("name", ""),
        Err(ValidationError::Empty { .. })
    ));
    assert_eq!(require_not_blank("name", "blue").expect("text"), "blue");
    assert!(matches!(
        require_not_blank("name", " \t"),
        Err(ValidationError::Blank { .. })
    ));
}

#[test]
fn validates_ranges_and_numbers() {
    assert_eq!(require_in_range("value", 5, 1, 5).expect("inclusive"), 5);
    assert!(matches!(
        require_in_range("value", 6, 1, 5),
        Err(ValidationError::OutOfRange {
            kind: RangeKind::Inclusive,
            ..
        })
    ));
    assert_eq!(
        require_in_half_open_range("value", 4, 1, 5).expect("half-open"),
        4
    );
    assert!(matches!(
        require_in_half_open_range("value", 5, 1, 5),
        Err(ValidationError::OutOfRange {
            kind: RangeKind::HalfOpen,
            ..
        })
    ));
    assert_eq!(require_positive("count", 1).expect("positive"), 1);
    assert!(matches!(
        require_positive("count", 0),
        Err(ValidationError::NotPositive { .. })
    ));
    assert_eq!(require_non_negative("count", 0).expect("zero"), 0);
    assert!(matches!(
        require_non_negative("count", -1),
        Err(ValidationError::Negative { .. })
    ));
}

#[test]
fn handles_string_defaults_and_unicode_truncation() {
    assert!(has_text(" blue "));
    assert!(!has_text(" \t "));
    assert_eq!(empty_to_default("", "fallback"), "fallback");
    assert_eq!(empty_to_default(" ", "fallback"), " ");
    assert_eq!(blank_to_default(" ", "fallback"), "fallback");
    assert_eq!(
        truncate_utf8_bytes("Hello, 세계", 9).expect("truncate"),
        "Hello, "
    );
    assert_eq!(
        truncate_utf8_bytes("안녕하세요", 7).expect("truncate"),
        "안녕"
    );
    assert!(matches!(
        truncate_utf8_bytes("abc", -1),
        Err(ValidationError::NegativeLimit { .. })
    ));
}

#[test]
fn handles_clamp_and_hex_helpers() {
    assert_eq!(clamp(120, 0, 100).expect("clamp"), 100);
    assert!(matches!(
        clamp(1, 10, 1),
        Err(ValidationError::InvalidRange { .. })
    ));
    assert!(is_hex_digit('f'));
    assert!(!is_hex_digit('g'));
    assert!(is_prefixed_hex("0x1234"));
    assert!(is_prefixed_hex("-#cafe"));
    assert!(!is_prefixed_hex("1234"));
    assert!(!is_prefixed_hex("0x"));
    assert!(!is_prefixed_hex("0xxyz"));
}

#[test]
fn validation_error_implements_std_error() {
    let error = require_not_blank("name", "").expect_err("blank");
    assert_eq!(error.message(), "name must not be blank");
}

#[test]
fn validation_messages_render_values_and_bounds() {
    let error = require_positive("workers", 0).unwrap_err();
    assert_eq!(error.message(), "workers[0] must be positive");
    assert_eq!(RangeKind::Inclusive.message(), "inclusive");
    assert_eq!(RangeKind::HalfOpen.message(), "half-open");
    assert_eq!(
        require_in_range("port", 70_000, 1, 65_535).unwrap_err().message(),
        "port[70000] must be in range [1, 65535]"
    );
    assert_eq!(
        require_in_half_open_range("port", -3i64, -2, 9).unwrap_err().message(),
        "port[-3] must be in range [-2, 9)"
    );
    assert_eq!(
        clamp(5u8, 9, 1).unwrap_err().message(),
        "range inclusive range is invalid: lower 9 must be less than upper 1"
    );
    assert_eq!(
        require_non_negative("offset", i128::MIN).unwrap_err().message(),
        "offset[-170141183460469231731687303715884105728] must be non-negative"
    );
    assert_eq!(
        truncate_utf8_bytes("abc", -4).unwrap_err().message(),
        "max_bytes[-4] must be non-negative"
    );
}

#[test]
fn clamp_keeps_values_inside_the_range() {
    assert_eq!(clamp(-5, 0, 100).expect("clamp"), 0);
    assert_eq!(clamp(42, 0, 100).expect("clamp"), 42);
    assert_eq!(clamp(7, 7, 7).expect("clamp"), 7);
}

#[test]
fn trims_unicode_whitespace_before_recognizing_hex() {
    assert!(is_prefixed_hex("\u{3000} 0XABcd\u{2029}"));
    assert!(!is_prefixed_hex("- 0x12"));
    assert!(!has_text("\u{a0}\u{2003}\u{85}"));
    assert_eq!(truncate_utf8_bytes("abc", 10).expect("fits"), "abc");
    assert_eq!(truncate_utf8_bytes("가", 2).expect("inside scalar"), "");
}

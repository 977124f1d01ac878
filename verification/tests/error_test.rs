use duktape_rs::{DukError, DukErrorCode};

#[test]
fn raw_codes_map_to_categories() {
    assert_eq!(DukErrorCode::from_raw(0), DukErrorCode::NoError);
    assert_eq!(DukErrorCode::from_raw(1), DukErrorCode::Error);
    assert_eq!(DukErrorCode::from_raw(2), DukErrorCode::Eval);
    assert_eq!(DukErrorCode::from_raw(3), DukErrorCode::Range);
    assert_eq!(DukErrorCode::from_raw(5), DukErrorCode::Syntax);
    assert_eq!(DukErrorCode::from_raw(6), DukErrorCode::Type);
    assert_eq!(DukErrorCode::from_raw(7), DukErrorCode::URI);
}

#[test]
fn unrecognized_raw_codes_fall_back() {
    // The engine's ReferenceError (4) is outside the closed set, as is any
    // out-of-range code: both degrade to the generic category instead of
    // being reinterpreted blindly.
    assert_eq!(DukErrorCode::from_raw(4), DukErrorCode::Error);
    assert_eq!(DukErrorCode::from_raw(8), DukErrorCode::Error);
    assert_eq!(DukErrorCode::from_raw(99), DukErrorCode::Error);
    assert_eq!(DukErrorCode::from_raw(u32::MAX), DukErrorCode::Error);
}

#[test]
fn error_from_code() {
    let e = DukError::from_code(DukErrorCode::Range);
    assert_eq!(e.code, DukErrorCode::Range);
    assert!(e.message.is_none());
}

#[test]
fn error_from_str() {
    let e = DukError::from_str("something odd");
    assert_eq!(e.code, DukErrorCode::Error);
    assert_eq!(e.message.as_deref(), Some("something odd"));
}

#[test]
fn error_from_code_and_message() {
    let e = DukError::from(DukErrorCode::Type, "not a function");
    assert_eq!(e.code, DukErrorCode::Type);
    assert_eq!(e.message.as_deref(), Some("not a function"));
}

#[test]
fn error_message_text() {
    assert_eq!(
        DukError::from(DukErrorCode::Syntax, "unterminated string").to_message().as_str(),
        "unterminated string"
    );
    assert_eq!(
        DukError::from_code(DukErrorCode::Error).to_message().as_str(),
        "an unknown error occurred"
    );
    assert_eq!(
        DukError::from_code(DukErrorCode::Syntax).to_message().as_str(),
        "type: Syntax code: 5"
    );
    assert_eq!(
        DukError::from_code(DukErrorCode::NullPtr).to_message().as_str(),
        "type: NullPtr code: 8"
    );
}

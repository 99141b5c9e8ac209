use todo_service::errors::AppError;
use todo_service::ident::{decode_id, encode_id};
use todo_service::models::{validate_create, validate_update, CreateTodo, UpdateTodo};

#[test]
fn encode_writes_32_lowercase_hex_digits() {
    assert_eq!(encode_id(0).as_str(), "00000000000000000000000000000000");
    assert_eq!(
        encode_id(0x0123456789abcdef0123456789abcdef).as_str(),
        "0123456789abcdef0123456789abcdef"
    );
    assert_eq!(
        encode_id(u128::MAX).as_str(),
        "ffffffffffffffffffffffffffffffff"
    );
    assert_eq!(encode_id(16).as_str(), "00000000000000000000000000000010");
}

#[test]
fn decode_inverts_encode() {
    for id in [0u128, 1, 15, 16, 255, 0xdead_beef, u128::MAX - 1, u128::MAX] {
        let text = encode_id(id);
        assert_eq!(decode_id(text.as_str()), Some(id));
    }
}

#[test]
fn decode_accepts_uppercase() {
    assert_eq!(
        decode_id("0123456789ABCDEF0123456789ABCDEF"),
        Some(0x0123456789abcdef0123456789abcdef)
    );
}

#[test]
fn decode_rejects_malformed_text() {
    assert_eq!(decode_id(""), None);
    assert_eq!(decode_id("0123456789abcdef0123456789abcde"), None);
    assert_eq!(decode_id("0123456789abcdef0123456789abcdef0"), None);
    assert_eq!(decode_id("0123456789abcdefg123456789abcdef"), None);
    assert_eq!(decode_id("01234567-89ab-cdef-0123-456789abcdef"), None);
}

#[test]
fn every_error_kind_maps_to_its_status_and_message() {
    let uuid_err = AppError::UuidParseError("bad digit".to_string());
    assert_eq!(uuid_err.status_code(), 500);
    assert_eq!(uuid_err.client_message().as_str(), "Error processing identifier.");

    let validation = AppError::ValidationError("Title cannot be empty".to_string());
    assert_eq!(validation.status_code(), 400);
    assert_eq!(
        validation.client_message().as_str(),
        "Input validation failed: Title cannot be empty"
    );

    let storage = AppError::SqlxError("disk full".to_string());
    assert_eq!(storage.status_code(), 500);
    assert_eq!(
        storage.client_message().as_str(),
        "An internal database error occurred."
    );

    let missing = AppError::NotFound;
    assert_eq!(missing.status_code(), 404);
    assert_eq!(
        missing.client_message().as_str(),
        "The requested item was not found."
    );

    let internal = AppError::InternalServerError;
    assert_eq!(internal.status_code(), 500);
    assert_eq!(
        internal.client_message().as_str(),
        "An unexpected error occurred."
    );
}

#[test]
fn validation_checks_title_presence_by_byte_length() {
    let ok = CreateTodo {
        title: "x".to_string(),
        description: None,
    };
    assert!(validate_create(&ok).is_ok());

    let empty = CreateTodo {
        title: String::new(),
        description: Some("detail".to_string()),
    };
    assert!(matches!(
        validate_create(&empty).unwrap_err(),
        AppError::ValidationError(_)
    ));

    let absent_title = UpdateTodo {
        title: None,
        description: None,
        completed: None,
    };
    assert!(validate_update(&absent_title).is_ok());

    let empty_title = UpdateTodo {
        title: Some(String::new()),
        description: None,
        completed: None,
    };
    assert!(matches!(
        validate_update(&empty_title).unwrap_err(),
        AppError::ValidationError(_)
    ));
}

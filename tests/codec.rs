use qa_store::error::{
    classify_storage_error, storage_failure, translate_storage_error, APIError, DbError,
    HandlerError, FOREIGN_KEY_VIOLATION, INTERNAL_ERROR_MESSAGE,
};
use qa_store::ident::{is_canonical_text, CanonicalId};

#[test]
fn parses_canonical_identifier() {
    let id = CanonicalId::parse("11111111-1111-1111-1111-111111111111").unwrap();
    assert_eq!(id.value, 0x11111111_1111_1111_1111_111111111111u128);
}

#[test]
fn parses_upper_case_digits() {
    let id = CanonicalId::parse("ABCDEF01-2345-6789-ABCD-EF0123456789").unwrap();
    assert_eq!(id.value, 0xabcdef01_2345_6789_abcd_ef0123456789u128);
}

#[test]
fn text_is_lower_case_canonical() {
    let id = CanonicalId { value: 0xabcdef01_2345_6789_abcd_ef0123456789u128 };
    assert_eq!(id.to_text(), "abcdef01-2345-6789-abcd-ef0123456789");
    assert_eq!(CanonicalId::parse(&id.to_text()).unwrap(), id);
}

#[test]
fn rejects_malformed_identifiers() {
    let bad = [
        "",
        "1",
        "11111111-1111-1111-1111-11111111111",
        "11111111-1111-1111-1111-1111111111111",
        "11111111111111111111111111111111",
        "{11111111-1111-1111-1111-111111111111}",
        "urn:uuid:11111111-1111-1111-1111-111111111111",
        "1111111g-1111-1111-1111-111111111111",
        "11111111+1111-1111-1111-111111111111",
        "111111111-111-1111-1111-111111111111",
        "not-a-uuid",
    ];
    for s in bad {
        assert!(!is_canonical_text(s));
        let e = CanonicalId::parse(s).unwrap_err();
        assert_eq!(e.raw, s);
    }
}

#[test]
fn foreign_key_code_is_constraint_violation() {
    let e = classify_storage_error(Some(FOREIGN_KEY_VIOLATION), "fk".to_string());
    assert_eq!(e, DbError::ConstraintViolation("fk".to_string()));
}

#[test]
fn other_codes_are_storage_failures() {
    let e = classify_storage_error(Some("23505"), "dup".to_string());
    assert_eq!(e, DbError::StorageFailure("dup".to_string()));
    let e = classify_storage_error(None, "gone".to_string());
    assert_eq!(e, DbError::StorageFailure("gone".to_string()));
}

#[test]
fn non_database_error_is_storage_failure() {
    let e = translate_storage_error(&sqlx::Error::RowNotFound);
    match e {
        DbError::StorageFailure(d) => assert!(!d.is_empty()),
        other => panic!("unexpected {:?}", other),
    }
}

#[test]
fn store_errors_collapse_to_two_classes() {
    assert_eq!(
        HandlerError::from_store(DbError::InvalidIdentifier("x".to_string())),
        HandlerError::BadRequest("x".to_string())
    );
    assert_eq!(
        HandlerError::from_store(DbError::ConstraintViolation("c".to_string())),
        HandlerError::InternalError(INTERNAL_ERROR_MESSAGE.to_string())
    );
    assert_eq!(
        HandlerError::from_store(DbError::StorageFailure("connection refused".to_string())),
        HandlerError::InternalError(INTERNAL_ERROR_MESSAGE.to_string())
    );
}

#[test]
fn storage_cause_is_not_shown_at_the_boundary() {
    let e = storage_failure(&sqlx::Error::RowNotFound);
    let detail = match &e {
        DbError::StorageFailure(d) => d.clone(),
        other => panic!("unexpected {:?}", other),
    };
    assert!(!detail.is_empty());
    match HandlerError::from_store(e) {
        HandlerError::InternalError(m) => assert!(!m.contains(&detail)),
        other => panic!("unexpected {:?}", other),
    }
}

#[test]
fn api_error_status_codes() {
    let bad = APIError::from(HandlerError::BadRequest("b".to_string()));
    assert_eq!(bad, APIError::BadRequest("b".to_string()));
    assert_eq!(bad.status(), 400);
    let internal = APIError::from(HandlerError::InternalError("i".to_string()));
    assert_eq!(internal, APIError::InternalError("i".to_string()));
    assert_eq!(internal.status(), 500);
}

use directory_domain::common::error::{
    AppError, ErrorArgs, ErrorCause, ErrorData, INTERNAL_ERROR_CODE,
};
use directory_domain::presentation::error_handler::{
    error_response, get_error_json_response, status_code,
};

fn all_kinds(code: &str) -> Vec<AppError> {
    vec![
        AppError::NotFound(ErrorData::new(code, "m")),
        AppError::Internal(ErrorData::new(code, "m")),
        AppError::IllegalArgument(ErrorData::new(code, "m")),
        AppError::Unauthorized(ErrorData::new(code, "m")),
        AppError::UnprocessableEntity(ErrorData::new(code, "m")),
        AppError::Database(ErrorData::new(code, "m")),
        AppError::Validation(ErrorData::new(code, "m")),
        AppError::Service(ErrorData::new(code, "m")),
    ]
}

#[test]
fn error_data_is_built_step_by_step() {
    let data = ErrorData::new("some-code", "some message");
    assert_eq!(data.code, "some-code");
    assert_eq!(data.message, "some message");
    assert!(data.args.is_none());
    assert!(data.cause.is_none());

    let mut args = ErrorArgs::new();
    args.insert("id".to_string(), "42".to_string());
    let data = data.with_args(args).with_cause(Some(ErrorCause::Opaque("disk full".to_string())));
    assert_eq!(data.code, "some-code");
    assert_eq!(data.args.as_ref().unwrap().get("id"), Some("42".to_string()));
    match data.cause.as_deref() {
        Some(ErrorCause::Opaque(text)) => assert_eq!(text, "disk full"),
        other => panic!("expected an opaque cause, got: {:?}", other),
    }
    let data = data.with_cause(None);
    assert!(data.cause.is_none());
    assert!(data.args.is_some());
}

#[test]
fn error_args_are_a_map_that_keeps_the_order_of_names() {
    let mut args = ErrorArgs::new();
    assert_eq!(args.len(), 0);
    assert_eq!(args.get("a"), None);
    args.insert("a".to_string(), "1".to_string());
    args.insert("b".to_string(), "2".to_string());
    args.insert("c".to_string(), "3".to_string());
    assert_eq!(args.len(), 3);
    args.insert("b".to_string(), "two".to_string());
    assert_eq!(args.len(), 3);
    assert_eq!(args.get("a"), Some("1".to_string()));
    assert_eq!(args.get("b"), Some("two".to_string()));
    assert_eq!(args.get("c"), Some("3".to_string()));
    assert_eq!(args.get("d"), None);
    assert_eq!(args.get(""), None);
    assert_eq!(
        args.entries(),
        vec![
            ("a".to_string(), "1".to_string()),
            ("b".to_string(), "two".to_string()),
            ("c".to_string(), "3".to_string()),
        ]
    );
    assert_eq!(args.clone().entries(), args.entries());
}

#[test]
fn failures_describe_themselves_in_one_line() {
    let plain = ErrorData::new("invalid-phone", "Invalid or unsupported phone format");
    assert_eq!(
        plain.describe(),
        "Error: invalid-phone, Message: Invalid or unsupported phone format, Arguments None"
    );
    let mut args = ErrorArgs::new();
    let empty = ErrorData::new("c", "m").with_args(args.clone());
    assert_eq!(empty.describe(), "Error: c, Message: m, Arguments Some({})");
    args.insert("id".to_string(), "abc".to_string());
    let one = ErrorData::new("invalid-uuid", "Invalid UUID").with_args(args.clone());
    assert_eq!(
        one.describe(),
        "Error: invalid-uuid, Message: Invalid UUID, Arguments Some({\"id\": \"abc\"})"
    );
    args.insert("why".to_string(), "short".to_string());
    let two = AppError::Validation(ErrorData::new("c", "m").with_args(args));
    assert_eq!(
        two.describe(),
        "Error: c, Message: m, Arguments Some({\"id\": \"abc\", \"why\": \"short\"})"
    );
}

#[test]
fn a_domain_failure_comes_through_conversion_unchanged() {
    for (i, error) in all_kinds("kept").into_iter().enumerate() {
        let converted = AppError::from(ErrorCause::Domain(error.duplicate()));
        assert_eq!(
            std::mem::discriminant(&converted),
            std::mem::discriminant(&error),
            "kind {}",
            i
        );
        assert_eq!(converted.data().code, "kept");
        assert_eq!(converted.data().message, "m");
        assert!(converted.cause().is_none());
    }
}

#[test]
fn any_other_failure_becomes_the_cause_of_an_internal_one() {
    let converted = AppError::from(ErrorCause::Opaque("connection reset".to_string()));
    match &converted {
        AppError::Internal(data) => {
            assert_eq!(data.code, INTERNAL_ERROR_CODE);
            assert_eq!(data.code, "internal");
            assert_eq!(data.message, "internal error");
            assert!(data.args.is_none());
        }
        other => panic!("expected Internal error, got: {:?}", other),
    }
    match converted.cause() {
        Some(ErrorCause::Opaque(text)) => assert_eq!(text, "connection reset"),
        other => panic!("expected an opaque cause, got: {:?}", other),
    }
}

#[test]
fn a_chain_of_causes_can_be_walked() {
    let inner = AppError::Database(ErrorData::new("internal", "database error"));
    let outer = AppError::Service(
        ErrorData::new("svc", "service failed").with_cause(Some(ErrorCause::Domain(inner))),
    );
    let copy = outer.clone();
    match copy.cause() {
        Some(ErrorCause::Domain(AppError::Database(data))) => {
            assert_eq!(data.message, "database error");
        }
        other => panic!("expected a domain cause, got: {:?}", other),
    }
    match copy.cause().map(|c| c.clone()) {
        Some(cause) => match AppError::from(cause) {
            AppError::Database(data) => assert_eq!(data.code, "internal"),
            other => panic!("expected Database error, got: {:?}", other),
        },
        None => panic!("expected a cause"),
    }
}

#[test]
fn failed_checks_of_a_request_become_a_validation_failure() {
    let mut errors = validator::ValidationErrors::new();
    errors.add("name", validator::ValidationError::new("length"));
    let error = AppError::from_validation_errors(&errors);
    match &error {
        AppError::Validation(data) => {
            assert_eq!(data.code, "internal");
            assert_eq!(data.message, "validation error");
            assert!(data.args.is_none());
        }
        other => panic!("expected Validation error, got: {:?}", other),
    }
    match error.cause() {
        Some(ErrorCause::Opaque(text)) => {
            assert_eq!(text, &errors.to_string());
            assert!(text.contains("name"));
        }
        other => panic!("expected an opaque cause, got: {:?}", other),
    }
}

#[test]
fn each_kind_of_failure_has_its_status() {
    let expected = [404u16, 500, 400, 401, 422, 500, 400, 500];
    for (error, status) in all_kinds("c").into_iter().zip(expected) {
        assert_eq!(status_code(&error), status);
        let body = error_response(error);
        assert_eq!(body.status_code, status);
        assert_eq!(body.code, "c");
        assert_eq!(body.description, "m");
        assert!(body.arguments.is_none());
    }
}

#[test]
fn the_body_of_a_report_takes_code_message_and_arguments() {
    let mut args = ErrorArgs::new();
    args.insert("id".to_string(), "x".to_string());
    let data = ErrorData::new("invalid-uuid", "Invalid UUID")
        .with_args(args)
        .with_cause(Some(ErrorCause::Opaque("hidden".to_string())));
    let body = get_error_json_response(400, data);
    assert_eq!(body.status_code, 400);
    assert_eq!(body.code, "invalid-uuid");
    assert_eq!(body.description, "Invalid UUID");
    assert_eq!(body.arguments.unwrap().get("id"), Some("x".to_string()));
}

use svc_result::contracts::v1::{DecodeError, ErrorContext, Message, Message2};

#[test]
fn parse_valid_encoded_message1_string_properly() {
    let status: u16 = 404;
    let timestamp: &str = "12341234";
    let service: &str = "foo_service";
    let message: &str = "sample_message";

    let input = r#"{
        "httpStatus": 404,
        "timestamp": "12341234",
        "service": "foo_service",
        "message": "sample_message"
    }"#;

    match Message::from_json_str(input) {
        Err(err) => panic!("Error parsing: {:?}", err),
        Ok(actual) => {
            assert_eq!(status, actual.http_status);
            assert_eq!(timestamp, actual.timestamp);
            assert_eq!(service, actual.service);
            assert_eq!(message, actual.message);
        }
    }
}

#[test]
fn parse_valid_encoded_message2_string_properly() {
    let requested: &str = "sample_resource";
    let status: u16 = 404;
    let message: &str = "sample_message";

    let input = r#"{
        "pages": { "first": "/items?page=1", "last": "/items?page=9" },
        "objects": ["thing_one", "thing_two"],
        "errors": [
            {
                "requested": "sample_resource",
                "httpStatus": 404,
                "message": "sample_message"
            }
        ]
    }"#;

    match Message2::from_json_str(input) {
        Err(err) => panic!("Error parsing: {:?}", err),
        Ok(actual) => {
            assert_eq!(requested, actual.errors[0].requested);
            assert_eq!(status, actual.errors[0].http_status);
            assert_eq!(message, actual.errors[0].message);
        }
    }
}

#[test]
fn message_accepts_the_snake_case_spelling_identically() {
    let camel = r#"{"httpStatus": 404, "timestamp": "t", "service": "s", "message": "m"}"#;
    let snake = r#"{"http_status": 404, "timestamp": "t", "service": "s", "message": "m"}"#;
    let from_camel = Message::from_json_str(camel).unwrap();
    let from_snake = Message::from_json_str(snake).unwrap();
    assert_eq!(from_camel.http_status, from_snake.http_status);
    assert_eq!(from_camel.timestamp, from_snake.timestamp);
    assert_eq!(from_camel.service, from_snake.service);
    assert_eq!(from_camel.message, from_snake.message);
}

#[test]
fn message_refuses_both_spellings_at_once() {
    let input = r#"{
        "http_status": 404,
        "httpStatus": 500,
        "timestamp": "t",
        "service": "s",
        "message": "m"
    }"#;
    assert_eq!(Err(DecodeError::Shape), Message::from_json_str(input).map(|_| ()));
}

#[test]
fn message_refuses_a_missing_field() {
    let input = r#"{"httpStatus": 404, "timestamp": "t", "service": "s"}"#;
    assert_eq!(Err(DecodeError::Shape), Message::from_json_str(input).map(|_| ()));
}

#[test]
fn message_refuses_a_status_out_of_range() {
    let input = r#"{"httpStatus": 65536, "timestamp": "t", "service": "s", "message": "m"}"#;
    assert_eq!(Err(DecodeError::Shape), Message::from_json_str(input).map(|_| ()));
}

#[test]
fn message_refuses_a_field_of_the_wrong_kind() {
    let input = r#"{"httpStatus": "404", "timestamp": "t", "service": "s", "message": "m"}"#;
    assert_eq!(Err(DecodeError::Shape), Message::from_json_str(input).map(|_| ()));
}

#[test]
fn message_reports_invalid_json_as_syntax() {
    let input = "{ not json";
    assert_eq!(Err(DecodeError::Syntax), Message::from_json_str(input).map(|_| ()));
}

#[test]
fn message2_recovers_pages_and_objects() {
    let input = r#"{
        "pages": { "first": "/a", "next": "/b" },
        "objects": ["x", "y", "z"],
        "errors": []
    }"#;
    let actual = Message2::from_json_str(input).unwrap();
    assert_eq!(vec!["x", "y", "z"], actual.objects);
    assert!(actual.errors.is_empty());
    let mut pages = actual.pages;
    pages.sort();
    assert_eq!(
        vec![
            (String::from("first"), String::from("/a")),
            (String::from("next"), String::from("/b")),
        ],
        pages
    );
}

#[test]
fn message2_refuses_a_page_that_is_not_text() {
    let input = r#"{"pages": {"first": 1}, "objects": [], "errors": []}"#;
    assert_eq!(Err(DecodeError::Shape), Message2::from_json_str(input).map(|_| ()));
}

#[test]
fn message2_refuses_a_malformed_error_entry() {
    let input = r#"{
        "pages": {},
        "objects": [],
        "errors": [{"requested": "r", "message": "m"}]
    }"#;
    assert_eq!(Err(DecodeError::Shape), Message2::from_json_str(input).map(|_| ()));
}

#[test]
fn error_context_accepts_either_status_spelling() {
    let camel = r#"{"requested": "r", "httpStatus": 410, "message": "gone"}"#;
    let snake = r#"{"requested": "r", "http_status": 410, "message": "gone"}"#;
    let v_camel: serde_json::Value = serde_json::from_str(camel).unwrap();
    let v_snake: serde_json::Value = serde_json::from_str(snake).unwrap();
    let from_camel = ErrorContext::from_value(&v_camel).unwrap();
    let from_snake = ErrorContext::from_value(&v_snake).unwrap();
    assert_eq!(410, from_camel.http_status);
    assert_eq!(from_camel.http_status, from_snake.http_status);
    assert_eq!(from_camel.requested, from_snake.requested);
    assert_eq!(from_camel.message, from_snake.message);
}

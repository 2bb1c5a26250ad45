// What a reply means: the error taxonomy and the plain fetch.

use octocrab::dispatch::{classify, get, reject, rejection_with, settle, Reply, Response, StatusClass};
use octocrab::error::Error;

fn respond(status: u16, body: &str) -> Reply {
    Reply::Received(Response { status, etag: None, next: None, body: body.as_bytes().to_vec() })
}

fn decode_number(body: &Vec<u8>) -> Option<u64> {
    std::str::from_utf8(body).ok()?.trim().parse::<u64>().ok()
}

fn decode_numbers(body: &Vec<u8>) -> Option<Vec<u64>> {
    serde_json::from_slice::<Vec<u64>>(body).ok()
}

fn never(_body: &Vec<u8>) -> Option<u64> {
    panic!("the body must not be decoded")
}

#[test]
fn status_classes() {
    assert_eq!(classify(200, false), StatusClass::Success);
    assert_eq!(classify(204, true), StatusClass::Success);
    assert_eq!(classify(299, false), StatusClass::Success);
    assert_eq!(classify(199, false), StatusClass::Failure);
    assert_eq!(classify(300, false), StatusClass::Failure);
    assert_eq!(classify(304, true), StatusClass::NotModified);
    assert_eq!(classify(304, false), StatusClass::Failure);
    assert_eq!(classify(404, false), StatusClass::NotFound);
    assert_eq!(classify(404, true), StatusClass::NotFound);
    assert_eq!(classify(400, false), StatusClass::Failure);
    assert_eq!(classify(403, true), StatusClass::Failure);
    assert_eq!(classify(499, false), StatusClass::Failure);
    assert_eq!(classify(500, false), StatusClass::Failure);
    assert_eq!(classify(599, false), StatusClass::Failure);
}

#[test]
fn no_response_is_a_transport_error() {
    let result: Result<u64, Error> = get(&Reply::Failed, never);
    assert_eq!(result, Err(Error::Transport));
}

#[test]
fn success_returns_what_the_body_decodes_to() {
    let result: Result<u64, Error> = get(&respond(200, "42"), decode_number);
    assert_eq!(result, Ok(42));
    let result: Result<u64, Error> = get(&respond(201, " 7 "), decode_number);
    assert_eq!(result, Ok(7));
}

#[test]
fn success_with_an_empty_list_is_an_empty_sequence() {
    let result: Result<Vec<u64>, Error> = get(&respond(200, "[]"), decode_numbers);
    assert_eq!(result, Ok(Vec::new()));
    let result: Result<Vec<u64>, Error> = get(&respond(200, "[3, 1, 2]"), decode_numbers);
    assert_eq!(result, Ok(vec![3, 1, 2]));
}

#[test]
fn success_with_a_body_of_another_shape_is_a_serialization_error() {
    let result: Result<u64, Error> = get(&respond(200, "forty-two"), decode_number);
    assert_eq!(result, Err(Error::Serialization { body_len: 9 }));
    let result: Result<Vec<u64>, Error> = get(&respond(200, ""), decode_numbers);
    assert_eq!(result, Err(Error::Serialization { body_len: 0 }));
}

#[test]
fn not_found_is_reported_as_such_and_the_body_is_not_decoded() {
    let result: Result<u64, Error> = get(&respond(404, "42"), never);
    assert_eq!(result, Err(Error::NotFound));
    let error = result.unwrap_err();
    assert!(error.is_not_found());
    assert_eq!(error.status(), Some(404));
}

#[test]
fn other_statuses_carry_their_number_and_the_message() {
    let body = r#"{"message": "Validation Failed", "documentation_url": "https://docs.example.org"}"#;
    let result: Result<u64, Error> = get(&respond(422, body), never);
    assert_eq!(
        result,
        Err(Error::Api { status: 422, message: "Validation Failed".to_string() })
    );
    let result: Result<u64, Error> = get(&respond(500, r#"{"message": "boom"}"#), never);
    assert_eq!(result, Err(Error::Api { status: 500, message: "boom".to_string() }));
    let error = result.unwrap_err();
    assert!(!error.is_not_found());
    assert_eq!(error.status(), Some(500));
}

#[test]
fn message_is_empty_where_the_body_gives_none() {
    assert_eq!(reject(403, &Vec::new()), Error::Api { status: 403, message: String::new() });
    assert_eq!(
        reject(403, &b"<html>Forbidden</html>".to_vec()),
        Error::Api { status: 403, message: String::new() }
    );
    assert_eq!(
        reject(403, &br#"{"error": "nope"}"#.to_vec()),
        Error::Api { status: 403, message: String::new() }
    );
    assert_eq!(
        reject(403, &br#"{"message": 17}"#.to_vec()),
        Error::Api { status: 403, message: String::new() }
    );
    assert_eq!(
        reject(403, &br#"["message", "in a list"]"#.to_vec()),
        Error::Api { status: 403, message: String::new() }
    );
    assert_eq!(
        reject(502, &br#"{"message": "bad gateway"}"#.to_vec()),
        Error::Api { status: 502, message: "bad gateway".to_string() }
    );
}

#[test]
fn not_found_ignores_the_body() {
    assert_eq!(reject(404, &br#"{"message": "Not Found"}"#.to_vec()), Error::NotFound);
    assert_eq!(rejection_with(404, Some("Not Found".to_string())), Error::NotFound);
}

#[test]
fn rejection_from_a_given_message() {
    assert_eq!(
        rejection_with(409, Some("conflict".to_string())),
        Error::Api { status: 409, message: "conflict".to_string() }
    );
    assert_eq!(rejection_with(409, None), Error::Api { status: 409, message: String::new() });
}

#[test]
fn not_modified_without_a_tag_is_no_success() {
    let result: Result<u64, Error> = get(&respond(304, ""), never);
    assert_eq!(result, Err(Error::Api { status: 304, message: String::new() }));
}

#[test]
fn settle_keeps_the_value_or_the_length() {
    assert_eq!(settle(3, Some(5u64)), Ok(5));
    assert_eq!(settle::<u64>(3, None), Err(Error::Serialization { body_len: 3 }));
}

#[test]
fn transport_and_serialization_have_no_status() {
    assert_eq!(Error::Transport.status(), None);
    assert_eq!(Error::Serialization { body_len: 1 }.status(), None);
    assert!(!Error::Transport.is_not_found());
}

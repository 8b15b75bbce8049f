use gcp_auth::error::Error;
use gcp_auth::time::Timestamp;
use gcp_auth::util::{response_body, token_from_response, token_from_response_at, HttpStatus};

fn status(code: u16) -> HttpStatus {
    HttpStatus::from_u16(code).unwrap()
}

fn unavailable(message: &str) -> Result<Vec<u8>, Error> {
    Err(Error::ServerUnavailable(String::from(message)))
}

#[test]
fn status_is_a_number_of_three_digits() {
    assert_eq!(HttpStatus::from_u16(0), None);
    assert_eq!(HttpStatus::from_u16(99), None);
    assert_eq!(HttpStatus::from_u16(1000), None);
    assert_eq!(HttpStatus::from_u16(u16::MAX), None);
    assert_eq!(status(100).as_u16(), 100);
    assert_eq!(status(200).as_u16(), 200);
    assert_eq!(status(999).as_u16(), 999);
}

#[test]
fn success_is_two_hundred_to_two_ninety_nine() {
    assert!(!status(100).is_success());
    assert!(!status(199).is_success());
    assert!(status(200).is_success());
    assert!(status(204).is_success());
    assert!(status(299).is_success());
    assert!(!status(300).is_success());
    assert!(!status(404).is_success());
    assert!(!status(999).is_success());
}

#[test]
fn body_of_a_successful_response_is_handed_on() {
    assert_eq!(response_body(status(200), Ok(vec![1, 2, 3])), Ok(vec![1, 2, 3]));
    assert_eq!(response_body(status(299), Ok(vec![])), Ok(vec![]));
    assert_eq!(response_body(status(204), Ok(b"{}".to_vec())), Ok(b"{}".to_vec()));
}

#[test]
fn status_outside_success_is_server_unavailable() {
    assert_eq!(
        response_body(status(404), Ok(b"secret body".to_vec())),
        unavailable("Server responded with error 404 Not Found")
    );
    assert_eq!(
        response_body(status(500), Ok(vec![])),
        unavailable("Server responded with error 500 Internal Server Error")
    );
    assert_eq!(
        response_body(status(199), Ok(vec![])),
        unavailable("Server responded with error 199 <unknown status code>")
    );
    assert_eq!(
        response_body(status(300), Ok(vec![])),
        unavailable("Server responded with error 300 Multiple Choices")
    );
    assert_eq!(
        response_body(status(999), Ok(vec![])),
        unavailable("Server responded with error 999 <unknown status code>")
    );
}

#[test]
fn server_error_says_nothing_of_the_body() {
    match response_body(status(403), Ok(b"token=abc123".to_vec())) {
        Err(Error::ServerUnavailable(message)) => {
            assert_eq!(message, "Server responded with error 403 Forbidden");
            assert!(!message.contains("abc123"));
        }
        other => panic!("unexpected: {:?}", other),
    }
}

#[test]
fn transport_failure_is_a_connection_error() {
    assert_eq!(
        response_body(status(200), Err(String::from("connection reset"))),
        Err(Error::ConnectionError(String::from("connection reset")))
    );
    assert_eq!(
        response_body(status(404), Err(String::from("timed out"))),
        Err(Error::ConnectionError(String::from("timed out")))
    );
    assert_eq!(
        response_body(status(500), Err(String::new())),
        Err(Error::ConnectionError(String::new()))
    );
}

#[test]
fn token_is_decoded_from_a_successful_response() {
    let now = Timestamp::after_epoch(1_000, 0);
    let body = br#"{"access_token":"abc123","expires_in":100}"#.to_vec();
    let token = token_from_response_at(status(200), Ok(body), now).unwrap();
    assert_eq!(token.secret(), "abc123");
    assert_eq!(token.expires_at(), Timestamp::after_epoch(1_100, 0));
}

#[test]
fn token_from_a_response_counts_from_the_clock() {
    let body = br#"{"access_token":"abc123","expires_in":3600}"#.to_vec();
    let before = Timestamp::now();
    let token = token_from_response(status(200), Ok(body)).unwrap();
    let after = Timestamp::now();
    assert_eq!(token.secret(), "abc123");
    assert!(before.plus_secs(3_600) <= token.expires_at());
    assert!(token.expires_at() <= after.plus_secs(3_600));
}

#[test]
fn response_without_a_token_fails() {
    let now = Timestamp::after_epoch(1_000, 0);
    let payload = || br#"{"access_token":"abc123","expires_in":100}"#.to_vec();
    assert_eq!(
        token_from_response_at(status(200), Ok(b"<html>".to_vec()), now).err(),
        Some(Error::ParsingError)
    );
    assert_eq!(
        token_from_response_at(status(200), Ok(vec![]), now).err(),
        Some(Error::ParsingError)
    );
    assert_eq!(
        token_from_response_at(status(401), Ok(payload()), now).err(),
        Some(Error::ServerUnavailable(String::from(
            "Server responded with error 401 Unauthorized"
        )))
    );
    assert_eq!(
        token_from_response_at(status(200), Err(String::from("broken pipe")), now).err(),
        Some(Error::ConnectionError(String::from("broken pipe")))
    );
    assert_eq!(
        token_from_response(status(503), Ok(payload())).err(),
        Some(Error::ServerUnavailable(String::from(
            "Server responded with error 503 Service Unavailable"
        )))
    );
}

#[test]
fn every_status_has_its_message() {
    for code in 0..=u16::MAX {
        match HttpStatus::from_u16(code) {
            None => assert!(code < 100 || code > 999),
            Some(made) => {
                assert!((100..=999).contains(&code));
                assert_eq!(made.as_u16(), code);
                assert_eq!(made.is_success(), (200..300).contains(&code));
                match response_body(made, Ok(vec![code as u8])) {
                    Ok(body) => {
                        assert!(made.is_success());
                        assert_eq!(body, vec![code as u8]);
                    }
                    Err(Error::ServerUnavailable(message)) => {
                        assert!(!made.is_success());
                        let start = format!("Server responded with error {} ", code);
                        assert!(message.starts_with(&start));
                        assert!(message.len() > start.len());
                    }
                    Err(other) => panic!("unexpected error for {}: {:?}", code, other),
                }
            }
        }
    }
}

#[test]
fn server_error_shows_number_space_and_reason() {
    for (code, reason) in [
        (100, "Continue"),
        (301, "Moved Permanently"),
        (404, "Not Found"),
        (418, "I'm a teapot"),
        (429, "Too Many Requests"),
        (599, "<unknown status code>"),
    ] {
        assert_eq!(
            response_body(status(code), Ok(vec![])),
            unavailable(&format!("Server responded with error {} {}", code, reason))
        );
    }
}

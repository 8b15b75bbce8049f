//! What a completed HTTP exchange yields: its body, or the error to report.

use crate::error::Error;
use crate::text::decimal;
use crate::time::Timestamp;
use crate::types::{decodes_to, occurs_in, token_in, Token};
use hyper::StatusCode;
use vstd::prelude::*;
use vstd::string::*;

verus! {

/// The reason phrase that `http`'s `StatusCode` prints behind the number of
/// the status `code`: the one that the crate's table has for it, or the
/// crate's words for a status that it does not know.
pub uninterp spec fn status_reason(code: int) -> Seq<char>;

/// How the status `code` is shown: its number in decimal, a space, and its
/// reason phrase.
pub open spec fn status_display(code: int) -> Seq<char> {
    decimal(code as nat) + " "@ + status_reason(code)
}

/// The message of the error for a response whose status is `code`.
pub open spec fn server_error_message(code: int) -> Seq<char> {
    "Server responded with error "@ + status_display(code)
}

/// The message of the error for a response carries the status: the number of
/// the status, in decimal, stands in it.
pub proof fn server_error_carries_status(status: HttpStatus)
    ensures
        occurs_in(decimal(status@ as nat), server_error_message(status@)),
{
    let number = decimal(status@ as nat);
    let message = server_error_message(status@);
    let at = "Server responded with error "@.len() as int;
    assert(message.subrange(at, at + number.len()) =~= number);
}

/// The status code of an HTTP response: a number from 100 to 999.
#[derive(Clone, Copy, Debug, PartialEq, Eq)]
pub struct HttpStatus {
    code: u16,
}

impl View for HttpStatus {
    type V = int;

    closed spec fn view(&self) -> int {
        self.code as int
    }
}

impl HttpStatus {
    #[verifier::type_invariant]
    spec fn in_range(self) -> bool {
        100 <= self.code <= 999
    }

    /// Whether the status is in the success range, 200 to 299.
    pub open spec fn spec_is_success(&self) -> bool {
        200 <= self@ < 300
    }

    /// The status with the number `code`, if that is from 100 to 999.
    pub fn from_u16(code: u16) -> (status: Option<HttpStatus>)
        ensures
            status is Some == (100 <= code <= 999),
            status matches Some(made) ==> made@ == code,
    {
        if 100 <= code && code <= 999 {
            Some(HttpStatus { code })
        } else {
            None
        }
    }

    /// The number of the status.
    pub fn as_u16(&self) -> (code: u16)
        ensures
            code == self@,
            100 <= code <= 999,
    {
        proof {
            use_type_invariant(self);
        }
        self.code
    }

    /// Whether the status is in the success range, 200 to 299.
    pub fn is_success(&self) -> (success: bool)
        ensures
            success == self.spec_is_success(),
    {
        200 <= self.code && self.code < 300
    }
}

/// What [`response_body`] makes of an exchange.
pub open spec fn checked_body(status: HttpStatus, body: Result<Vec<u8>, String>, checked: Result<
    Vec<u8>,
    Error,
>) -> bool {
    match body {
        Err(message) => checked == Err::<Vec<u8>, Error>(Error::ConnectionError(message)),
        Ok(bytes) => if status.spec_is_success() {
            checked == Ok::<Vec<u8>, Error>(bytes)
        } else {
            checked matches Err(Error::ServerUnavailable(message)) && message@
                == server_error_message(status@)
        },
    }
}

/// Checks a completed exchange: the status of the response, and its body or
/// the message of the transport that failed to deliver it.
///
/// A transport failure is a `ConnectionError` with the transport's message.
/// Otherwise a status outside the success range is `ServerUnavailable`, with
/// a message that carries the status and nothing of the body. Otherwise the
/// body is handed on, to be decoded.
pub fn response_body(status: HttpStatus, body: Result<Vec<u8>, String>) -> (checked: Result<
    Vec<u8>,
    Error,
>)
    ensures
        checked_body(status, body, checked),
{
    match body {
        Err(message) => Err(Error::ConnectionError(message)),
        Ok(bytes) => {
            if status.is_success() {
                Ok(bytes)
            } else {
                let shown = match status_text(status.as_u16()) {
                    Some(text) => text,
                    None => String::new(),
                };
                let message = "Server responded with error ".to_owned().concat(shown.as_str());
                Err(Error::ServerUnavailable(message))
            }
        },
    }
}

/// What [`token_from_response_at`] makes of an exchange at `now`.
pub open spec fn decoded_token(
    status: HttpStatus,
    body: Result<Vec<u8>, String>,
    now: int,
    decoded: Result<Token, Error>,
) -> bool {
    match body {
        Err(message) => decoded == Err::<Token, Error>(Error::ConnectionError(message)),
        Ok(bytes) => if status.spec_is_success() {
            decodes_to(token_in(bytes@, now), decoded)
        } else {
            decoded matches Err(Error::ServerUnavailable(message)) && message@
                == server_error_message(status@)
        },
    }
}

/// Decodes the token that a completed exchange brought, read at `now`.
///
/// The exchange is checked as [`response_body`] checks it. A body that is not
/// a token payload is a `ParsingError`, which says nothing of the body.
pub fn token_from_response_at(status: HttpStatus, body: Result<Vec<u8>, String>, now: Timestamp) -> (decoded:
    Result<Token, Error>)
    requires
        now.in_clock_range(),
    ensures
        decoded_token(status, body, now@, decoded),
{
    match response_body(status, body) {
        Ok(bytes) => Token::from_json_at(bytes.as_slice(), now),
        Err(error) => Err(error),
    }
}

/// Decodes the token that a completed exchange brought. The seconds until
/// expiry count from the present instant, read from the system clock at this
/// call.
pub fn token_from_response(status: HttpStatus, body: Result<Vec<u8>, String>) -> (decoded: Result<
    Token,
    Error,
>)
    ensures
        exists|now: Timestamp| #[trigger]
            now.in_clock_range() && decoded_token(status, body, now@, decoded),
{
    let now = Timestamp::now();
    token_from_response_at(status, body, now)
}

/// Makes an `http::StatusCode` of `code` with `StatusCode::from_u16`, which
/// takes the numbers from 100 to 999 and no others, and prints it with the
/// crate's `Display`: the number in decimal, a space, and the reason phrase.
#[verifier::external_body]
fn status_text(code: u16) -> (text: Option<String>)
    ensures
        text is Some == (100 <= code <= 999),
        text matches Some(shown) ==> shown@ == decimal(code as nat) + " "@ + status_reason(
            code as int,
        ),
{
    match StatusCode::from_u16(code) {
        Ok(status) => Some(status.to_string()),
        Err(_) => None,
    }
}

} // verus!

//! Small pieces of HTTP shared by the flows: status classes, the bearer
//! authorization value and a plain `200 OK` answer.

use vstd::prelude::*;
use vstd::string::StringExecFns;
use crate::text::{decimal, push_decimal};

verus! {

/// `StatusCode::is_success`: a 2xx status.
pub open spec fn is_success_status(code: u16) -> bool {
    200 <= code < 300
}

/// `StatusCode::is_client_error`: a 4xx status.
pub open spec fn is_client_error_status(code: u16) -> bool {
    400 <= code < 500
}

/// Every status from 400 to 499, and no other, is a client error (so every
/// 4xx reply leads to a fresh token and a new request); every status from 200
/// to 299, and no other, is a success.
pub proof fn law_status_classes(code: u16)
    ensures
        is_client_error_status(code) <==> (400 <= code && code <= 499),
        is_success_status(code) <==> (200 <= code && code <= 299),
        !(is_client_error_status(code) && is_success_status(code)),
{
}

/// Whether `code` is a 2xx status.
pub fn is_success(code: u16) -> (r: bool)
    ensures
        r == is_success_status(code),
{
    200 <= code && code < 300
}

/// Whether `code` is a 4xx status.
pub fn is_client_error(code: u16) -> (r: bool)
    ensures
        r == is_client_error_status(code),
{
    400 <= code && code < 500
}

/// The `Authorization` header value for an access token.
pub fn bearer(token: &str) -> (value: String)
    ensures
        value@ == "Bearer "@ + token@,
{
    let mut value = String::new();
    value.append("Bearer ");
    value.append(token);
    value
}

/// A complete `200 OK` response whose `Content-Length` is the body's size in
/// UTF-8 bytes.
pub open spec fn ok_response(body: &str) -> Seq<char> {
    "HTTP/1.1 200 OK\r\nContent-Length: "@ + decimal(body.len() as nat) + "\r\n\r\n"@
        + body@
}

/// Builds a complete `200 OK` response carrying `body`.
pub fn http_ok_response(body: &str) -> (response: String)
    ensures
        response@ == ok_response(body),
{
    let mut response = String::new();
    response.append("HTTP/1.1 200 OK\r\nContent-Length: ");
    let n = body.len();
    push_decimal(&mut response, n as u64);
    response.append("\r\n\r\n");
    response.append(body);
    response
}

/// What the browser shows once the redirect has been received.
pub fn redirect_received_response() -> (response: String)
    ensures
        response@ == ok_response("You can close this tab now, received."),
{
    http_ok_response("You can close this tab now, received.")
}

} // verus!

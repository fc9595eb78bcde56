use channel_points::http::{bearer, http_ok_response, is_client_error, is_success, redirect_received_response};
use channel_points::redirect::{authorization_code_from_request, RedirectError};

#[test]
fn redirect_yields_code_for_expected_state() {
    let line = "GET /?code=abc123&scope=channel%3Aread%3Aredemptions&state=xyz HTTP/1.1\r\n";
    assert_eq!(authorization_code_from_request(line, "xyz"), Ok("abc123".to_string()));
}

#[test]
fn redirect_with_other_state_is_refused() {
    let line = "GET /?code=abc&state=evil HTTP/1.1\r\n";
    assert_eq!(authorization_code_from_request(line, "xyz"), Err(RedirectError::StateMismatch));
    let no_state = "GET /?code=abc HTTP/1.1";
    assert_eq!(authorization_code_from_request(no_state, "xyz"), Err(RedirectError::StateMismatch));
    assert_eq!(authorization_code_from_request(no_state, ""), Ok("abc".to_string()));
}

#[test]
fn malformed_request_lines() {
    assert_eq!(authorization_code_from_request("", "s"), Err(RedirectError::MalformedRequestLine));
    assert_eq!(authorization_code_from_request("GET", "s"), Err(RedirectError::MalformedRequestLine));
    assert_eq!(authorization_code_from_request("  GET \r\n", "s"), Err(RedirectError::MalformedRequestLine));
    assert_eq!(authorization_code_from_request("GET /callback HTTP/1.1", "s"), Err(RedirectError::MissingQuery));
    assert_eq!(authorization_code_from_request("GET /?code HTTP/1.1", "s"), Err(RedirectError::MalformedParameter));
    assert_eq!(authorization_code_from_request("GET /?code=a& HTTP/1.1", "s"), Err(RedirectError::MalformedParameter));
    assert_eq!(authorization_code_from_request("GET /? HTTP/1.1", "s"), Err(RedirectError::MalformedParameter));
}

#[test]
fn last_parameters_win() {
    let line = "GET /?code=a&code=b&statefoo=s1&state=s2&x=y HTTP/1.1";
    assert_eq!(authorization_code_from_request(line, "s2"), Ok("b".to_string()));
    let prefixed = "GET /?state_x=s&code=c=d HTTP/1.1";
    assert_eq!(authorization_code_from_request(prefixed, "s"), Ok("c=d".to_string()));
}

#[test]
fn unicode_white_space_separates_words() {
    let line = "GET\u{3000}/?code=c&state=s\u{a0}HTTP/1.1";
    assert_eq!(authorization_code_from_request(line, "s"), Ok("c".to_string()));
    let tabbed = "\tGET\t\t/x?state=s&code=é\n";
    assert_eq!(authorization_code_from_request(tabbed, "s"), Ok("é".to_string()));
}

#[test]
fn ok_response_counts_bytes() {
    assert_eq!(http_ok_response(""), "HTTP/1.1 200 OK\r\nContent-Length: 0\r\n\r\n");
    assert_eq!(http_ok_response("héllo"), "HTTP/1.1 200 OK\r\nContent-Length: 6\r\n\r\nhéllo");
    assert_eq!(
        redirect_received_response(),
        "HTTP/1.1 200 OK\r\nContent-Length: 37\r\n\r\nYou can close this tab now, received."
    );
}

#[test]
fn bearer_value() {
    assert_eq!(bearer("tok"), "Bearer tok");
    assert_eq!(bearer(""), "Bearer ");
}

#[test]
fn status_classes() {
    assert!(!is_success(199));
    assert!(is_success(200));
    assert!(is_success(299));
    assert!(!is_success(300));
    assert!(!is_client_error(399));
    assert!(is_client_error(400));
    assert!(is_client_error(499));
    assert!(!is_client_error(500));
}

use httpcore::request::{Method, ParseError, Request};

fn parse_ok(input: &[u8]) -> Request {
    match Request::parse(input) {
        Ok(req) => req,
        Err(_) => panic!("expected the request to parse"),
    }
}

#[test]
fn parses_method_and_path() {
    let req = parse_ok(b"GET /index.html HTTP/1.1\r\nHost: localhost:4221\r\n\r\n");
    assert_eq!(req.method, Method::Get);
    assert_eq!(req.path, b"/index.html".to_vec());
}

#[test]
fn parses_post_method() {
    let req = parse_ok(b"POST /files/a.txt HTTP/1.1\r\n\r\ndata");
    assert_eq!(req.method, Method::Post);
    assert_eq!(req.path, b"/files/a.txt".to_vec());
}

#[test]
fn parses_without_any_headers() {
    let req = parse_ok(b"GET / HTTP/1.1");
    assert_eq!(req.method, Method::Get);
    assert_eq!(req.path, b"/".to_vec());
    assert!(req.user_agent.is_none());
    assert!(req.body.is_none());
}

#[test]
fn recognizes_user_agent_header() {
    let req = parse_ok(b"GET /user-agent HTTP/1.1\r\nUser-Agent: foobar/1.2.3\r\n\r\n");
    assert_eq!(req.user_agent, Some(b"foobar/1.2.3".to_vec()));
}

#[test]
fn header_keys_match_without_regard_to_case() {
    let req = parse_ok(b"GET / HTTP/1.1\r\nUSER-AGENT: curl\r\ncOnTeNt-TyPe: text/plain\r\n\r\n");
    assert_eq!(req.user_agent, Some(b"curl".to_vec()));
    assert_eq!(req.content_type, Some(b"text/plain".to_vec()));
}

#[test]
fn last_header_occurrence_wins() {
    let req = parse_ok(b"GET / HTTP/1.1\r\nUser-Agent: first\r\nUser-Agent: second\r\n\r\n");
    assert_eq!(req.user_agent, Some(b"second".to_vec()));
}

#[test]
fn header_value_keeps_later_separators() {
    let req = parse_ok(b"GET / HTTP/1.1\r\nUser-Agent: a: b\r\n\r\n");
    assert_eq!(req.user_agent, Some(b"a: b".to_vec()));
}

#[test]
fn lines_without_separator_are_skipped() {
    let req = parse_ok(b"GET / HTTP/1.1\r\nnonsense line\r\nUser-Agent: ok\r\n\r\n");
    assert_eq!(req.user_agent, Some(b"ok".to_vec()));
}

#[test]
fn unrecognized_headers_are_ignored() {
    let req = parse_ok(b"GET / HTTP/1.1\r\nHost: localhost\r\nAccept: */*\r\n\r\n");
    assert!(req.user_agent.is_none());
    assert!(req.accept_encoding.is_none());
    assert!(req.content_encoding.is_none());
    assert!(req.content_type.is_none());
    assert!(req.content_length.is_none());
}

#[test]
fn parses_content_length_number() {
    let req = parse_ok(b"POST /files/x HTTP/1.1\r\nContent-Length: 42\r\n\r\nbody");
    assert_eq!(req.content_length, Some(42));
}

#[test]
fn ignores_content_length_that_is_not_a_number() {
    let req = parse_ok(b"POST /files/x HTTP/1.1\r\nContent-Length: ten\r\n\r\nbody");
    assert!(req.content_length.is_none());
}

#[test]
fn ignores_content_length_too_large_for_usize() {
    let req = parse_ok(b"POST / HTTP/1.1\r\nContent-Length: 99999999999999999999999999\r\n\r\nx");
    assert!(req.content_length.is_none());
}

#[test]
fn body_is_everything_after_the_separator() {
    let req = parse_ok(b"POST /files/x HTTP/1.1\r\n\r\nline one\r\nline two");
    assert_eq!(req.body, Some(b"line one\r\nline two".to_vec()));
}

#[test]
fn empty_body_is_absent() {
    let req = parse_ok(b"GET / HTTP/1.1\r\nHost: x\r\n\r\n");
    assert!(req.body.is_none());
}

#[test]
fn missing_separator_means_no_body() {
    let req = parse_ok(b"GET / HTTP/1.1\r\nHost: x");
    assert!(req.body.is_none());
}

#[test]
fn one_token_request_line_is_malformed() {
    match Request::parse(b"GET\r\n\r\n") {
        Err(ParseError::MalformedRequest) => {},
        _ => panic!("expected a malformed-request failure"),
    }
}

#[test]
fn empty_input_is_malformed() {
    match Request::parse(b"") {
        Err(ParseError::MalformedRequest) => {},
        _ => panic!("expected a malformed-request failure"),
    }
}

#[test]
fn unknown_method_is_rejected_with_its_token() {
    match Request::parse(b"DELETE /x HTTP/1.1\r\n\r\n") {
        Err(ParseError::UnsupportedMethod(token)) => {
            assert_eq!(token, b"DELETE".to_vec());
        },
        _ => panic!("expected an unsupported-method failure"),
    }
}

#[test]
fn parse_error_messages() {
    let malformed = ParseError::MalformedRequest;
    assert_eq!(malformed.message(), b"malformed request line".to_vec());
    let unsupported = ParseError::UnsupportedMethod(b"PUT".to_vec());
    assert_eq!(unsupported.message(), b"unknown method: PUT".to_vec());
}

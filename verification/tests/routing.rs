use httpcore::handler::handle_request;
use httpcore::request::{Method, Request};
use httpcore::response::{Response, ResponseBody, Status};
use httpcore::router::{Action, file_read_response, file_write_response, route};

fn plain_request(method: Method, path: &[u8]) -> Request {
    Request {
        method,
        path: path.to_vec(),
        user_agent: None,
        accept_encoding: None,
        content_encoding: None,
        content_type: None,
        content_length: None,
        body: None,
    }
}

fn respond_bytes(action: Action) -> Vec<u8> {
    match action {
        Action::Respond(r) => r.serialize(),
        _ => panic!("expected a direct response"),
    }
}

#[test]
fn echo_scenario_exact_bytes() {
    let action = handle_request(b"GET /echo/hello HTTP/1.1");
    assert_eq!(
        respond_bytes(action),
        b"HTTP/1.1 200 OK\r\nContent-Type: text/plain\r\nContent-Length: 5\r\n\r\nhello".to_vec()
    );
}

#[test]
fn echo_advertises_accept_encoding_back() {
    let action = handle_request(b"GET /echo/abc HTTP/1.1\r\nAccept-Encoding: gzip\r\n\r\n");
    assert_eq!(
        respond_bytes(action),
        b"HTTP/1.1 200 OK\r\nContent-Encoding: gzip\r\nContent-Type: text/plain\r\nContent-Length: 3\r\n\r\nabc"
            .to_vec()
    );
}

#[test]
fn echo_of_empty_message() {
    let action = handle_request(b"GET /echo/ HTTP/1.1");
    assert_eq!(
        respond_bytes(action),
        b"HTTP/1.1 200 OK\r\nContent-Type: text/plain\r\nContent-Length: 0\r\n\r\n".to_vec()
    );
}

#[test]
fn echo_without_second_segment_is_not_found() {
    let action = handle_request(b"GET /echo HTTP/1.1");
    assert_eq!(respond_bytes(action), b"HTTP/1.1 404 Not Found\r\n\r\n".to_vec());
}

#[test]
fn root_answers_ok_with_empty_body() {
    let action = handle_request(b"GET / HTTP/1.1\r\nHost: localhost\r\n\r\n");
    assert_eq!(respond_bytes(action), b"HTTP/1.1 200 OK\r\n\r\n".to_vec());
}

#[test]
fn unknown_route_is_not_found() {
    let action = handle_request(b"GET /nonexistent/route HTTP/1.1\r\n\r\n");
    assert_eq!(respond_bytes(action), b"HTTP/1.1 404 Not Found\r\n\r\n".to_vec());
}

#[test]
fn path_without_leading_slash_is_not_found() {
    let action = handle_request(b"GET nonsense HTTP/1.1");
    assert_eq!(respond_bytes(action), b"HTTP/1.1 404 Not Found\r\n\r\n".to_vec());
}

#[test]
fn user_agent_is_reflected() {
    let action = handle_request(b"GET /user-agent HTTP/1.1\r\nUser-Agent: foobar/1.2.3\r\n\r\n");
    assert_eq!(
        respond_bytes(action),
        b"HTTP/1.1 200 OK\r\nContent-Type: text/plain\r\nContent-Length: 12\r\n\r\nfoobar/1.2.3"
            .to_vec()
    );
}

#[test]
fn user_agent_missing_is_not_found() {
    let action = handle_request(b"GET /user-agent HTTP/1.1\r\nHost: x\r\n\r\n");
    assert_eq!(respond_bytes(action), b"HTTP/1.1 404 Not Found\r\n\r\n".to_vec());
}

#[test]
fn bad_request_carries_diagnostic_text() {
    let action = handle_request(b"PATCH /x HTTP/1.1\r\n\r\n");
    assert_eq!(
        respond_bytes(action),
        b"HTTP/1.1 400 Bad Request\r\n\r\nunknown method: PATCH".to_vec()
    );
}

#[test]
fn malformed_request_line_answers_bad_request() {
    let action = handle_request(b"GET");
    assert_eq!(
        respond_bytes(action),
        b"HTTP/1.1 400 Bad Request\r\n\r\nmalformed request line".to_vec()
    );
}

#[test]
fn files_get_becomes_a_read() {
    let action = handle_request(b"GET /files/note.txt HTTP/1.1\r\n\r\n");
    match action {
        Action::ReadFile { name } => assert_eq!(name, b"note.txt".to_vec()),
        _ => panic!("expected a file read"),
    }
}

#[test]
fn files_post_scenario_writes_body_and_answers_created() {
    let action = handle_request(
        b"POST /files/note.txt HTTP/1.1\r\nContent-Length: 8\r\n\r\nhi there",
    );
    match action {
        Action::WriteFile { name, content } => {
            assert_eq!(name, b"note.txt".to_vec());
            assert_eq!(content, b"hi there".to_vec());
        },
        _ => panic!("expected a file write"),
    }
    let created = file_write_response(true);
    assert_eq!(created.serialize(), b"HTTP/1.1 201 Created\r\n\r\n".to_vec());
}

#[test]
fn files_post_truncates_at_first_carriage_return() {
    let req = Request {
        body: Some(b"first\rsecond".to_vec()),
        ..plain_request(Method::Post, b"/files/note.txt")
    };
    match route(&req) {
        Action::WriteFile { content, .. } => assert_eq!(content, b"first".to_vec()),
        _ => panic!("expected a file write"),
    }
}

#[test]
fn files_post_without_body_is_not_found() {
    let action = handle_request(b"POST /files/note.txt HTTP/1.1\r\n\r\n");
    assert_eq!(respond_bytes(action), b"HTTP/1.1 404 Not Found\r\n\r\n".to_vec());
}

#[test]
fn files_without_second_segment_is_not_found() {
    let action = handle_request(b"GET /files HTTP/1.1");
    assert_eq!(respond_bytes(action), b"HTTP/1.1 404 Not Found\r\n\r\n".to_vec());
}

#[test]
fn file_round_trip_through_read_response() {
    let body: Vec<u8> = b"hi there".to_vec();
    let action = handle_request(b"POST /files/data.bin HTTP/1.1\r\n\r\nhi there");
    let written = match action {
        Action::WriteFile { content, .. } => content,
        _ => panic!("expected a file write"),
    };
    assert_eq!(written, body);
    let response = file_read_response(Some(written));
    assert_eq!(
        response.serialize(),
        b"HTTP/1.1 200 OK\r\nContent-Type: application/octet-stream\r\nContent-Length: 8\r\n\r\nhi there"
            .to_vec()
    );
}

#[test]
fn missing_file_answers_not_found_with_empty_body() {
    let response = file_read_response(None);
    assert_eq!(response.serialize(), b"HTTP/1.1 404 Not Found\r\n\r\n".to_vec());
}

#[test]
fn failed_write_answers_not_found() {
    let response = file_write_response(false);
    assert_eq!(response.serialize(), b"HTTP/1.1 404 Not Found\r\n\r\n".to_vec());
}

#[test]
fn content_length_counts_bytes_in_long_bodies() {
    let text: Vec<u8> = vec![b'x'; 1234];
    let response = Response {
        status: Status::Okay,
        body: ResponseBody::Text { content: text.clone(), encoding: None },
    };
    let bytes = response.serialize();
    let expected_prefix =
        b"HTTP/1.1 200 OK\r\nContent-Type: text/plain\r\nContent-Length: 1234\r\n\r\n".to_vec();
    assert_eq!(&bytes[..expected_prefix.len()], &expected_prefix[..]);
    assert_eq!(&bytes[expected_prefix.len()..], &text[..]);
}

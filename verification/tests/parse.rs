use request_line::method::Method;
use request_line::request::{ParseError, Request};

fn parse_ok(buf: &[u8]) -> Request {
    match Request::try_from(buf) {
        Ok(r) => r,
        Err(e) => panic!("expected a successful parse, got {}", e.message()),
    }
}

fn parse_err(buf: &[u8]) -> ParseError {
    match Request::try_from(buf) {
        Ok(_) => panic!("expected a failing parse"),
        Err(e) => e,
    }
}

#[test]
fn plain_path_no_query() {
    let r = parse_ok(b"GET /index.html HTTP/1.1\r\n");
    assert_eq!(r.method(), Method::GET);
    assert_eq!(r.path(), "/index.html");
    assert!(r.query_string().is_none());
}

#[test]
fn single_query_split() {
    let r = parse_ok(b"POST /form?x=1 HTTP/1.1\r\n");
    assert_eq!(r.method(), Method::POST);
    assert_eq!(r.path(), "/form");
    assert_eq!(r.query_string(), Some("x=1"));
}

#[test]
fn multiple_question_marks_split_at_first() {
    let r = parse_ok(b"GET /search?name=abc?sort=1 HTTP/1.1\r\n");
    assert_eq!(r.method(), Method::GET);
    assert_eq!(r.path(), "/search");
    assert_eq!(r.query_string(), Some("name=abc?sort=1"));
}

#[test]
fn empty_query_string() {
    let r = parse_ok(b"GET /p? HTTP/1.1\r\n");
    assert_eq!(r.path(), "/p");
    assert_eq!(r.query_string(), Some(""));
}

#[test]
fn empty_path_token() {
    let r = parse_ok(b"GET  HTTP/1.1\r\n");
    assert_eq!(r.path(), "");
    assert!(r.query_string().is_none());
}

#[test]
fn reparsing_yields_equal_request() {
    let buf: &[u8] = b"PUT /a?b=c HTTP/1.1\r\n";
    let r1 = parse_ok(buf);
    let r2 = parse_ok(buf);
    assert_eq!(r1.method(), r2.method());
    assert_eq!(r1.path(), r2.path());
    assert_eq!(r1.query_string(), r2.query_string());
}

#[test]
fn wrong_protocol_version() {
    assert_eq!(parse_err(b"GET / HTTP/1.0\r\n"), ParseError::InvalidProtocol);
}

#[test]
fn wrong_protocol_token() {
    assert_eq!(parse_err(b"GET / http/1.1\r\n"), ParseError::InvalidProtocol);
}

#[test]
fn invalid_utf8_in_path() {
    assert_eq!(parse_err(b"GET /\xff HTTP/1.1\r\n"), ParseError::InvalidEncoding);
}

#[test]
fn invalid_utf8_at_start() {
    assert_eq!(parse_err(b"\xc3GET / HTTP/1.1\r\n"), ParseError::InvalidEncoding);
}

#[test]
fn unrecognized_method() {
    assert_eq!(parse_err(b"FOO / HTTP/1.1\r\n"), ParseError::InvalidEncoding);
}

#[test]
fn lowercase_method_rejected() {
    assert_eq!(parse_err(b"get / HTTP/1.1\r\n"), ParseError::InvalidEncoding);
}

#[test]
fn missing_protocol_token() {
    assert_eq!(parse_err(b"GET /\r\n"), ParseError::InvalidRequest);
}

#[test]
fn no_delimiter_at_all() {
    assert_eq!(parse_err(b"GETX"), ParseError::InvalidRequest);
}

#[test]
fn empty_input() {
    assert_eq!(parse_err(b""), ParseError::InvalidRequest);
}

#[test]
fn protocol_without_trailing_delimiter() {
    // The third token must itself end at a delimiter; a line without the
    // final carriage return fails structurally.
    assert_eq!(parse_err(b"GET / HTTP/1.1"), ParseError::InvalidRequest);
}

#[test]
fn multibyte_characters_in_path_and_query() {
    let line = "GET /caf\u{e9}?q=\u{fc} HTTP/1.1\r\n";
    let r = parse_ok(line.as_bytes());
    assert_eq!(r.path(), "/caf\u{e9}");
    assert_eq!(r.query_string(), Some("q=\u{fc}"));
}

#[test]
fn error_messages() {
    assert_eq!(ParseError::InvalidRequest.message(), "InvalidRequest");
    assert_eq!(ParseError::InvalidEncoding.message(), "InvalidEncoding ");
    assert_eq!(ParseError::InvalidProtocol.message(), "InvalidEncoding ");
    assert_eq!(ParseError::InvalidMethod.message(), "InvalidEncoding ");
}

#[test]
fn parse_error_from_method_error() {
    let e = match Method::parse("NOPE") {
        Err(me) => ParseError::from(me),
        Ok(_) => panic!("expected a method failure"),
    };
    assert_eq!(e, ParseError::InvalidEncoding);
}

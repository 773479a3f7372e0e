use linda::method::Method;
use linda::request::{get_request_line, parse_request_line, ParseError, Request};

#[test]
fn parse_valid_line_round_trips() {
    let req = parse_request_line("GET /index.html HTTP/1.1").unwrap();
    assert_eq!(*req.method(), Method::Get);
    assert_eq!(req.uri(), "/index.html");
    assert_eq!(req.version(), "HTTP/1.1");
    // printing and parsing again yields the same components
    let line = req.to_line();
    assert_eq!(line, "GET /index.html HTTP/1.1\r\n");
    let again = parse_request_line(&line).unwrap();
    assert_eq!(again, req);
}

#[test]
fn parse_every_method_in_vocabulary() {
    let methods = [
        ("OPTIONS", Method::Options),
        ("GET", Method::Get),
        ("HEAD", Method::Head),
        ("POST", Method::Post),
        ("PUT", Method::Put),
        ("DELETE", Method::Delete),
        ("TRACE", Method::Trace),
        ("CONNECT", Method::Connect),
    ];
    for (token, expected) in methods {
        let line = format!("{} /p HTTP/1.1", token);
        let req = parse_request_line(&line).unwrap();
        assert_eq!(*req.method(), expected);
        assert_eq!(req.uri(), "/p");
        assert_eq!(req.version(), "HTTP/1.1");
    }
}

#[test]
fn parse_invalid_method_carries_token() {
    let err = parse_request_line("FETCH /p HTTP/1.1").unwrap_err();
    assert_eq!(err, ParseError::InvalidMethod(String::from("FETCH")));
    // lowercase is not in the vocabulary either
    let err = parse_request_line("get /p HTTP/1.1").unwrap_err();
    assert_eq!(err, ParseError::InvalidMethod(String::from("get")));
}

#[test]
fn parse_unsupported_version_carries_token() {
    let err = parse_request_line("GET /p HTTP/1.0").unwrap_err();
    assert_eq!(err, ParseError::UnsupportedVersion(String::from("HTTP/1.0")));
    let err = parse_request_line("GET /p http/1.1").unwrap_err();
    assert_eq!(err, ParseError::UnsupportedVersion(String::from("http/1.1")));
}

#[test]
fn parse_missing_fields() {
    assert_eq!(parse_request_line("").unwrap_err(), ParseError::MethodMissing);
    assert_eq!(parse_request_line("   ").unwrap_err(), ParseError::MethodMissing);
    assert_eq!(parse_request_line("GET").unwrap_err(), ParseError::UriMissing);
    assert_eq!(parse_request_line("GET /p").unwrap_err(), ParseError::VersionMissing);
}

#[test]
fn parse_splits_on_whitespace_runs_and_ignores_extra_tokens() {
    let req = parse_request_line("GET   /p \t HTTP/1.1 ignored").unwrap();
    assert_eq!(*req.method(), Method::Get);
    assert_eq!(req.uri(), "/p");
    assert_eq!(req.version(), "HTTP/1.1");
}

#[test]
fn request_line_from_buffer() {
    let buffer = b"GET / HTTP/1.1\r\nHost: example\r\n\r\n";
    let line = get_request_line(buffer).unwrap();
    assert_eq!(line, "GET / HTTP/1.1");
}

#[test]
fn request_line_without_newline_is_whole_buffer() {
    let line = get_request_line(b"GET / HTTP/1.1").unwrap();
    assert_eq!(line, "GET / HTTP/1.1");
}

#[test]
fn request_line_of_empty_buffer_is_missing() {
    let err = get_request_line(b"").unwrap_err();
    assert_eq!(err, ParseError::RequestLineMissing);
}

#[test]
fn request_line_with_non_ascii_byte_is_an_encoding_error() {
    let err = get_request_line(&[b'G', 0xC3, 0xA9, b'\r', b'\n']).unwrap_err();
    assert_eq!(err, ParseError::InvalidEncoding);
    // bytes after the first line are not inspected
    let line = get_request_line(&[b'G', b'\r', b'\n', 0xFF]).unwrap();
    assert_eq!(line, "G");
}

#[test]
fn request_builder_defaults_and_setters() {
    let mut req = Request::new();
    assert_eq!(*req.method(), Method::Get);
    assert_eq!(req.uri(), "/");
    assert_eq!(req.version(), "HTTP/1.1");

    req.method_mut("POST").unwrap();
    assert_eq!(*req.method(), Method::Post);
    let err = req.method_mut("NONE").unwrap_err();
    assert_eq!(err.token(), "NONE");
    assert_eq!(*req.method(), Method::Post);

    req.uri_mut("/style.css");
    assert_eq!(req.uri(), "/style.css");

    req.version_mut("HTTP/1.1").unwrap();
    let err = req.version_mut("HTTP/2").unwrap_err();
    assert_eq!(err, ParseError::UnsupportedVersion(String::from("HTTP/2")));
    assert_eq!(req.version(), "HTTP/1.1");
}

#[test]
fn parse_errors_print_their_diagnostic_text() {
    let err = parse_request_line("FETCH /p HTTP/1.1").unwrap_err();
    assert_eq!(err.message(), "Invalid HTTP method: FETCH");
    let err = parse_request_line("GET /p HTTP/1.0").unwrap_err();
    assert_eq!(err.message(), "HTTP version HTTP/1.0 is not supported.");
    let err = parse_request_line("").unwrap_err();
    assert_eq!(err.message(), "Method not specified");
    let err = get_request_line(b"").unwrap_err();
    assert_eq!(err.message(), "Request-Line not found");
}

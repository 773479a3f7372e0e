use linda::content::ContentType;
use linda::response::{Headers, Response};
use linda::status::StatusCode;

fn build(status: StatusCode, body: Option<Vec<u8>>, content_type: Option<ContentType>) -> Response {
    Response { status, body, headers: Headers { content_type } }
}

#[test]
fn new_response_is_a_bare_ok() {
    let resp = Response::new();
    assert_eq!(resp.status, StatusCode::OK);
    assert_eq!(resp.body, None);
    assert_eq!(resp.headers.content_type, None);
}

#[test]
fn format_with_content_type_and_body() {
    let resp = build(StatusCode::OK, Some(b"<h1>hi</h1>".to_vec()), Some(ContentType::HTML));
    let wire = resp.format_response();
    assert_eq!(wire, b"HTTP/1.1 200\r\nContent-type: text/html\r\n\r\n<h1>hi</h1>".to_vec());
}

#[test]
fn format_without_content_type_still_closes_the_headers() {
    let resp = build(StatusCode::NOT_IMPLEMENTED, None, None);
    let wire = resp.format_response();
    assert_eq!(wire, b"HTTP/1.1 501\r\n\r\n".to_vec());
}

#[test]
fn format_not_found_with_empty_body() {
    let resp = build(StatusCode::NOT_FOUND, Some(Vec::new()), Some(ContentType::HTML));
    let wire = resp.format_response();
    assert_eq!(wire, b"HTTP/1.1 404\r\nContent-type: text/html\r\n\r\n".to_vec());
}

#[test]
fn format_body_bytes_pass_through_verbatim() {
    let body = vec![0u8, 1, 2, 254, 255];
    let resp = build(StatusCode::OK, Some(body.clone()), Some(ContentType::PNG));
    let wire = resp.format_response();
    let mut expected = b"HTTP/1.1 200\r\nContent-type: image/png\r\n\r\n".to_vec();
    expected.extend_from_slice(&body);
    assert_eq!(wire, expected);
}

#[test]
fn formatting_is_deterministic() {
    let a = build(StatusCode::OK, Some(b"same".to_vec()), Some(ContentType::TEXT));
    let b = build(StatusCode::OK, Some(b"same".to_vec()), Some(ContentType::TEXT));
    assert_eq!(a.format_response(), b.format_response());
    // and formatting the same value twice gives the same bytes
    assert_eq!(a.format_response(), a.format_response());
}

#[test]
fn headers_start_empty() {
    let h = Headers::new();
    assert_eq!(h.content_type, None);
}

use linda::content::ContentType;
use linda::request::{parse_request_line, Request};
use linda::response::{fallback_path, response, target_path, ReadOutcome};
use linda::status::StatusCode;

const ROOT: &str = "/var/www";

fn request(line: &str) -> Request {
    parse_request_line(line).unwrap()
}

#[test]
fn target_path_joins_root_and_uri() {
    assert_eq!(target_path(ROOT, "/hello.html"), "/var/www/hello.html");
    assert_eq!(target_path(ROOT, "/a/b/c.css"), "/var/www/a/b/c.css");
}

#[test]
fn bare_root_uri_serves_the_index_document() {
    assert_eq!(target_path(ROOT, "/"), "/var/www/index.html");
}

#[test]
fn fallback_document_has_a_fixed_location() {
    assert_eq!(fallback_path(ROOT), "/var/www/404.html");
}

#[test]
fn get_existing_html_file() {
    let req = request("GET /hello.html HTTP/1.1");
    let bytes = b"<h1>hello</h1>".to_vec();
    let resp = response(&req, ROOT, ReadOutcome::Success(bytes.clone()), None).unwrap();
    assert_eq!(resp.status, StatusCode::OK);
    assert_eq!(resp.status.code(), 200);
    assert_eq!(resp.headers.content_type, Some(ContentType::HTML));
    assert_eq!(resp.body, Some(bytes));
}

#[test]
fn head_existing_html_file_has_no_body() {
    let req = request("HEAD /hello.html HTTP/1.1");
    let bytes = b"<h1>hello</h1>".to_vec();
    let resp = response(&req, ROOT, ReadOutcome::Success(bytes), None).unwrap();
    assert_eq!(resp.status, StatusCode::OK);
    assert_eq!(resp.headers.content_type, Some(ContentType::HTML));
    assert_eq!(resp.body, None);
}

#[test]
fn get_missing_file_serves_fallback_document() {
    let req = request("GET /gone.html HTTP/1.1");
    let fallback = b"<h1>not found</h1>".to_vec();
    let resp = response(&req, ROOT, ReadOutcome::NotFound, Some(fallback.clone())).unwrap();
    assert_eq!(resp.status, StatusCode::NOT_FOUND);
    assert_eq!(resp.status.code(), 404);
    assert_eq!(resp.headers.content_type, Some(ContentType::HTML));
    assert_eq!(resp.body, Some(fallback));
}

#[test]
fn get_missing_file_without_fallback_has_empty_body() {
    let req = request("GET /gone.html HTTP/1.1");
    let resp = response(&req, ROOT, ReadOutcome::NotFound, None).unwrap();
    assert_eq!(resp.status, StatusCode::NOT_FOUND);
    assert_eq!(resp.headers.content_type, Some(ContentType::HTML));
    assert_eq!(resp.body, Some(Vec::new()));
}

#[test]
fn head_missing_file_is_a_bare_404() {
    let req = request("HEAD /gone.html HTTP/1.1");
    let resp = response(&req, ROOT, ReadOutcome::NotFound, Some(b"nf".to_vec())).unwrap();
    assert_eq!(resp.status, StatusCode::NOT_FOUND);
    assert_eq!(resp.headers.content_type, None);
    assert_eq!(resp.body, None);
}

#[test]
fn unrecognized_extension_fails_resolution_naming_it() {
    let req = request("GET /data.xyz HTTP/1.1");
    let err = response(&req, ROOT, ReadOutcome::Success(b"??".to_vec()), None).unwrap_err();
    assert_eq!(err.token(), "xyz");
}

#[test]
fn extension_is_taken_after_the_last_dot() {
    let req = request("GET /archive.tar.xml HTTP/1.1");
    let resp = response(&req, ROOT, ReadOutcome::Success(b"<x/>".to_vec()), None).unwrap();
    assert_eq!(resp.headers.content_type, Some(ContentType::XML));
}

#[test]
fn path_without_extension_fails_resolution() {
    let req = request("GET /README HTTP/1.1");
    let err = response(&req, ROOT, ReadOutcome::Success(b"hi".to_vec()), None).unwrap_err();
    // no dot anywhere: the whole target path is the candidate extension
    assert_eq!(err.token(), "/var/www/README");
}

#[test]
fn forbidden_file_is_a_bare_403() {
    let req = request("GET /secret.html HTTP/1.1");
    let resp = response(&req, ROOT, ReadOutcome::PermissionDenied, None).unwrap();
    assert_eq!(resp.status, StatusCode::FORBIDDEN);
    assert_eq!(resp.status.code(), 403);
    assert_eq!(resp.headers.content_type, None);
    assert_eq!(resp.body, None);
}

#[test]
fn other_read_failures_are_a_bare_500() {
    let req = request("GET /flaky.html HTTP/1.1");
    let resp = response(&req, ROOT, ReadOutcome::Other, None).unwrap();
    assert_eq!(resp.status, StatusCode::INTERNAL_SERVER_ERROR);
    assert_eq!(resp.status.code(), 500);
    assert_eq!(resp.headers.content_type, None);
    assert_eq!(resp.body, None);
}

#[test]
fn other_methods_are_not_implemented_whatever_the_filesystem_holds() {
    for line in [
        "OPTIONS /p.html HTTP/1.1",
        "POST /p.html HTTP/1.1",
        "PUT /p.html HTTP/1.1",
        "DELETE /p.html HTTP/1.1",
        "TRACE /p.html HTTP/1.1",
        "CONNECT /p.html HTTP/1.1",
    ] {
        let req = request(line);
        // even a readable file does not change the answer
        let resp = response(&req, ROOT, ReadOutcome::Success(b"data".to_vec()), None).unwrap();
        assert_eq!(resp.status, StatusCode::NOT_IMPLEMENTED);
        assert_eq!(resp.status.code(), 501);
        assert_eq!(resp.headers.content_type, None);
        assert_eq!(resp.body, None);
    }
}

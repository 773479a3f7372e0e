use linda::content::ContentType;
use linda::method::Method;
use linda::status::StatusCode;

#[test]
fn method_vocabulary_round_trips() {
    let tokens = ["OPTIONS", "GET", "HEAD", "POST", "PUT", "DELETE", "TRACE", "CONNECT"];
    for token in tokens {
        let m = Method::from_str(token).unwrap();
        assert_eq!(m.as_str(), token);
    }
}

#[test]
fn method_outside_vocabulary_fails_with_token() {
    let err = Method::from_str("PATCH").unwrap_err();
    assert_eq!(err.token(), "PATCH");
    let err = Method::from_str("").unwrap_err();
    assert_eq!(err.token(), "");
}

#[test]
fn method_default_is_get() {
    assert_eq!(Method::default(), Method::Get);
}

#[test]
fn content_type_table() {
    let table = [
        ("css", ContentType::CSS, "text/css"),
        ("gif", ContentType::GIF, "image/gif"),
        ("htm", ContentType::HTML, "text/html"),
        ("html", ContentType::HTML, "text/html"),
        ("jpeg", ContentType::JPEG, "image/jpeg"),
        ("jpg", ContentType::JPEG, "image/jpeg"),
        ("png", ContentType::PNG, "image/png"),
        ("svg", ContentType::SVG, "image/svg+xml"),
        ("txt", ContentType::TEXT, "text/plain"),
        ("xml", ContentType::XML, "application/xml"),
        ("pdf", ContentType::PDF, "application/pdf"),
        ("ico", ContentType::ICO, "image/x-icon"),
    ];
    for (ext, expected, mime) in table {
        let ct = ContentType::from_ext_str(ext).unwrap();
        assert_eq!(ct, expected);
        assert_eq!(ct.as_str(), mime);
    }
}

#[test]
fn unknown_extension_fails_with_token() {
    let err = ContentType::from_ext_str("xyz").unwrap_err();
    assert_eq!(err.token(), "xyz");
    // case matters: the table is lowercase
    let err = ContentType::from_ext_str("HTML").unwrap_err();
    assert_eq!(err.token(), "HTML");
}

#[test]
fn status_codes_render_their_numeric_value() {
    let samples = [
        (StatusCode::CONTINUE, 100, "100"),
        (StatusCode::SWITCHING_PROTOCOLS, 101, "101"),
        (StatusCode::OK, 200, "200"),
        (StatusCode::NO_CONTENT, 204, "204"),
        (StatusCode::MOVED_PERMANENTLY, 301, "301"),
        (StatusCode::TEMPORARY_REDIRECT, 307, "307"),
        (StatusCode::BAD_REQUEST, 400, "400"),
        (StatusCode::FORBIDDEN, 403, "403"),
        (StatusCode::NOT_FOUND, 404, "404"),
        (StatusCode::EXPECTATION_FAILED, 417, "417"),
        (StatusCode::INTERNAL_SERVER_ERROR, 500, "500"),
        (StatusCode::NOT_IMPLEMENTED, 501, "501"),
        (StatusCode::HTTP_VERSION_NOT_SUPPORTED, 505, "505"),
    ];
    for (status, number, text) in samples {
        assert_eq!(status.code(), number);
        assert_eq!(status.code_str(), text);
    }
}

#[test]
fn status_default_is_ok() {
    assert_eq!(StatusCode::default(), StatusCode::OK);
    assert_eq!(StatusCode::default().code(), 200);
}

#[test]
fn vocabulary_errors_print_their_diagnostic_text() {
    let err = Method::from_str("PATCH").unwrap_err();
    assert_eq!(err.message(), "Invalid HTTP method: PATCH");
    let err = ContentType::from_ext_str("xyz").unwrap_err();
    assert_eq!(err.message(), "Invalid Content Type: xyz");
}

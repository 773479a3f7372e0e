//! The HTTP response: resolution of a request against filesystem read
//! outcomes, and formatting of a response into wire bytes.
//!
//! The filesystem itself is a collaborator: whoever owns it reads the target
//! file and hands the outcome in as a plain [`ReadOutcome`] value, so that
//! everything decided here — status, body, content type, wire bytes — is a
//! function of plain values.

use crate::content::{spec_content_of, spec_mime, ContentType, InvalidContentType};
use crate::method::Method;
use crate::request::Request;
use crate::status::{spec_code_str, StatusCode};
use crate::str_eq;
use vstd::prelude::*;
use vstd::utf8::encode_utf8;

verus! {

/// The outcome of asking the filesystem collaborator for a file's bytes.
#[derive(Debug, PartialEq, Eq)]
pub enum ReadOutcome {
    /// The file was read in full.
    Success(Vec<u8>),
    /// The file does not exist.
    NotFound,
    /// The file exists but may not be read.
    PermissionDenied,
    /// Any other I/O failure.
    Other,
}

/// The response headers: only a content type, present only when an entity
/// accompanies the status line.
#[derive(Debug, PartialEq, Eq)]
pub struct Headers {
    pub content_type: Option<ContentType>,
}

impl Headers {
    /// Creates headers with no content type.
    pub fn new() -> (h: Headers)
        ensures
            h.content_type is None,
    {
        Headers { content_type: None }
    }
}

/// An HTTP response: a status, an optional body and an optional content
/// type. Built once per request and then formatted into wire bytes.
#[derive(Debug, PartialEq, Eq)]
pub struct Response {
    pub status: StatusCode,
    pub body: Option<Vec<u8>>,
    pub headers: Headers,
}

/// The filesystem path a request URI resolves to: the document root followed
/// by the URI, with the default index document appended when the URI is the
/// bare root.
pub open spec fn spec_target_path(root: Seq<char>, uri: Seq<char>) -> Seq<char> {
    root + uri + (if uri == "/"@ {
        "index.html"@
    } else {
        Seq::<char>::empty()
    })
}

/// Joins the document root and a request URI into the target path.
pub fn target_path(root: &str, uri: &str) -> (p: String)
    ensures
        p@ == spec_target_path(root@, uri@),
{
    let mut p = root.to_owned();
    p.append(uri);
    if str_eq(uri, "/") {
        p.append("index.html");
    } else {
        proof {
            assert(p@ =~= spec_target_path(root@, uri@));
        }
    }
    p
}

/// The fixed location of the fallback not-found document under a root.
pub fn fallback_path(root: &str) -> (p: String)
    ensures
        p@ == root@ + "/404.html"@,
{
    let mut p = root.to_owned();
    p.append("/404.html");
    p
}

/// The position just before `i` of the last dot at or before it, or -1.
pub open spec fn last_dot_before(s: Seq<char>, i: int) -> int
    decreases i when 0 <= i <= s.len()
{
    if i <= 0 {
        -1
    } else if s[i - 1] == '.' {
        i - 1
    } else {
        last_dot_before(s, i - 1)
    }
}

/// The extension of a path: everything after the last dot, or the whole path
/// when it holds no dot at all.
pub open spec fn spec_ext(s: Seq<char>) -> Seq<char> {
    let d = last_dot_before(s, s.len() as int);
    if d < 0 {
        s
    } else {
        s.subrange(d + 1, s.len() as int)
    }
}

/// Extracts the extension of a path, as [`spec_ext`] describes it.
pub fn file_ext(path: &str) -> (e: String)
    ensures
        e@ == spec_ext(path@),
{
    let n = path.unicode_len();
    let mut i = n;
    while i > 0
        invariant
            0 <= i <= n,
            n as int == path@.len(),
            last_dot_before(path@, n as int) == last_dot_before(path@, i as int),
        decreases i,
    {
        if path.get_char(i - 1) == '.' {
            return path.substring_char(i, n).to_owned();
        }
        i = i - 1;
    }
    path.to_owned()
}

/// What resolving one target path against one read outcome must produce:
/// a successful read serves the bytes with the content type of the path's
/// extension (an unrecognized extension is an error naming it); a missing
/// file is 404, with the fallback document's bytes as an HTML body unless
/// the request was a HEAD; a forbidden file is 403 and any other failure
/// 500, both bare. A HEAD request never carries a body.
pub open spec fn add_file_post(
    path: Seq<char>,
    head: bool,
    contents: ReadOutcome,
    fallback: Option<Vec<u8>>,
    r: Result<Response, InvalidContentType>,
) -> bool {
    match contents {
        ReadOutcome::Success(bytes) => {
            let ext = spec_ext(path);
            match spec_content_of(ext) {
                Some(ct) => {
                    &&& r matches Ok(resp)
                    &&& resp.status == StatusCode::OK
                    &&& resp.headers.content_type == Some(ct)
                    &&& if head {
                        resp.body is None
                    } else {
                        resp.body matches Some(b) && b@ == bytes@
                    }
                },
                None => r matches Err(e) && e.0@ == ext,
            }
        },
        ReadOutcome::NotFound => {
            &&& r matches Ok(resp)
            &&& resp.status == StatusCode::NOT_FOUND
            &&& if head {
                resp.body is None && resp.headers.content_type is None
            } else {
                &&& resp.headers.content_type == Some(ContentType::HTML)
                &&& resp.body matches Some(b) && b@ == (match fallback {
                    Some(f) => f@,
                    None => Seq::<u8>::empty(),
                })
            }
        },
        ReadOutcome::PermissionDenied => {
            &&& r matches Ok(resp)
            &&& resp.status == StatusCode::FORBIDDEN
            &&& resp.body is None
            &&& resp.headers.content_type is None
        },
        ReadOutcome::Other => {
            &&& r matches Ok(resp)
            &&& resp.status == StatusCode::INTERNAL_SERVER_ERROR
            &&& resp.body is None
            &&& resp.headers.content_type is None
        },
    }
}

/// Builds the response for one target file from the outcome of reading it.
/// `fallback` carries the bytes of the fallback not-found document when one
/// exists; it matters only for a missing file on a non-HEAD request.
pub fn add_file(
    path: &str,
    head: bool,
    contents: ReadOutcome,
    fallback: Option<Vec<u8>>,
) -> (r: Result<Response, InvalidContentType>)
    ensures
        add_file_post(path@, head, contents, fallback, r),
{
    let mut response = Response::new();
    match contents {
        ReadOutcome::Success(bytes) => {
            if !head {
                response.body = Some(bytes);
            }
            let ext = file_ext(path);
            match ContentType::from_ext_str(ext.as_str()) {
                Ok(ct) => {
                    response.headers.content_type = Some(ct);
                    Ok(response)
                },
                Err(e) => Err(e),
            }
        },
        ReadOutcome::NotFound => {
            if !head {
                response.body = Some(
                    match fallback {
                        Some(f) => f,
                        None => Vec::new(),
                    },
                );
                response.headers.content_type = Some(ContentType::HTML);
            }
            response.status = StatusCode::NOT_FOUND;
            Ok(response)
        },
        ReadOutcome::PermissionDenied => {
            response.status = StatusCode::FORBIDDEN;
            Ok(response)
        },
        ReadOutcome::Other => {
            response.status = StatusCode::INTERNAL_SERVER_ERROR;
            Ok(response)
        },
    }
}

/// Resolves a request into a response. Only GET and HEAD touch the
/// filesystem: both serve the target path that [`target_path`] computes from
/// the document root, HEAD with the body omitted. Every other method is
/// answered 501 with no body and no content type, whatever the filesystem
/// holds.
pub fn response(
    request: &Request,
    root: &str,
    contents: ReadOutcome,
    fallback: Option<Vec<u8>>,
) -> (r: Result<Response, InvalidContentType>)
    ensures
        match request.method {
            Method::Get => add_file_post(
                spec_target_path(root@, request.uri@),
                false,
                contents,
                fallback,
                r,
            ),
            Method::Head => add_file_post(
                spec_target_path(root@, request.uri@),
                true,
                contents,
                fallback,
                r,
            ),
            _ => {
                &&& r matches Ok(resp)
                &&& resp.status == StatusCode::NOT_IMPLEMENTED
                &&& resp.body is None
                &&& resp.headers.content_type is None
            },
        },
{
    match *request.method() {
        Method::Get => {
            let path = target_path(root, request.uri());
            add_file(path.as_str(), false, contents, fallback)
        },
        Method::Head => {
            let path = target_path(root, request.uri());
            add_file(path.as_str(), true, contents, fallback)
        },
        _ => {
            let mut response = Response::new();
            response.status = StatusCode::NOT_IMPLEMENTED;
            Ok(response)
        },
    }
}

/// The header characters of a response: the status line, a content-type
/// header when one is set, and the blank line that closes the headers. The
/// blank line is always written, so a response with no content type is still
/// a complete header section.
pub open spec fn spec_header_chars(r: Response) -> Seq<char> {
    "HTTP/1.1 "@ + spec_code_str(r.status) + "\r\n"@ + (match r.headers.content_type {
        Some(ct) => "Content-type: "@ + spec_mime(ct) + "\r\n"@,
        None => Seq::<char>::empty(),
    }) + "\r\n"@
}

/// The wire bytes of a response: the UTF-8 bytes of its header characters
/// followed by the body bytes, if any.
pub open spec fn spec_wire_bytes(r: Response) -> Seq<u8> {
    encode_utf8(spec_header_chars(r)) + (match r.body {
        Some(b) => b@,
        None => Seq::<u8>::empty(),
    })
}

impl Response {
    /// Creates a response with the defaults: status `OK`, no body, no
    /// content type.
    pub fn new() -> (r: Response)
        ensures
            r.status == StatusCode::OK,
            r.body is None,
            r.headers.content_type is None,
    {
        Response { status: StatusCode::OK, body: None, headers: Headers::new() }
    }

    /// Formats this response into its wire bytes.
    pub fn format_response(&self) -> (out: Vec<u8>)
        ensures
            out@ == spec_wire_bytes(*self),
    {
        let mut head = String::from_str("HTTP/1.1 ");
        head.append(self.status.code_str());
        head.append("\r\n");
        match &self.headers.content_type {
            Some(ct) => {
                head.append("Content-type: ");
                head.append(ct.as_str());
                head.append("\r\n");
            },
            None => {},
        }
        head.append("\r\n");
        proof {
            assert(head@ =~= spec_header_chars(*self));
        }
        let mut out = head.as_str().as_bytes_vec();
        match &self.body {
            Some(b) => {
                let mut i: usize = 0;
                while i < b.len()
                    invariant
                        0 <= i <= b@.len(),
                        out@ == encode_utf8(spec_header_chars(*self)) + b@.subrange(0, i as int),
                    decreases b@.len() - i,
                {
                    out.push(b[i]);
                    proof {
                        assert(out@ =~= encode_utf8(spec_header_chars(*self)) + b@.subrange(
                            0,
                            i + 1,
                        ));
                    }
                    i = i + 1;
                }
                proof {
                    assert(out@ =~= spec_wire_bytes(*self));
                }
            },
            None => {
                proof {
                    assert(out@ =~= spec_wire_bytes(*self));
                }
            },
        }
        out
    }
}

/// Response formatting is deterministic: two responses with the same status,
/// the same content type and the same body bytes format to the same wire
/// bytes, however their values are otherwise represented.
pub proof fn lemma_format_deterministic(a: Response, b: Response)
    requires
        a.status == b.status,
        a.headers.content_type == b.headers.content_type,
        match (a.body, b.body) {
            (Some(x), Some(y)) => x@ == y@,
            (None, None) => true,
            _ => false,
        },
    ensures
        spec_wire_bytes(a) == spec_wire_bytes(b),
{
    assert(spec_header_chars(a) == spec_header_chars(b));
}

} // verus!

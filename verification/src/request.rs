//! The HTTP request line: extraction from the connection buffer, whitespace
//! tokenization, and the parser that turns a request line into a [`Request`].

use crate::method::{lemma_method_round_trip, spec_method_of, spec_method_str, InvalidMethod, Method};
use crate::str_eq;
use vstd::prelude::*;

verus! {

/// Errors of request-line handling. Parse errors are always recovered at the
/// connection boundary; none of them carries a response.
#[derive(Debug, PartialEq, Eq)]
pub enum ParseError {
    /// The connection buffer was empty, so no request line could be found.
    RequestLineMissing,
    /// The request line holds a byte outside the ASCII range.
    InvalidEncoding,
    /// The request line holds no method token.
    MethodMissing,
    /// The request line holds no URI token.
    UriMissing,
    /// The request line holds no version token.
    VersionMissing,
    /// The method token lies outside the closed vocabulary; carries the token.
    InvalidMethod(String),
    /// The version token is not the single supported literal; carries the token.
    UnsupportedVersion(String),
}

/// The diagnostic text of a parse error.
pub open spec fn spec_parse_error_message(e: ParseError) -> Seq<char> {
    match e {
        ParseError::RequestLineMissing => "Request-Line not found"@,
        ParseError::InvalidEncoding => "Request-Line is not ASCII text"@,
        ParseError::MethodMissing => "Method not specified"@,
        ParseError::UriMissing => "URI not specified"@,
        ParseError::VersionMissing => "HTTP version not specified"@,
        ParseError::InvalidMethod(t) => "Invalid HTTP method: "@ + t@,
        ParseError::UnsupportedVersion(t) => "HTTP version "@ + t@ + " is not supported."@,
    }
}

impl ParseError {
    /// The diagnostic text of this error, naming the offending token where
    /// one exists.
    pub fn message(&self) -> (m: String)
        ensures
            m@ == spec_parse_error_message(*self),
    {
        match self {
            ParseError::RequestLineMissing => String::from_str("Request-Line not found"),
            ParseError::InvalidEncoding => String::from_str("Request-Line is not ASCII text"),
            ParseError::MethodMissing => String::from_str("Method not specified"),
            ParseError::UriMissing => String::from_str("URI not specified"),
            ParseError::VersionMissing => String::from_str("HTTP version not specified"),
            ParseError::InvalidMethod(t) => {
                let mut m = String::from_str("Invalid HTTP method: ");
                m.append(t.as_str());
                m
            },
            ParseError::UnsupportedVersion(t) => {
                let mut m = String::from_str("HTTP version ");
                m.append(t.as_str());
                m.append(" is not supported.");
                m
            },
        }
    }
}

/// ASCII whitespace, as the tokenizer understands it.
pub open spec fn is_space_char(c: char) -> bool {
    c == ' ' || c == '\t' || c == '\n' || c == '\r' || c == '\x0b' || c == '\x0c'
}

fn is_space(c: char) -> (r: bool)
    ensures
        r == is_space_char(c),
{
    c == ' ' || c == '\t' || c == '\n' || c == '\r' || c == '\x0b' || c == '\x0c'
}

/// The first position at or after `i` holding a non-space character, or the end.
pub open spec fn space_end(s: Seq<char>, i: int) -> int
    decreases s.len() - i when 0 <= i <= s.len()
{
    if i == s.len() {
        i
    } else if is_space_char(s[i]) {
        space_end(s, i + 1)
    } else {
        i
    }
}

/// The first position at or after `i` holding a space, or the end.
pub open spec fn token_end(s: Seq<char>, i: int) -> int
    decreases s.len() - i when 0 <= i <= s.len()
{
    if i == s.len() {
        i
    } else if is_space_char(s[i]) {
        i
    } else {
        token_end(s, i + 1)
    }
}

pub proof fn lemma_space_end_bounds(s: Seq<char>, i: int)
    requires
        0 <= i <= s.len(),
    ensures
        i <= space_end(s, i) <= s.len(),
        space_end(s, i) < s.len() ==> !is_space_char(s[space_end(s, i)]),
    decreases s.len() - i,
{
    if i < s.len() && is_space_char(s[i]) {
        lemma_space_end_bounds(s, i + 1);
    }
}

pub proof fn lemma_token_end_bounds(s: Seq<char>, i: int)
    requires
        0 <= i <= s.len(),
    ensures
        i <= token_end(s, i) <= s.len(),
        token_end(s, i) < s.len() ==> is_space_char(s[token_end(s, i)]),
    decreases s.len() - i,
{
    if i < s.len() && !is_space_char(s[i]) {
        lemma_token_end_bounds(s, i + 1);
    }
}

/// `space_end` lands exactly at the end of a run of spaces.
pub proof fn lemma_space_end_run(s: Seq<char>, i: int, k: int)
    requires
        0 <= i <= k <= s.len(),
        forall|j: int| i <= j < k ==> is_space_char(#[trigger] s[j]),
        k == s.len() || !is_space_char(s[k]),
    ensures
        space_end(s, i) == k,
    decreases k - i,
{
    if i < k {
        lemma_space_end_run(s, i + 1, k);
    }
}

/// `token_end` lands exactly at the end of a run of non-spaces.
pub proof fn lemma_token_end_run(s: Seq<char>, i: int, k: int)
    requires
        0 <= i <= k <= s.len(),
        forall|j: int| i <= j < k ==> !is_space_char(#[trigger] s[j]),
        k == s.len() || is_space_char(s[k]),
    ensures
        token_end(s, i) == k,
    decreases k - i,
{
    if i < k {
        lemma_token_end_run(s, i + 1, k);
    }
}

/// The whitespace-separated tokens of `s` from position `i` on: maximal runs
/// of non-space characters, in order.
pub open spec fn spec_tokens_from(s: Seq<char>, i: int) -> Seq<Seq<char>>
    decreases s.len() - i when 0 <= i <= s.len() via spec_tokens_from_decreases
{
    let j = space_end(s, i);
    if j == s.len() {
        Seq::empty()
    } else {
        seq![s.subrange(j, token_end(s, j))] + spec_tokens_from(s, token_end(s, j))
    }
}

#[via_fn]
proof fn spec_tokens_from_decreases(s: Seq<char>, i: int) {
    lemma_space_end_bounds(s, i);
    let j = space_end(s, i);
    if j < s.len() {
        assert(token_end(s, j) == token_end(s, j + 1));
        lemma_token_end_bounds(s, j + 1);
    }
}

/// The whitespace-separated tokens of a whole character sequence.
pub open spec fn spec_tokens(s: Seq<char>) -> Seq<Seq<char>> {
    spec_tokens_from(s, 0)
}

/// Scans the next whitespace-separated token at or after position `from`:
/// `None` when only whitespace remains, otherwise the token together with the
/// position just past it.
fn next_token(s: &str, from: usize) -> (r: Option<(String, usize)>)
    requires
        from as int <= s@.len(),
    ensures
        match r {
            None => spec_tokens_from(s@, from as int) == Seq::<Seq<char>>::empty(),
            Some(te) => {
                &&& te.1 as int <= s@.len()
                &&& spec_tokens_from(s@, from as int) == seq![te.0@] + spec_tokens_from(
                    s@,
                    te.1 as int,
                )
            },
        },
{
    let n = s.unicode_len();
    let mut j = from;
    while j < n && is_space(s.get_char(j))
        invariant
            from <= j <= n,
            n as int == s@.len(),
            space_end(s@, from as int) == space_end(s@, j as int),
        decreases n - j,
    {
        j = j + 1;
    }
    proof {
        assert(space_end(s@, j as int) == j as int);
    }
    if j == n {
        return None;
    }
    let mut k = j;
    while k < n && !is_space(s.get_char(k))
        invariant
            j <= k <= n,
            n as int == s@.len(),
            token_end(s@, j as int) == token_end(s@, k as int),
        decreases n - k,
    {
        k = k + 1;
    }
    proof {
        assert(token_end(s@, k as int) == k as int);
    }
    let tok = s.substring_char(j, k).to_owned();
    Some((tok, k))
}

/// An HTTP request: method, URI and protocol version, as parsed from a
/// request line `Method SP Request-URI SP HTTP-Version CRLF`. The URI is
/// taken verbatim; resolution against the document root happens elsewhere.
#[derive(Debug, PartialEq, Eq)]
pub struct Request {
    pub method: Method,
    pub uri: String,
    pub version: String,
}

impl Request {
    /// The request method.
    pub fn method(&self) -> (m: &Method)
        ensures
            *m == self.method,
    {
        &self.method
    }

    /// The request URI, verbatim as it stood on the request line.
    pub fn uri(&self) -> (u: &str)
        ensures
            u@ == self.uri@,
    {
        self.uri.as_str()
    }

    /// The request protocol version.
    pub fn version(&self) -> (v: &str)
        ensures
            v@ == self.version@,
    {
        self.version.as_str()
    }

    /// Sets the method from a token; a token outside the closed vocabulary
    /// fails and leaves the request unchanged.
    pub fn method_mut(&mut self, method: &str) -> (r: Result<(), InvalidMethod>)
        ensures
            match r {
                Ok(_) => {
                    &&& spec_method_of(method@) == Some(final(self).method)
                    &&& final(self).uri == old(self).uri
                    &&& final(self).version == old(self).version
                },
                Err(e) => {
                    &&& spec_method_of(method@) is None
                    &&& e.0@ == method@
                    &&& *final(self) == *old(self)
                },
            },
    {
        match Method::from_str(method) {
            Ok(m) => {
                self.method = m;
                Ok(())
            },
            Err(e) => Err(e),
        }
    }

    /// Sets the URI verbatim.
    pub fn uri_mut(&mut self, uri: &str)
        ensures
            final(self).uri@ == uri@,
            final(self).method == old(self).method,
            final(self).version == old(self).version,
    {
        self.uri = uri.to_owned();
    }

    /// Sets the version; anything but the single supported literal fails
    /// with an unsupported-version error and leaves the request unchanged.
    pub fn version_mut(&mut self, version: &str) -> (r: Result<(), ParseError>)
        ensures
            match r {
                Ok(_) => {
                    &&& version@ == "HTTP/1.1"@
                    &&& final(self).version@ == version@
                    &&& final(self).method == old(self).method
                    &&& final(self).uri == old(self).uri
                },
                Err(e) => {
                    &&& version@ != "HTTP/1.1"@
                    &&& (e matches ParseError::UnsupportedVersion(t) && t@ == version@)
                    &&& *final(self) == *old(self)
                },
            },
    {
        if str_eq(version, "HTTP/1.1") {
            self.version = version.to_owned();
            Ok(())
        } else {
            Err(ParseError::UnsupportedVersion(version.to_owned()))
        }
    }

    /// Creates a request with the defaults: method `Get`, URI `/`,
    /// version `HTTP/1.1`.
    pub fn new() -> (r: Request)
        ensures
            r.method == Method::Get,
            r.uri@ == "/"@,
            r.version@ == "HTTP/1.1"@,
    {
        Request::default()
    }

    /// The request line this request prints as: method, URI and version
    /// separated by single spaces and closed by CRLF.
    pub fn to_line(&self) -> (line: String)
        ensures
            line@ == spec_request_line(*self),
    {
        let mut line = String::from_str(self.method.as_str());
        line.append(" ");
        line.append(self.uri.as_str());
        line.append(" ");
        line.append(self.version.as_str());
        line.append("\r\n");
        line
    }
}

/// The printed form of a request: `Method SP Request-URI SP HTTP-Version CRLF`.
pub open spec fn spec_request_line(r: Request) -> Seq<char> {
    spec_method_str(r.method) + " "@ + r.uri@ + " "@ + r.version@ + "\r\n"@
}

impl Default for Request {
    /// The default request: method `Get`, URI `/`, version `HTTP/1.1`.
    fn default() -> (r: Request)
        ensures
            r.method == Method::Get,
            r.uri@ == "/"@,
            r.version@ == "HTTP/1.1"@,
    {
        Request {
            method: Method::Get,
            uri: String::from_str("/"),
            version: String::from_str("HTTP/1.1"),
        }
    }
}

/// Parses a request line into a [`Request`]: the line is split on runs of
/// whitespace, the first three tokens are the method, the URI and the
/// version, and tokens past the third are ignored. A missing token, a method
/// outside the closed vocabulary or a version other than `HTTP/1.1` each
/// fail with their own error.
pub fn parse_request_line(request: &str) -> (r: Result<Request, ParseError>)
    ensures
        ({
            let toks = spec_tokens(request@);
            match r {
                Ok(req) => {
                    &&& toks.len() >= 3
                    &&& spec_method_of(toks[0]) == Some(req.method)
                    &&& req.uri@ == toks[1]
                    &&& req.version@ == toks[2]
                    &&& toks[2] == "HTTP/1.1"@
                },
                Err(ParseError::MethodMissing) => toks.len() == 0,
                Err(ParseError::UriMissing) => toks.len() == 1,
                Err(ParseError::VersionMissing) => toks.len() == 2,
                Err(ParseError::InvalidMethod(t)) => {
                    &&& toks.len() >= 3
                    &&& spec_method_of(toks[0]) is None
                    &&& t@ == toks[0]
                },
                Err(ParseError::UnsupportedVersion(t)) => {
                    &&& toks.len() >= 3
                    &&& spec_method_of(toks[0]) is Some
                    &&& toks[2] != "HTTP/1.1"@
                    &&& t@ == toks[2]
                },
                Err(_) => false,
            }
        }),
{
    let (m_tok, p1) = match next_token(request, 0) {
        None => {
            return Err(ParseError::MethodMissing);
        },
        Some(te) => te,
    };
    let (u_tok, p2) = match next_token(request, p1) {
        None => {
            return Err(ParseError::UriMissing);
        },
        Some(te) => te,
    };
    let (v_tok, _p3) = match next_token(request, p2) {
        None => {
            return Err(ParseError::VersionMissing);
        },
        Some(te) => te,
    };
    let mut req = Request::new();
    match req.method_mut(m_tok.as_str()) {
        Ok(_) => {},
        Err(e) => {
            return Err(ParseError::InvalidMethod(e.0));
        },
    }
    req.uri_mut(u_tok.as_str());
    match req.version_mut(v_tok.as_str()) {
        Ok(_) => {},
        Err(e) => {
            return Err(e);
        },
    }
    Ok(req)
}

/// The first position at or after `i` holding a line-feed byte, or the end.
pub open spec fn line_break_from(b: Seq<u8>, i: int) -> int
    decreases b.len() - i when 0 <= i <= b.len()
{
    if i == b.len() {
        i
    } else if b[i] == 10 {
        i
    } else {
        line_break_from(b, i + 1)
    }
}

/// The bytes of the first line of a buffer: everything before the first
/// line-feed byte, with one trailing carriage return stripped.
pub open spec fn spec_request_line_bytes(b: Seq<u8>) -> Seq<u8> {
    let line = b.subrange(0, line_break_from(b, 0));
    if line.len() > 0 && line.last() == 13 {
        line.drop_last()
    } else {
        line
    }
}

/// The characters an ASCII byte sequence decodes to, one per byte.
pub open spec fn ascii_chars_of(b: Seq<u8>) -> Seq<char> {
    Seq::new(b.len(), |i: int| b[i] as char)
}

/// Relies on String::from_utf8: bytes in the ASCII range are valid UTF-8 and
/// decode one character per byte, each the character with that byte's value.
#[verifier::external_body]
fn ascii_string(bytes: Vec<u8>) -> (s: String)
    requires
        forall|i: int| 0 <= i < bytes@.len() ==> bytes@[i] < 128,
    ensures
        s@ == ascii_chars_of(bytes@),
{
    String::from_utf8(bytes).unwrap()
}

/// Extracts the request line from a connection buffer: the bytes before the
/// first line feed, with one trailing carriage return stripped, decoded as
/// ASCII text. An empty buffer has no request line; a byte outside the ASCII
/// range on the request line is an encoding error.
pub fn get_request_line(buffer: &[u8]) -> (r: Result<String, ParseError>)
    ensures
        ({
            let line = spec_request_line_bytes(buffer@);
            match r {
                Ok(s) => {
                    &&& buffer@.len() > 0
                    &&& forall|i: int| 0 <= i < line.len() ==> line[i] < 128
                    &&& s@ == ascii_chars_of(line)
                },
                Err(ParseError::RequestLineMissing) => buffer@.len() == 0,
                Err(ParseError::InvalidEncoding) => {
                    &&& buffer@.len() > 0
                    &&& exists|i: int| 0 <= i < line.len() && line[i] >= 128
                },
                Err(_) => false,
            }
        }),
{
    let n = buffer.len();
    if n == 0 {
        return Err(ParseError::RequestLineMissing);
    }
    let mut end: usize = 0;
    while end < n && buffer[end] != 10
        invariant
            0 <= end <= n,
            n == buffer@.len(),
            line_break_from(buffer@, 0) == line_break_from(buffer@, end as int),
        decreases n - end,
    {
        end = end + 1;
    }
    proof {
        assert(line_break_from(buffer@, end as int) == end as int);
    }
    let core_end: usize = if end > 0 && buffer[end - 1] == 13 {
        end - 1
    } else {
        end
    };
    proof {
        assert(spec_request_line_bytes(buffer@) =~= buffer@.subrange(0, core_end as int));
    }
    let mut bytes: Vec<u8> = Vec::new();
    let mut i: usize = 0;
    while i < core_end
        invariant
            0 <= i <= core_end,
            core_end as int <= buffer@.len(),
            bytes@ == buffer@.subrange(0, i as int),
            forall|j: int| 0 <= j < i ==> buffer@[j] < 128,
            buffer@.len() > 0,
            spec_request_line_bytes(buffer@) == buffer@.subrange(0, core_end as int),
        decreases core_end - i,
    {
        let b = buffer[i];
        if b >= 128 {
            proof {
                assert(spec_request_line_bytes(buffer@)[i as int] >= 128);
            }
            return Err(ParseError::InvalidEncoding);
        }
        bytes.push(b);
        proof {
            assert(bytes@ =~= buffer@.subrange(0, i + 1));
        }
        i = i + 1;
    }
    let s = ascii_string(bytes);
    proof {
        assert(s@ =~= ascii_chars_of(spec_request_line_bytes(buffer@)));
    }
    Ok(s)
}

/// The canonical string form of a method is a single parser token: nonempty,
/// with no whitespace in it.
pub proof fn lemma_method_str_token(m: Method)
    ensures
        spec_method_str(m).len() > 0,
        forall|i: int|
            0 <= i < spec_method_str(m).len() ==> !is_space_char(#[trigger] spec_method_str(m)[i]),
{
    reveal_strlit("OPTIONS");
    reveal_strlit("GET");
    reveal_strlit("HEAD");
    reveal_strlit("POST");
    reveal_strlit("PUT");
    reveal_strlit("DELETE");
    reveal_strlit("TRACE");
    reveal_strlit("CONNECT");
}

/// Parsing round-trips printing: the printed request line of a method, a URI
/// with no whitespace in it, and the supported version tokenizes back to
/// exactly those three tokens, and the method token resolves to the same
/// method. Together with the contract of [`parse_request_line`], any parse
/// of that line must therefore succeed and return the same method, URI and
/// version.
pub proof fn lemma_request_line_round_trip(m: Method, uri: Seq<char>)
    requires
        uri.len() > 0,
        forall|i: int| 0 <= i < uri.len() ==> !is_space_char(#[trigger] uri[i]),
    ensures
        ({
            let line = spec_method_str(m) + " "@ + uri + " "@ + "HTTP/1.1"@ + "\r\n"@;
            &&& spec_tokens(line) == seq![spec_method_str(m), uri, "HTTP/1.1"@]
            &&& spec_method_of(spec_method_str(m)) == Some(m)
        }),
{
    lemma_method_round_trip(m);
    lemma_method_str_token(m);
    reveal_strlit(" ");
    reveal_strlit("\r\n");
    reveal_strlit("HTTP/1.1");
    let ms = spec_method_str(m);
    let vs = "HTTP/1.1"@;
    let line = ms + " "@ + uri + " "@ + vs + "\r\n"@;
    let l0 = ms.len() as int;
    let u = uri.len() as int;
    assert(" "@.len() == 1 && " "@[0] == ' ');
    assert(vs.len() == 8);
    assert(forall|i: int| 0 <= i < 8 ==> !is_space_char(#[trigger] vs[i]));
    assert("\r\n"@.len() == 2 && "\r\n"@[0] == '\r' && "\r\n"@[1] == '\n');
    assert(line.len() == l0 + u + 12);
    // the method token
    lemma_space_end_run(line, 0, 0);
    lemma_token_end_run(line, 0, l0);
    assert(line.subrange(0, l0) =~= ms);
    // the URI token
    lemma_space_end_run(line, l0, l0 + 1);
    lemma_token_end_run(line, l0 + 1, l0 + 1 + u);
    assert(line.subrange(l0 + 1, l0 + 1 + u) =~= uri);
    // the version token
    lemma_space_end_run(line, l0 + 1 + u, l0 + 2 + u);
    lemma_token_end_run(line, l0 + 2 + u, l0 + 10 + u);
    assert(line.subrange(l0 + 2 + u, l0 + 10 + u) =~= vs);
    // nothing after the closing CRLF
    lemma_space_end_run(line, l0 + 10 + u, line.len() as int);
    assert(spec_tokens_from(line, l0 + 10 + u) == Seq::<Seq<char>>::empty());
    assert(spec_tokens_from(line, l0 + 1 + u) == seq![vs] + spec_tokens_from(line, l0 + 10 + u));
    assert(spec_tokens_from(line, l0) == seq![uri] + spec_tokens_from(line, l0 + 1 + u));
    assert(spec_tokens_from(line, 0) == seq![ms] + spec_tokens_from(line, l0));
    assert(spec_tokens(line) =~= seq![ms, uri, vs]);
}

} // verus!

//! The closed vocabulary of HTTP status codes.

use vstd::prelude::*;

verus! {

/// An HTTP status code, carrying a fixed numeric value given by
/// [`spec_code`] and rendered on the wire by [`StatusCode::code_str`].
#[allow(non_camel_case_types)]
#[derive(Debug, Clone, Copy, PartialEq, Eq, Structural)]
pub enum StatusCode {
    CONTINUE,
    SWITCHING_PROTOCOLS,
    OK,
    CREATED,
    ACCEPTED,
    NON_AUTHORITATIVE_INFORMATION,
    NO_CONTENT,
    RESET_CONTENT,
    PARTIAL_CONTENT,
    MULTIPLE_CHOICES,
    MOVED_PERMANENTLY,
    FOUND,
    SEE_OTHER,
    NOT_MODIFIED,
    USE_PROXY,
    TEMPORARY_REDIRECT,
    BAD_REQUEST,
    UNAUTHORIZED,
    PAYMENT_REQUIRED,
    FORBIDDEN,
    NOT_FOUND,
    METHOD_NOT_ALLOWED,
    NOT_ACCEPTABLE,
    PROXY_AUTHENTICATION_REQUIRED,
    REQUEST_TIME_OUT,
    CONFLICT,
    GONE,
    LENGTH_REQUIRED,
    PRECONDITION_FAILED,
    REQUEST_ENTITY_TOO_LARGE,
    REQUEST_URI_TOO_LARGE,
    UNSUPPORTED_MEDIA_TYPE,
    REQUEST_RANGE_NOT_SATISFIABLE,
    EXPECTATION_FAILED,
    INTERNAL_SERVER_ERROR,
    NOT_IMPLEMENTED,
    BAD_GATEWAY,
    SERVICE_UNAVAILABLE,
    GATEWAY_TIME_OUT,
    HTTP_VERSION_NOT_SUPPORTED,
}

/// The fixed numeric value of a status code.
pub open spec fn spec_code(s: StatusCode) -> int {
    match s {
        StatusCode::CONTINUE => 100,
        StatusCode::SWITCHING_PROTOCOLS => 101,
        StatusCode::OK => 200,
        StatusCode::CREATED => 201,
        StatusCode::ACCEPTED => 202,
        StatusCode::NON_AUTHORITATIVE_INFORMATION => 203,
        StatusCode::NO_CONTENT => 204,
        StatusCode::RESET_CONTENT => 205,
        StatusCode::PARTIAL_CONTENT => 206,
        StatusCode::MULTIPLE_CHOICES => 300,
        StatusCode::MOVED_PERMANENTLY => 301,
        StatusCode::FOUND => 302,
        StatusCode::SEE_OTHER => 303,
        StatusCode::NOT_MODIFIED => 304,
        StatusCode::USE_PROXY => 305,
        StatusCode::TEMPORARY_REDIRECT => 307,
        StatusCode::BAD_REQUEST => 400,
        StatusCode::UNAUTHORIZED => 401,
        StatusCode::PAYMENT_REQUIRED => 402,
        StatusCode::FORBIDDEN => 403,
        StatusCode::NOT_FOUND => 404,
        StatusCode::METHOD_NOT_ALLOWED => 405,
        StatusCode::NOT_ACCEPTABLE => 406,
        StatusCode::PROXY_AUTHENTICATION_REQUIRED => 407,
        StatusCode::REQUEST_TIME_OUT => 408,
        StatusCode::CONFLICT => 409,
        StatusCode::GONE => 410,
        StatusCode::LENGTH_REQUIRED => 411,
        StatusCode::PRECONDITION_FAILED => 412,
        StatusCode::REQUEST_ENTITY_TOO_LARGE => 413,
        StatusCode::REQUEST_URI_TOO_LARGE => 414,
        StatusCode::UNSUPPORTED_MEDIA_TYPE => 415,
        StatusCode::REQUEST_RANGE_NOT_SATISFIABLE => 416,
        StatusCode::EXPECTATION_FAILED => 417,
        StatusCode::INTERNAL_SERVER_ERROR => 500,
        StatusCode::NOT_IMPLEMENTED => 501,
        StatusCode::BAD_GATEWAY => 502,
        StatusCode::SERVICE_UNAVAILABLE => 503,
        StatusCode::GATEWAY_TIME_OUT => 504,
        StatusCode::HTTP_VERSION_NOT_SUPPORTED => 505,
    }
}

/// The canonical decimal rendering of a status code.
pub open spec fn spec_code_str(s: StatusCode) -> Seq<char> {
    match s {
        StatusCode::CONTINUE => "100"@,
        StatusCode::SWITCHING_PROTOCOLS => "101"@,
        StatusCode::OK => "200"@,
        StatusCode::CREATED => "201"@,
        StatusCode::ACCEPTED => "202"@,
        StatusCode::NON_AUTHORITATIVE_INFORMATION => "203"@,
        StatusCode::NO_CONTENT => "204"@,
        StatusCode::RESET_CONTENT => "205"@,
        StatusCode::PARTIAL_CONTENT => "206"@,
        StatusCode::MULTIPLE_CHOICES => "300"@,
        StatusCode::MOVED_PERMANENTLY => "301"@,
        StatusCode::FOUND => "302"@,
        StatusCode::SEE_OTHER => "303"@,
        StatusCode::NOT_MODIFIED => "304"@,
        StatusCode::USE_PROXY => "305"@,
        StatusCode::TEMPORARY_REDIRECT => "307"@,
        StatusCode::BAD_REQUEST => "400"@,
        StatusCode::UNAUTHORIZED => "401"@,
        StatusCode::PAYMENT_REQUIRED => "402"@,
        StatusCode::FORBIDDEN => "403"@,
        StatusCode::NOT_FOUND => "404"@,
        StatusCode::METHOD_NOT_ALLOWED => "405"@,
        StatusCode::NOT_ACCEPTABLE => "406"@,
        StatusCode::PROXY_AUTHENTICATION_REQUIRED => "407"@,
        StatusCode::REQUEST_TIME_OUT => "408"@,
        StatusCode::CONFLICT => "409"@,
        StatusCode::GONE => "410"@,
        StatusCode::LENGTH_REQUIRED => "411"@,
        StatusCode::PRECONDITION_FAILED => "412"@,
        StatusCode::REQUEST_ENTITY_TOO_LARGE => "413"@,
        StatusCode::REQUEST_URI_TOO_LARGE => "414"@,
        StatusCode::UNSUPPORTED_MEDIA_TYPE => "415"@,
        StatusCode::REQUEST_RANGE_NOT_SATISFIABLE => "416"@,
        StatusCode::EXPECTATION_FAILED => "417"@,
        StatusCode::INTERNAL_SERVER_ERROR => "500"@,
        StatusCode::NOT_IMPLEMENTED => "501"@,
        StatusCode::BAD_GATEWAY => "502"@,
        StatusCode::SERVICE_UNAVAILABLE => "503"@,
        StatusCode::GATEWAY_TIME_OUT => "504"@,
        StatusCode::HTTP_VERSION_NOT_SUPPORTED => "505"@,
    }
}

/// The decimal digit character for a value below ten.
pub open spec fn digit_char(d: int) -> char
    recommends
        0 <= d <= 9,
{
    if d == 0 { '0' } else if d == 1 { '1' } else if d == 2 { '2' } else if d == 3 { '3' }
    else if d == 4 { '4' } else if d == 5 { '5' } else if d == 6 { '6' } else if d == 7 { '7' }
    else if d == 8 { '8' } else { '9' }
}

/// The three decimal digits of a value between 100 and 999.
pub open spec fn three_digit_chars(n: int) -> Seq<char>
    recommends
        100 <= n <= 999,
{
    seq![digit_char(n / 100 % 10), digit_char(n / 10 % 10), digit_char(n % 10)]
}

impl StatusCode {
    /// The numeric value of this status code.
    pub fn code(&self) -> (c: u16)
        ensures
            c as int == spec_code(*self),
    {
        match *self {
            StatusCode::CONTINUE => 100,
            StatusCode::SWITCHING_PROTOCOLS => 101,
            StatusCode::OK => 200,
            StatusCode::CREATED => 201,
            StatusCode::ACCEPTED => 202,
            StatusCode::NON_AUTHORITATIVE_INFORMATION => 203,
            StatusCode::NO_CONTENT => 204,
            StatusCode::RESET_CONTENT => 205,
            StatusCode::PARTIAL_CONTENT => 206,
            StatusCode::MULTIPLE_CHOICES => 300,
            StatusCode::MOVED_PERMANENTLY => 301,
            StatusCode::FOUND => 302,
            StatusCode::SEE_OTHER => 303,
            StatusCode::NOT_MODIFIED => 304,
            StatusCode::USE_PROXY => 305,
            StatusCode::TEMPORARY_REDIRECT => 307,
            StatusCode::BAD_REQUEST => 400,
            StatusCode::UNAUTHORIZED => 401,
            StatusCode::PAYMENT_REQUIRED => 402,
            StatusCode::FORBIDDEN => 403,
            StatusCode::NOT_FOUND => 404,
            StatusCode::METHOD_NOT_ALLOWED => 405,
            StatusCode::NOT_ACCEPTABLE => 406,
            StatusCode::PROXY_AUTHENTICATION_REQUIRED => 407,
            StatusCode::REQUEST_TIME_OUT => 408,
            StatusCode::CONFLICT => 409,
            StatusCode::GONE => 410,
            StatusCode::LENGTH_REQUIRED => 411,
            StatusCode::PRECONDITION_FAILED => 412,
            StatusCode::REQUEST_ENTITY_TOO_LARGE => 413,
            StatusCode::REQUEST_URI_TOO_LARGE => 414,
            StatusCode::UNSUPPORTED_MEDIA_TYPE => 415,
            StatusCode::REQUEST_RANGE_NOT_SATISFIABLE => 416,
            StatusCode::EXPECTATION_FAILED => 417,
            StatusCode::INTERNAL_SERVER_ERROR => 500,
            StatusCode::NOT_IMPLEMENTED => 501,
            StatusCode::BAD_GATEWAY => 502,
            StatusCode::SERVICE_UNAVAILABLE => 503,
            StatusCode::GATEWAY_TIME_OUT => 504,
            StatusCode::HTTP_VERSION_NOT_SUPPORTED => 505,
        }
    }

    /// The decimal rendering of this status code, as written on the wire.
    pub fn code_str(&self) -> (s: &str)
        ensures
            s@ == spec_code_str(*self),
    {
        match *self {
            StatusCode::CONTINUE => "100",
            StatusCode::SWITCHING_PROTOCOLS => "101",
            StatusCode::OK => "200",
            StatusCode::CREATED => "201",
            StatusCode::ACCEPTED => "202",
            StatusCode::NON_AUTHORITATIVE_INFORMATION => "203",
            StatusCode::NO_CONTENT => "204",
            StatusCode::RESET_CONTENT => "205",
            StatusCode::PARTIAL_CONTENT => "206",
            StatusCode::MULTIPLE_CHOICES => "300",
            StatusCode::MOVED_PERMANENTLY => "301",
            StatusCode::FOUND => "302",
            StatusCode::SEE_OTHER => "303",
            StatusCode::NOT_MODIFIED => "304",
            StatusCode::USE_PROXY => "305",
            StatusCode::TEMPORARY_REDIRECT => "307",
            StatusCode::BAD_REQUEST => "400",
            StatusCode::UNAUTHORIZED => "401",
            StatusCode::PAYMENT_REQUIRED => "402",
            StatusCode::FORBIDDEN => "403",
            StatusCode::NOT_FOUND => "404",
            StatusCode::METHOD_NOT_ALLOWED => "405",
            StatusCode::NOT_ACCEPTABLE => "406",
            StatusCode::PROXY_AUTHENTICATION_REQUIRED => "407",
            StatusCode::REQUEST_TIME_OUT => "408",
            StatusCode::CONFLICT => "409",
            StatusCode::GONE => "410",
            StatusCode::LENGTH_REQUIRED => "411",
            StatusCode::PRECONDITION_FAILED => "412",
            StatusCode::REQUEST_ENTITY_TOO_LARGE => "413",
            StatusCode::REQUEST_URI_TOO_LARGE => "414",
            StatusCode::UNSUPPORTED_MEDIA_TYPE => "415",
            StatusCode::REQUEST_RANGE_NOT_SATISFIABLE => "416",
            StatusCode::EXPECTATION_FAILED => "417",
            StatusCode::INTERNAL_SERVER_ERROR => "500",
            StatusCode::NOT_IMPLEMENTED => "501",
            StatusCode::BAD_GATEWAY => "502",
            StatusCode::SERVICE_UNAVAILABLE => "503",
            StatusCode::GATEWAY_TIME_OUT => "504",
            StatusCode::HTTP_VERSION_NOT_SUPPORTED => "505",
        }
    }
}

impl Default for StatusCode {
    /// The default status is `OK`.
    fn default() -> (s: StatusCode)
        ensures
            s == StatusCode::OK,
    {
        StatusCode::OK
    }
}

/// Every status code renders as exactly the three decimal digits of its
/// numeric value: the string form and the numeric form always agree.
pub proof fn lemma_code_str_is_decimal(s: StatusCode)
    ensures
        100 <= spec_code(s) <= 999,
        spec_code_str(s) == three_digit_chars(spec_code(s)),
{
    reveal_strlit("100");
    reveal_strlit("101");
    reveal_strlit("200");
    reveal_strlit("201");
    reveal_strlit("202");
    reveal_strlit("203");
    reveal_strlit("204");
    reveal_strlit("205");
    reveal_strlit("206");
    reveal_strlit("300");
    reveal_strlit("301");
    reveal_strlit("302");
    reveal_strlit("303");
    reveal_strlit("304");
    reveal_strlit("305");
    reveal_strlit("307");
    reveal_strlit("400");
    reveal_strlit("401");
    reveal_strlit("402");
    reveal_strlit("403");
    reveal_strlit("404");
    reveal_strlit("405");
    reveal_strlit("406");
    reveal_strlit("407");
    reveal_strlit("408");
    reveal_strlit("409");
    reveal_strlit("410");
    reveal_strlit("411");
    reveal_strlit("412");
    reveal_strlit("413");
    reveal_strlit("414");
    reveal_strlit("415");
    reveal_strlit("416");
    reveal_strlit("417");
    reveal_strlit("500");
    reveal_strlit("501");
    reveal_strlit("502");
    reveal_strlit("503");
    reveal_strlit("504");
    reveal_strlit("505");
    match s {
        StatusCode::CONTINUE => assert(spec_code_str(s) =~= three_digit_chars(spec_code(s))),
        StatusCode::SWITCHING_PROTOCOLS => assert(spec_code_str(s) =~= three_digit_chars(spec_code(s))),
        StatusCode::OK => assert(spec_code_str(s) =~= three_digit_chars(spec_code(s))),
        StatusCode::CREATED => assert(spec_code_str(s) =~= three_digit_chars(spec_code(s))),
        StatusCode::ACCEPTED => assert(spec_code_str(s) =~= three_digit_chars(spec_code(s))),
        StatusCode::NON_AUTHORITATIVE_INFORMATION => assert(spec_code_str(s) =~= three_digit_chars(spec_code(s))),
        StatusCode::NO_CONTENT => assert(spec_code_str(s) =~= three_digit_chars(spec_code(s))),
        StatusCode::RESET_CONTENT => assert(spec_code_str(s) =~= three_digit_chars(spec_code(s))),
        StatusCode::PARTIAL_CONTENT => assert(spec_code_str(s) =~= three_digit_chars(spec_code(s))),
        StatusCode::MULTIPLE_CHOICES => assert(spec_code_str(s) =~= three_digit_chars(spec_code(s))),
        StatusCode::MOVED_PERMANENTLY => assert(spec_code_str(s) =~= three_digit_chars(spec_code(s))),
        StatusCode::FOUND => assert(spec_code_str(s) =~= three_digit_chars(spec_code(s))),
        StatusCode::SEE_OTHER => assert(spec_code_str(s) =~= three_digit_chars(spec_code(s))),
        StatusCode::NOT_MODIFIED => assert(spec_code_str(s) =~= three_digit_chars(spec_code(s))),
        StatusCode::USE_PROXY => assert(spec_code_str(s) =~= three_digit_chars(spec_code(s))),
        StatusCode::TEMPORARY_REDIRECT => assert(spec_code_str(s) =~= three_digit_chars(spec_code(s))),
        StatusCode::BAD_REQUEST => assert(spec_code_str(s) =~= three_digit_chars(spec_code(s))),
        StatusCode::UNAUTHORIZED => assert(spec_code_str(s) =~= three_digit_chars(spec_code(s))),
        StatusCode::PAYMENT_REQUIRED => assert(spec_code_str(s) =~= three_digit_chars(spec_code(s))),
        StatusCode::FORBIDDEN => assert(spec_code_str(s) =~= three_digit_chars(spec_code(s))),
        StatusCode::NOT_FOUND => assert(spec_code_str(s) =~= three_digit_chars(spec_code(s))),
        StatusCode::METHOD_NOT_ALLOWED => assert(spec_code_str(s) =~= three_digit_chars(spec_code(s))),
        StatusCode::NOT_ACCEPTABLE => assert(spec_code_str(s) =~= three_digit_chars(spec_code(s))),
        StatusCode::PROXY_AUTHENTICATION_REQUIRED => assert(spec_code_str(s) =~= three_digit_chars(spec_code(s))),
        StatusCode::REQUEST_TIME_OUT => assert(spec_code_str(s) =~= three_digit_chars(spec_code(s))),
        StatusCode::CONFLICT => assert(spec_code_str(s) =~= three_digit_chars(spec_code(s))),
        StatusCode::GONE => assert(spec_code_str(s) =~= three_digit_chars(spec_code(s))),
        StatusCode::LENGTH_REQUIRED => assert(spec_code_str(s) =~= three_digit_chars(spec_code(s))),
        StatusCode::PRECONDITION_FAILED => assert(spec_code_str(s) =~= three_digit_chars(spec_code(s))),
        StatusCode::REQUEST_ENTITY_TOO_LARGE => assert(spec_code_str(s) =~= three_digit_chars(spec_code(s))),
        StatusCode::REQUEST_URI_TOO_LARGE => assert(spec_code_str(s) =~= three_digit_chars(spec_code(s))),
        StatusCode::UNSUPPORTED_MEDIA_TYPE => assert(spec_code_str(s) =~= three_digit_chars(spec_code(s))),
        StatusCode::REQUEST_RANGE_NOT_SATISFIABLE => assert(spec_code_str(s) =~= three_digit_chars(spec_code(s))),
        StatusCode::EXPECTATION_FAILED => assert(spec_code_str(s) =~= three_digit_chars(spec_code(s))),
        StatusCode::INTERNAL_SERVER_ERROR => assert(spec_code_str(s) =~= three_digit_chars(spec_code(s))),
        StatusCode::NOT_IMPLEMENTED => assert(spec_code_str(s) =~= three_digit_chars(spec_code(s))),
        StatusCode::BAD_GATEWAY => assert(spec_code_str(s) =~= three_digit_chars(spec_code(s))),
        StatusCode::SERVICE_UNAVAILABLE => assert(spec_code_str(s) =~= three_digit_chars(spec_code(s))),
        StatusCode::GATEWAY_TIME_OUT => assert(spec_code_str(s) =~= three_digit_chars(spec_code(s))),
        StatusCode::HTTP_VERSION_NOT_SUPPORTED => assert(spec_code_str(s) =~= three_digit_chars(spec_code(s))),
    }
}

} // verus!

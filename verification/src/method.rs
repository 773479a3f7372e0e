//! The closed vocabulary of HTTP request methods.

use crate::str_eq;
use vstd::prelude::*;

verus! {

/// Error returned when a method token lies outside the closed vocabulary;
/// it carries the offending token for diagnostics.
#[derive(Debug, PartialEq, Eq)]
pub struct InvalidMethod(pub String);

impl InvalidMethod {
    /// The token that failed to resolve to a method.
    pub fn token(&self) -> (t: &str)
        ensures
            t@ == self.0@,
    {
        self.0.as_str()
    }

    /// The diagnostic text of this error, naming the token.
    pub fn message(&self) -> (m: String)
        ensures
            m@ == "Invalid HTTP method: "@ + self.0@,
    {
        let mut m = String::from_str("Invalid HTTP method: ");
        m.append(self.0.as_str());
        m
    }
}

/// An HTTP request method. Only `Get` and `Head` drive real resolution;
/// the remaining methods parse but resolve to "not implemented".
#[derive(Debug, Clone, Copy, PartialEq, Eq, Structural)]
pub enum Method {
    Options,
    Get,
    Head,
    Post,
    Put,
    Delete,
    Trace,
    Connect,
}

/// The canonical uppercase string form of a method.
pub open spec fn spec_method_str(m: Method) -> Seq<char> {
    match m {
        Method::Options => "OPTIONS"@,
        Method::Get => "GET"@,
        Method::Head => "HEAD"@,
        Method::Post => "POST"@,
        Method::Put => "PUT"@,
        Method::Delete => "DELETE"@,
        Method::Trace => "TRACE"@,
        Method::Connect => "CONNECT"@,
    }
}

/// The method a token resolves to, or `None` when the token is outside the
/// closed vocabulary.
pub open spec fn spec_method_of(s: Seq<char>) -> Option<Method> {
    if s == "OPTIONS"@ {
        Some(Method::Options)
    } else if s == "GET"@ {
        Some(Method::Get)
    } else if s == "HEAD"@ {
        Some(Method::Head)
    } else if s == "POST"@ {
        Some(Method::Post)
    } else if s == "PUT"@ {
        Some(Method::Put)
    } else if s == "DELETE"@ {
        Some(Method::Delete)
    } else if s == "TRACE"@ {
        Some(Method::Trace)
    } else if s == "CONNECT"@ {
        Some(Method::Connect)
    } else {
        None
    }
}

impl Method {
    /// Resolves a token through the closed vocabulary; any other token fails
    /// with an [`InvalidMethod`] error carrying that token.
    pub fn from_str(src: &str) -> (r: Result<Method, InvalidMethod>)
        ensures
            match r {
                Ok(m) => spec_method_of(src@) == Some(m),
                Err(e) => spec_method_of(src@) is None && e.0@ == src@,
            },
    {
        if str_eq(src, "OPTIONS") {
            Ok(Method::Options)
        } else if str_eq(src, "GET") {
            Ok(Method::Get)
        } else if str_eq(src, "HEAD") {
            Ok(Method::Head)
        } else if str_eq(src, "POST") {
            Ok(Method::Post)
        } else if str_eq(src, "PUT") {
            Ok(Method::Put)
        } else if str_eq(src, "DELETE") {
            Ok(Method::Delete)
        } else if str_eq(src, "TRACE") {
            Ok(Method::Trace)
        } else if str_eq(src, "CONNECT") {
            Ok(Method::Connect)
        } else {
            Err(InvalidMethod(src.to_owned()))
        }
    }

    /// The canonical uppercase string form of this method.
    pub fn as_str(&self) -> (s: &str)
        ensures
            s@ == spec_method_str(*self),
    {
        match *self {
            Method::Options => "OPTIONS",
            Method::Get => "GET",
            Method::Head => "HEAD",
            Method::Post => "POST",
            Method::Put => "PUT",
            Method::Delete => "DELETE",
            Method::Trace => "TRACE",
            Method::Connect => "CONNECT",
        }
    }
}

impl Default for Method {
    /// The default method is `Get`.
    fn default() -> (m: Method)
        ensures
            m == Method::Get,
    {
        Method::Get
    }
}

/// The method vocabulary round-trips: resolving the canonical string form of
/// any method yields that method back.
pub proof fn lemma_method_round_trip(m: Method)
    ensures
        spec_method_of(spec_method_str(m)) == Some(m),
{
    reveal_strlit("OPTIONS");
    reveal_strlit("GET");
    reveal_strlit("HEAD");
    reveal_strlit("POST");
    reveal_strlit("PUT");
    reveal_strlit("DELETE");
    reveal_strlit("TRACE");
    reveal_strlit("CONNECT");
    assert("OPTIONS"@.len() == 7 && "OPTIONS"@[0] == 'O');
    assert("GET"@.len() == 3 && "GET"@[0] == 'G');
    assert("HEAD"@.len() == 4 && "HEAD"@[0] == 'H');
    assert("POST"@.len() == 4 && "POST"@[0] == 'P');
    assert("PUT"@.len() == 3 && "PUT"@[0] == 'P');
    assert("DELETE"@.len() == 6 && "DELETE"@[0] == 'D');
    assert("TRACE"@.len() == 5 && "TRACE"@[0] == 'T');
    assert("CONNECT"@.len() == 7 && "CONNECT"@[0] == 'C');
}

} // verus!

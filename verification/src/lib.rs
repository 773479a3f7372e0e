//! A minimal HTTP/1.1 static-file server core.
//!
//! The crate covers the pieces of such a server that are pure logic: the
//! closed method, status and content-type vocabularies, the request-line
//! parser, the resolver that turns a request plus a filesystem read outcome
//! into a response, the response wire formatter, and the bookkeeping model of
//! the worker pool. Sockets, threads and the filesystem itself live outside
//! this crate; they hand plain values (byte buffers, read outcomes) in and
//! take plain values back.

use vstd::prelude::*;

pub mod content;
pub mod method;
pub mod request;
pub mod response;
pub mod status;
pub mod threadpool;

verus! {

/// Compares two string slices by their character sequences.
pub fn str_eq(a: &str, b: &str) -> (r: bool)
    ensures
        r == (a@ == b@),
{
    let sa = String::from_str(a);
    let sb = String::from_str(b);
    sa == sb
}

} // verus!

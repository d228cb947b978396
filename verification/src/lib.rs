//! Core of a small personal web site: an immutable content catalog of posts
//! and projects, pure HTML composition, navigation adjacency, permalink
//! canonicalization, and the fragment-versus-document response protocol.
//!
//! Everything here is pure: handlers map already-extracted request values
//! (path segments, a capability flag) to a response value. The surrounding
//! HTTP server extracts those values and writes the response out.

pub mod catalog;
pub mod laws;
pub mod markdown;
pub mod markup;
pub mod nav;
pub mod routes;
pub mod text;

use vstd::prelude::*;

verus! {

/// Prefix a name with `#`, forming the selector that the client-side
/// fragment-swap attributes target.
pub fn id(s: &str) -> (r: String)
    ensures
        r@ == seq!['#'] + s@,
{
    let mut out = String::from_str("#");
    out.append(s);
    proof {
        reveal_strlit("#");
        assert(out@ =~= seq!['#'] + s@);
    }
    out
}

} // verus!

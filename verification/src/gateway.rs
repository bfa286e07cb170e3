//! The gateway's routing rule: which inbound requests pass through to the
//! backend unchanged, which are refused, and which are playlist fetches whose
//! response should be warmed.

use vstd::prelude::*;
use vstd::string::*;

verus! {

/// What the surrounding proxy should do with an inbound request.
#[derive(PartialEq, Eq, Structural, Debug, Clone, Copy)]
pub enum RouteDecision {
    /// Refuse the method with 405, allowing GET and HEAD.
    Reject,
    /// Forward to the backend unchanged.
    PassThrough,
    /// A GET of a playlist: fetch it from the backend and warm its segments.
    WarmManifest,
}

/// `s` ends with `suffix`.
pub open spec fn ends_with(s: Seq<char>, suffix: Seq<char>) -> bool {
    s.len() >= suffix.len() && s.skip(s.len() - suffix.len()) == suffix
}

/// The routing rule: PURGE passes through to any backend; a GET whose path
/// ends in ".m3u8" is a manifest fetch whose response is warmed; other GET
/// and HEAD requests pass through; every other method is refused.
pub open spec fn route_spec(method: Seq<char>, path: Seq<char>) -> RouteDecision {
    if method == "PURGE"@ {
        RouteDecision::PassThrough
    } else if method == "GET"@ && ends_with(path, ".m3u8"@) {
        RouteDecision::WarmManifest
    } else if method == "GET"@ || method == "HEAD"@ {
        RouteDecision::PassThrough
    } else {
        RouteDecision::Reject
    }
}

/// The two strings hold the same characters.
fn str_eq_chars(a: &str, b: &str) -> (r: bool)
    ensures
        r == (a@ == b@),
{
    let n: usize = a.unicode_len();
    let m: usize = b.unicode_len();
    if n != m {
        return false;
    }
    let mut i: usize = 0;
    while i < n
        invariant
            i <= n,
            n == a@.len(),
            n == b@.len(),
            forall|j: int| 0 <= j < i ==> a@[j] == b@[j],
        decreases n - i,
    {
        if a.get_char(i) != b.get_char(i) {
            return false;
        }
        i = i + 1;
    }
    proof {
        assert(a@ =~= b@);
    }
    true
}

/// The string ends with the given suffix.
fn str_ends_with(s: &str, suffix: &str) -> (r: bool)
    ensures
        r == ends_with(s@, suffix@),
{
    let n: usize = s.unicode_len();
    let m: usize = suffix.unicode_len();
    if m > n {
        return false;
    }
    let mut i: usize = 0;
    while i < m
        invariant
            i <= m <= n,
            n == s@.len(),
            m == suffix@.len(),
            forall|j: int| 0 <= j < i ==> s@[n - m + j] == suffix@[j],
        decreases m - i,
    {
        if s.get_char(n - m + i) != suffix.get_char(i) {
            proof {
                assert(s@.skip(n - m)[i as int] == s@[n - m + i]);
            }
            return false;
        }
        i = i + 1;
    }
    proof {
        assert(s@.skip(n - m) =~= suffix@);
    }
    true
}

/// Decide the gateway's handling of an inbound request from its method and
/// path alone.
pub fn route(method: &str, path: &str) -> (r: RouteDecision)
    ensures
        r == route_spec(method@, path@),
{
    if str_eq_chars(method, "PURGE") {
        return RouteDecision::PassThrough;
    }
    let is_get = str_eq_chars(method, "GET");
    if is_get && str_ends_with(path, ".m3u8") {
        return RouteDecision::WarmManifest;
    }
    if is_get || str_eq_chars(method, "HEAD") {
        return RouteDecision::PassThrough;
    }
    RouteDecision::Reject
}

} // verus!

//! Relative-to-absolute URL resolution for media segments.
//!
//! `resolve_base` extracts the directory portion of the manifest's absolute
//! URL (everything up to and including the last path separator preceding the
//! manifest's filename, tolerating trailing slashes); `resolve_segment` turns
//! a segment URI into the URL to prefetch, passing already-absolute URIs
//! through unchanged and appending anything else to the base verbatim.

use vstd::prelude::*;
use vstd::string::*;

verus! {

/// Length of `s` once the trailing run of '/' characters is removed.
pub open spec fn trimmed_len(s: Seq<char>) -> int
    decreases s.len(),
{
    if s.len() > 0 && s.last() == '/' {
        trimmed_len(s.drop_last())
    } else {
        s.len() as int
    }
}

/// `trimmed_len` marks the boundary of the trailing run of slashes.
proof fn lemma_trimmed_len(s: Seq<char>)
    ensures
        0 <= trimmed_len(s) <= s.len(),
        forall|j: int| trimmed_len(s) <= j < s.len() ==> s[j] == '/',
        trimmed_len(s) > 0 ==> s[trimmed_len(s) - 1] != '/',
    decreases s.len(),
{
    if s.len() > 0 && s.last() == '/' {
        lemma_trimmed_len(s.drop_last());
        assert forall|j: int| trimmed_len(s) <= j < s.len() implies s[j] == '/' by {
            if j < s.len() - 1 {
                assert(s[j] == s.drop_last()[j]);
            }
        }
        if trimmed_len(s) > 0 {
            assert(s[trimmed_len(s) - 1] == s.drop_last()[trimmed_len(s) - 1]);
        }
    }
}

/// Any boundary of the trailing slash run is `trimmed_len`.
proof fn lemma_trimmed_len_unique(s: Seq<char>, m: int)
    requires
        0 <= m <= s.len(),
        forall|j: int| m <= j < s.len() ==> s[j] == '/',
        m > 0 ==> s[m - 1] != '/',
    ensures
        m == trimmed_len(s),
{
    lemma_trimmed_len(s);
    let t = trimmed_len(s);
    if m < t {
        assert(s[t - 1] == '/');
        assert(false);
    }
    if t < m {
        assert(s[m - 1] == '/');
        assert(false);
    }
}

/// Index of the last '/' strictly before position `k` of `s`, if any.
pub open spec fn last_slash_before(s: Seq<char>, k: int) -> Option<int>
    decreases k,
{
    if k <= 0 {
        None
    } else if s[k - 1] == '/' {
        Some(k - 1)
    } else {
        last_slash_before(s, k - 1)
    }
}

/// The location, once trailing slashes are dropped, ends in "m3u8" preceded
/// by at least one further character: the shape of a manifest URL.
pub open spec fn manifest_shaped(s: Seq<char>) -> bool {
    let m = trimmed_len(s);
    m >= 5 && s[m - 4] == 'm' && s[m - 3] == '3' && s[m - 2] == 'u' && s[m - 1] == '8'
}

/// The directory portion of a manifest location: everything up to and
/// including the last '/' that leaves room for a manifest filename after it,
/// or empty when the location has no such shape (degraded mode).
pub open spec fn base_of(url: Seq<char>) -> Seq<char> {
    if manifest_shaped(url) {
        match last_slash_before(url, trimmed_len(url) - 5) {
            Some(i) => url.subrange(0, i + 1),
            None => Seq::empty(),
        }
    } else {
        Seq::empty()
    }
}

/// The position of the ':' ending a scheme, scanning from `j`: the first ':'
/// reached before any '/'.
pub open spec fn scheme_colon_from(u: Seq<char>, j: int) -> Option<int>
    decreases u.len() - j,
{
    if j < 0 || j >= u.len() {
        None
    } else if u[j] == ':' {
        Some(j)
    } else if u[j] == '/' {
        None
    } else {
        scheme_colon_from(u, j + 1)
    }
}

/// A URI is absolute when a nonempty scheme is followed by "://".
pub open spec fn has_scheme(u: Seq<char>) -> bool {
    match scheme_colon_from(u, 0) {
        Some(i) => 0 < i && i + 2 < u.len() && u[i + 1] == '/' && u[i + 2] == '/',
        None => false,
    }
}

/// A segment URI resolved against a base: absolute URIs pass through
/// unchanged, anything else is appended to the base verbatim (no
/// normalization of `..` or duplicate slashes).
pub open spec fn resolved(base: Seq<char>, uri: Seq<char>) -> Seq<char> {
    if has_scheme(uri) {
        uri
    } else {
        base + uri
    }
}

/// Extract the directory portion of the manifest's absolute URL, with
/// trailing slashes tolerated; empty when the location holds no recognizable
/// manifest filename. The empty result is a deliberate degraded mode, not an
/// error: a later relative resolution then yields a URL that fails harmlessly
/// upstream.
pub fn resolve_base(location: &str) -> (r: String)
    ensures
        r@ == base_of(location@),
{
    let n: usize = location.unicode_len();
    let mut m: usize = n;
    while m > 0 && location.get_char(m - 1) == '/'
        invariant
            m <= n,
            n == location@.len(),
            forall|j: int| m <= j < n ==> location@[j] == '/',
        decreases m,
    {
        m = m - 1;
    }
    proof {
        lemma_trimmed_len_unique(location@, m as int);
    }
    if m < 5 {
        return String::new();
    }
    let c1 = location.get_char(m - 4);
    let c2 = location.get_char(m - 3);
    let c3 = location.get_char(m - 2);
    let c4 = location.get_char(m - 1);
    if !(c1 == 'm' && c2 == '3' && c3 == 'u' && c4 == '8') {
        return String::new();
    }
    let mut j: usize = m - 5;
    while j > 0
        invariant
            j <= m - 5,
            5 <= m <= n,
            n == location@.len(),
            m as int == trimmed_len(location@),
            manifest_shaped(location@),
            last_slash_before(location@, m - 5) == last_slash_before(location@, j as int),
        decreases j,
    {
        if location.get_char(j - 1) == '/' {
            let dir = location.substring_char(0, j);
            return String::from_str(dir);
        }
        j = j - 1;
    }
    String::new()
}

/// Whether the URI carries a scheme followed by "://", making it absolute.
fn uri_has_scheme(uri: &str) -> (r: bool)
    ensures
        r == has_scheme(uri@),
{
    let n: usize = uri.unicode_len();
    let mut j: usize = 0;
    while j < n
        invariant
            j <= n,
            n == uri@.len(),
            scheme_colon_from(uri@, 0) == scheme_colon_from(uri@, j as int),
        decreases n - j,
    {
        let c = uri.get_char(j);
        if c == ':' {
            if j > 0 && n - j > 2 {
                let s1 = uri.get_char(j + 1);
                let s2 = uri.get_char(j + 2);
                return s1 == '/' && s2 == '/';
            }
            return false;
        }
        if c == '/' {
            return false;
        }
        j = j + 1;
    }
    false
}

/// Resolve one segment URI against the base returned by `resolve_base`: an
/// absolute URI (one with a scheme) passes through unchanged; a relative or
/// path-absolute URI is appended to the base verbatim. Pure and
/// side-effect-free.
pub fn resolve_segment(base: &str, uri: &str) -> (r: String)
    ensures
        r@ == resolved(base@, uri@),
{
    if uri_has_scheme(uri) {
        String::from_str(uri)
    } else {
        let mut out = String::from_str(base);
        out.append(uri);
        out
    }
}

} // verus!

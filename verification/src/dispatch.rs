//! The prefetch dispatcher's planning core: select the first `limit` segments
//! of a leaf manifest in playlist order, resolve each against the manifest
//! location's base, and describe one HEAD prefetch per selected segment.
//!
//! Issuing the requests is the surrounding proxy's job; the plan computed
//! here is a pure function of manifest, location, limit and backend, so two
//! runs over identical inputs always plan identical prefetches and no state
//! survives a request.

use vstd::prelude::*;
use vstd::string::*;
use crate::manifest::{hls_playlist_of, parse, Manifest, ManifestError};
use crate::resolver::{base_of, resolve_base, resolve_segment, resolved};

verus! {

/// The one outbound method the warmer uses: only cache population matters,
/// so HEAD semantics are sufficient.
#[derive(PartialEq, Eq, Structural, Debug, Clone, Copy)]
pub enum PrefetchMethod {
    Head,
}

/// A fire-and-forget outbound fetch description: method, absolute target
/// URL, and the backend to dispatch it against. Responses are never surfaced
/// to the client; a malformed URL simply fails harmlessly upstream.
#[derive(Debug)]
pub struct PrefetchRequest {
    pub method: PrefetchMethod,
    pub url: String,
    pub backend: String,
}

/// How many of `k` available segments are selected under `limit`.
pub open spec fn select_count(k: nat, limit: nat) -> nat {
    if limit < k {
        limit
    } else {
        k
    }
}

/// The URLs the dispatcher prefetches for a parsed manifest at `loc` under
/// `limit`: none for a variant playlist; for a leaf playlist, the first
/// `min(limit, k)` segment URIs in playlist order, each resolved against the
/// location's base. Selection is by position alone, and duplicates are kept.
pub open spec fn planned_urls(m: Option<Seq<Seq<char>>>, loc: Seq<char>, limit: nat) -> Seq<
    Seq<char>,
> {
    match m {
        None => Seq::empty(),
        Some(uris) => uris.take(select_count(uris.len(), limit) as int).map_values(
            |u: Seq<char>| resolved(base_of(loc), u),
        ),
    }
}

/// Plan the prefetches for one parsed manifest: exactly
/// `min(limit, segments)` requests for a leaf playlist, in playlist order,
/// each a HEAD against `backend`; none for a variant playlist, whatever the
/// limit. `limit == 0` and an empty playlist plan nothing, which is a no-op,
/// not an error.
pub fn plan_prefetches(manifest: &Manifest, location: &str, limit: usize, backend: &str) -> (r:
    Vec<PrefetchRequest>)
    ensures
        r@.map_values(|p: PrefetchRequest| p.url@) == planned_urls(
            manifest@,
            location@,
            limit as nat,
        ),
        forall|i: int|
            0 <= i < r@.len() ==> (#[trigger] r@[i]).method == PrefetchMethod::Head
                && r@[i].backend@ == backend@,
{
    match manifest {
        Manifest::Variant => {
            let r: Vec<PrefetchRequest> = Vec::new();
            proof {
                assert(r@.map_values(|p: PrefetchRequest| p.url@) =~= planned_urls(
                    manifest@,
                    location@,
                    limit as nat,
                ));
            }
            r
        },
        Manifest::Leaf(segments) => {
            let base = resolve_base(location);
            let count: usize = if limit < segments.len() {
                limit
            } else {
                segments.len()
            };
            let mut out: Vec<PrefetchRequest> = Vec::new();
            let mut idx: usize = 0;
            while idx < count
                invariant
                    idx <= count,
                    count == select_count(segments@.len(), limit as nat),
                    base@ == base_of(location@),
                    out@.len() == idx,
                    forall|i: int|
                        0 <= i < idx ==> (#[trigger] out@[i]).url@ == resolved(
                            base_of(location@),
                            segments@[i]@,
                        ),
                    forall|i: int|
                        0 <= i < idx ==> (#[trigger] out@[i]).method == PrefetchMethod::Head
                            && out@[i].backend@ == backend@,
                decreases count - idx,
            {
                let url = resolve_segment(base.as_str(), segments[idx].uri.as_str());
                let dest = String::from_str(backend);
                out.push(PrefetchRequest { method: PrefetchMethod::Head, url, backend: dest });
                idx = idx + 1;
            }
            proof {
                assert(out@.map_values(|p: PrefetchRequest| p.url@) =~= planned_urls(
                    manifest@,
                    location@,
                    limit as nat,
                ));
            }
            out
        },
    }
}

/// The whole warming path for one manifest response: decode the body, then
/// plan the prefetches. A body that is not a playlist aborts warming with
/// `ManifestError::Invalid` and plans nothing; the dispatcher is reached only
/// on a well-formed playlist.
pub fn warm_plan(body: &[u8], location: &str, limit: usize, backend: &str) -> (r: Result<
    Vec<PrefetchRequest>,
    ManifestError,
>)
    ensures
        (r is Ok) == (hls_playlist_of(body@) is Some),
        r matches Err(e) ==> e == ManifestError::Invalid,
        r matches Ok(v) ==> hls_playlist_of(body@) matches Some(m) && v@.map_values(
            |p: PrefetchRequest| p.url@,
        ) == planned_urls(m, location@, limit as nat),
        r matches Ok(v) ==> forall|i: int|
            0 <= i < v@.len() ==> (#[trigger] v@[i]).method == PrefetchMethod::Head
                && v@[i].backend@ == backend@,
{
    match parse(body) {
        Ok(manifest) => Ok(plan_prefetches(&manifest, location, limit, backend)),
        Err(e) => Err(e),
    }
}

/// Law: for a leaf manifest with `k` segments under `limit`, exactly
/// `min(limit, k)` prefetches are planned, in manifest order (the i-th
/// planned URL is the i-th segment URI resolved against the location's
/// base), and none at all when the playlist is empty or the limit is zero.
pub proof fn lemma_leaf_prefetch_count(uris: Seq<Seq<char>>, loc: Seq<char>, limit: nat)
    ensures
        planned_urls(Some(uris), loc, limit).len() == select_count(uris.len(), limit),
        forall|i: int|
            0 <= i < select_count(uris.len(), limit) ==> planned_urls(Some(uris), loc, limit)[i]
                == resolved(base_of(loc), uris[i]),
        limit == 0 ==> planned_urls(Some(uris), loc, limit) =~= Seq::<Seq<char>>::empty(),
        uris.len() == 0 ==> planned_urls(Some(uris), loc, limit) =~= Seq::<Seq<char>>::empty(),
{
}

/// Law: a variant manifest plans no prefetches, whatever the limit.
pub proof fn lemma_variant_prefetch_empty(loc: Seq<char>, limit: nat)
    ensures
        planned_urls(None, loc, limit) =~= Seq::<Seq<char>>::empty(),
{
}

/// Law: dispatch retains no state between calls: the planned URL sequence is
/// a function of manifest, location and limit alone, so two calls of the
/// dispatcher on identical inputs plan identical URL sequences, in the same
/// order.
pub proof fn lemma_plan_deterministic(
    m: Option<Seq<Seq<char>>>,
    loc: Seq<char>,
    limit: nat,
    first: Seq<Seq<char>>,
    second: Seq<Seq<char>>,
)
    requires
        first == planned_urls(m, loc, limit),
        second == planned_urls(m, loc, limit),
    ensures
        first == second,
{
}

} // verus!

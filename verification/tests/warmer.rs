use hls_warmer::dispatch::{plan_prefetches, warm_plan, PrefetchMethod, PrefetchRequest};
use hls_warmer::gateway::{route, RouteDecision};
use hls_warmer::manifest::{parse, Manifest, ManifestError, Segment};
use hls_warmer::resolver::{resolve_base, resolve_segment};

fn leaf(uris: &[&str]) -> Manifest {
    Manifest::Leaf(
        uris.iter()
            .map(|u| Segment {
                uri: (*u).to_string(),
            })
            .collect(),
    )
}

fn urls(plan: &[PrefetchRequest]) -> Vec<String> {
    plan.iter().map(|p| p.url.clone()).collect()
}

const MEDIA_PLAYLIST: &str = "#EXTM3U\n\
#EXT-X-VERSION:3\n\
#EXT-X-TARGETDURATION:10\n\
#EXT-X-MEDIA-SEQUENCE:0\n\
#EXTINF:10.0,\n\
seg0.ts\n\
#EXTINF:10.0,\n\
seg1.ts\n\
#EXTINF:10.0,\n\
seg2.ts\n\
#EXTINF:10.0,\n\
seg3.ts\n\
#EXTINF:10.0,\n\
seg4.ts\n\
#EXTINF:10.0,\n\
seg5.ts\n\
#EXT-X-ENDLIST\n";

const MASTER_PLAYLIST: &str = "#EXTM3U\n\
#EXT-X-STREAM-INF:BANDWIDTH=800000,RESOLUTION=640x360\n\
low/playlist.m3u8\n\
#EXT-X-STREAM-INF:BANDWIDTH=1400000,RESOLUTION=842x480\n\
mid/playlist.m3u8\n";

const EMPTY_MEDIA_PLAYLIST: &str = "#EXTM3U\n\
#EXT-X-VERSION:3\n\
#EXT-X-TARGETDURATION:10\n\
#EXT-X-ENDLIST\n";

#[test]
fn resolve_base_strips_manifest_filename() {
    assert_eq!(resolve_base("https://host/a/b/c.m3u8"), "https://host/a/b/");
}

#[test]
fn resolve_base_tolerates_trailing_slash() {
    assert_eq!(resolve_base("https://host/a/b/c.m3u8/"), "https://host/a/b/");
    assert_eq!(resolve_base("https://host/a/b/c.m3u8///"), "https://host/a/b/");
}

#[test]
fn resolve_base_degrades_to_empty_without_manifest_shape() {
    assert_eq!(resolve_base("https://host/noext"), "");
    assert_eq!(resolve_base(""), "");
    assert_eq!(resolve_base("c.m3u8"), "");
}

#[test]
fn resolve_base_of_host_root_manifest() {
    assert_eq!(resolve_base("https://host/c.m3u8"), "https://host/");
}

#[test]
fn resolve_base_accepts_any_character_before_m3u8_suffix() {
    assert_eq!(resolve_base("https://host/a/xm3u8"), "https://host/a/");
}

#[test]
fn resolve_segment_appends_relative_uri() {
    assert_eq!(
        resolve_segment("https://host/a/b/", "seg1.ts"),
        "https://host/a/b/seg1.ts"
    );
}

#[test]
fn resolve_segment_passes_absolute_uri_through() {
    assert_eq!(
        resolve_segment("https://host/a/b/", "https://cdn2/seg1.ts"),
        "https://cdn2/seg1.ts"
    );
}

#[test]
fn resolve_segment_appends_path_absolute_uri_verbatim() {
    assert_eq!(
        resolve_segment("https://host/a/b/", "/root/seg1.ts"),
        "https://host/a/b//root/seg1.ts"
    );
}

#[test]
fn resolve_segment_with_empty_base_keeps_relative_uri_alone() {
    assert_eq!(resolve_segment("", "seg1.ts"), "seg1.ts");
}

#[test]
fn parse_media_playlist_keeps_segment_order() {
    let manifest = parse(MEDIA_PLAYLIST.as_bytes()).unwrap();
    match manifest {
        Manifest::Leaf(segments) => {
            let uris: Vec<&str> = segments.iter().map(|s| s.uri.as_str()).collect();
            assert_eq!(
                uris,
                vec!["seg0.ts", "seg1.ts", "seg2.ts", "seg3.ts", "seg4.ts", "seg5.ts"]
            );
        }
        Manifest::Variant => panic!("media playlist decoded as variant"),
    }
}

#[test]
fn parse_master_playlist_is_variant() {
    let manifest = parse(MASTER_PLAYLIST.as_bytes()).unwrap();
    assert!(matches!(manifest, Manifest::Variant));
}

#[test]
fn parse_rejects_non_playlist_bytes() {
    assert_eq!(
        parse(b"this is not a playlist").unwrap_err(),
        ManifestError::Invalid
    );
}

#[test]
fn parse_rejects_truncated_bytes() {
    assert_eq!(parse(b"#EXT").unwrap_err(), ManifestError::Invalid);
}

#[test]
fn plan_selects_first_limit_segments_in_order() {
    let manifest = leaf(&["a.ts", "b.ts", "c.ts", "d.ts", "e.ts", "f.ts"]);
    let plan = plan_prefetches(&manifest, "https://host/live/x.m3u8", 5, "origin");
    assert_eq!(
        urls(&plan),
        vec![
            "https://host/live/a.ts",
            "https://host/live/b.ts",
            "https://host/live/c.ts",
            "https://host/live/d.ts",
            "https://host/live/e.ts"
        ]
    );
    for p in &plan {
        assert_eq!(p.method, PrefetchMethod::Head);
        assert_eq!(p.backend, "origin");
    }
}

#[test]
fn plan_takes_all_segments_when_fewer_than_limit() {
    let manifest = leaf(&["a.ts", "b.ts"]);
    let plan = plan_prefetches(&manifest, "https://host/live/x.m3u8", 5, "origin");
    assert_eq!(
        urls(&plan),
        vec!["https://host/live/a.ts", "https://host/live/b.ts"]
    );
}

#[test]
fn plan_keeps_duplicate_uris() {
    let manifest = leaf(&["a.ts", "a.ts", "a.ts"]);
    let plan = plan_prefetches(&manifest, "https://host/live/x.m3u8", 5, "origin");
    assert_eq!(
        urls(&plan),
        vec![
            "https://host/live/a.ts",
            "https://host/live/a.ts",
            "https://host/live/a.ts"
        ]
    );
}

#[test]
fn plan_is_empty_for_zero_limit() {
    let manifest = leaf(&["a.ts", "b.ts"]);
    let plan = plan_prefetches(&manifest, "https://host/live/x.m3u8", 0, "origin");
    assert!(plan.is_empty());
}

#[test]
fn plan_is_empty_for_empty_playlist() {
    let manifest = leaf(&[]);
    let plan = plan_prefetches(&manifest, "https://host/live/x.m3u8", 5, "origin");
    assert!(plan.is_empty());
}

#[test]
fn plan_is_empty_for_variant_manifest() {
    let plan = plan_prefetches(&Manifest::Variant, "https://host/live/x.m3u8", 5, "origin");
    assert!(plan.is_empty());
    let plan = plan_prefetches(&Manifest::Variant, "https://host/live/x.m3u8", 1000, "origin");
    assert!(plan.is_empty());
}

#[test]
fn plan_with_degraded_base_still_plans_every_segment() {
    let manifest = leaf(&["a.ts", "https://cdn2/b.ts"]);
    let plan = plan_prefetches(&manifest, "https://host/noext", 5, "origin");
    assert_eq!(urls(&plan), vec!["a.ts", "https://cdn2/b.ts"]);
}

#[test]
fn warm_plan_end_to_end_prefetches_first_five() {
    let plan = warm_plan(
        MEDIA_PLAYLIST.as_bytes(),
        "https://cdn/live/stream.m3u8",
        5,
        "origin",
    )
    .unwrap();
    assert_eq!(
        urls(&plan),
        vec![
            "https://cdn/live/seg0.ts",
            "https://cdn/live/seg1.ts",
            "https://cdn/live/seg2.ts",
            "https://cdn/live/seg3.ts",
            "https://cdn/live/seg4.ts"
        ]
    );
    assert!(!urls(&plan).contains(&"https://cdn/live/seg5.ts".to_string()));
    for p in &plan {
        assert_eq!(p.method, PrefetchMethod::Head);
        assert_eq!(p.backend, "origin");
    }
}

#[test]
fn warm_plan_of_master_playlist_is_empty() {
    let plan = warm_plan(
        MASTER_PLAYLIST.as_bytes(),
        "https://cdn/live/stream.m3u8",
        5,
        "origin",
    )
    .unwrap();
    assert!(plan.is_empty());
}

#[test]
fn warm_plan_of_empty_media_playlist_is_empty() {
    let plan = warm_plan(
        EMPTY_MEDIA_PLAYLIST.as_bytes(),
        "https://cdn/live/stream.m3u8",
        5,
        "origin",
    )
    .unwrap();
    assert!(plan.is_empty());
}

#[test]
fn warm_plan_rejects_invalid_body() {
    let err = warm_plan(
        b"garbage bytes",
        "https://cdn/live/stream.m3u8",
        5,
        "origin",
    )
    .unwrap_err();
    assert_eq!(err, ManifestError::Invalid);
}

#[test]
fn warm_plan_twice_plans_identical_prefetches() {
    let first = warm_plan(
        MEDIA_PLAYLIST.as_bytes(),
        "https://cdn/live/stream.m3u8",
        5,
        "origin",
    )
    .unwrap();
    let second = warm_plan(
        MEDIA_PLAYLIST.as_bytes(),
        "https://cdn/live/stream.m3u8",
        5,
        "origin",
    )
    .unwrap();
    assert_eq!(urls(&first), urls(&second));
    assert_eq!(first.len(), second.len());
    for (a, b) in first.iter().zip(second.iter()) {
        assert_eq!(a.method, b.method);
        assert_eq!(a.backend, b.backend);
    }
}

#[test]
fn route_warms_get_of_playlist_path() {
    assert_eq!(route("GET", "/live/stream.m3u8"), RouteDecision::WarmManifest);
}

#[test]
fn route_forwards_other_gets_and_heads() {
    assert_eq!(route("GET", "/live/seg0.ts"), RouteDecision::PassThrough);
    assert_eq!(route("HEAD", "/live/stream.m3u8"), RouteDecision::PassThrough);
}

#[test]
fn route_forwards_purge() {
    assert_eq!(route("PURGE", "/live/stream.m3u8"), RouteDecision::PassThrough);
}

#[test]
fn route_rejects_other_methods() {
    assert_eq!(route("POST", "/live/stream.m3u8"), RouteDecision::Reject);
    assert_eq!(route("DELETE", "/anything"), RouteDecision::Reject);
}

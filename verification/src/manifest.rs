//! Manifest decoding: a raw playlist body becomes a `Manifest`, tagged as a
//! variant (master) playlist or a leaf (media) playlist, all-or-nothing.
//!
//! The playlist grammar itself is decoded by the m3u8-rs crate behind one
//! trusted wrapper; everything downstream works on the plain `Manifest`
//! value it hands back.

use vstd::prelude::*;

verus! {

/// One media-chunk reference of a leaf playlist. A segment has no identity
/// beyond its position in the playlist and its URI, which may be absolute,
/// path-absolute (leading '/') or path-relative.
#[derive(Debug)]
pub struct Segment {
    pub uri: String,
}

impl View for Segment {
    type V = Seq<char>;

    open spec fn view(&self) -> Seq<char> {
        self.uri@
    }
}

/// A parsed playlist: either a variant (master) playlist, which references
/// further playlists and carries nothing to warm, or a leaf (media) playlist
/// with its segments in playback order.
#[derive(Debug)]
pub enum Manifest {
    Variant,
    Leaf(Vec<Segment>),
}

impl View for Manifest {
    /// `None` for a variant playlist; the segment URIs in playlist order for
    /// a leaf playlist.
    type V = Option<Seq<Seq<char>>>;

    open spec fn view(&self) -> Option<Seq<Seq<char>>> {
        match self {
            Manifest::Variant => None,
            Manifest::Leaf(segments) => Some(segments@.map_values(|s: Segment| s@)),
        }
    }
}

/// Failure of manifest decoding: the body does not conform to the playlist
/// grammar. Parsing is all-or-nothing, so this is the only failure.
#[derive(PartialEq, Eq, Structural, Debug, Clone, Copy)]
pub enum ManifestError {
    Invalid,
}

/// What `m3u8_rs::parse_playlist_res` makes of a byte body: `None` when the
/// bytes are not a well-formed playlist, `Some(None)` for a master playlist,
/// and `Some(Some(uris))` for a media playlist whose segment URIs are `uris`,
/// in playlist order.
pub uninterp spec fn hls_playlist_of(bytes: Seq<u8>) -> Option<Option<Seq<Seq<char>>>>;

/// Relies on m3u8_rs::parse_playlist_res: whether a body parses as a
/// playlist, whether that playlist is master or media, and the media
/// segments' URIs in order depend on the bytes alone.
#[verifier::external_body]
fn parse_playlist_raw(bytes: &[u8]) -> (r: Result<Manifest, ManifestError>)
    ensures
        (r is Ok) == (hls_playlist_of(bytes@) is Some),
        r matches Ok(m) ==> Some(m@) == hls_playlist_of(bytes@),
        r matches Err(e) ==> e == ManifestError::Invalid,
{
    match m3u8_rs::parse_playlist_res(bytes) {
        Ok(m3u8_rs::Playlist::MasterPlaylist(_)) => Ok(Manifest::Variant),
        Ok(m3u8_rs::Playlist::MediaPlaylist(pl)) => Ok(Manifest::Leaf(
            pl.segments.into_iter().map(|s| Segment { uri: s.uri }).collect(),
        )),
        Err(_) => Err(ManifestError::Invalid),
    }
}

/// Decode a raw manifest body. On success the result is tagged variant or
/// leaf; a body that does not conform to the playlist grammar is rejected
/// with `ManifestError::Invalid`, and the warming path must then be aborted.
pub fn parse(bytes: &[u8]) -> (r: Result<Manifest, ManifestError>)
    ensures
        (r is Ok) == (hls_playlist_of(bytes@) is Some),
        r matches Ok(m) ==> Some(m@) == hls_playlist_of(bytes@),
        r matches Err(e) ==> e == ManifestError::Invalid,
{
    parse_playlist_raw(bytes)
}

} // verus!

//! Edge-side cache warmer core for HTTP Live Streaming.
//!
//! When a client fetches a playlist manifest, this library classifies the
//! manifest (variant vs. leaf), resolves the first few media-segment URIs
//! against the manifest's own location, and plans HEAD prefetch requests for
//! them so a surrounding proxy can issue them concurrently. The surrounding
//! proxy owns all I/O; everything here is pure planning over plain values.

pub mod dispatch;
pub mod gateway;
pub mod manifest;
pub mod resolver;

//! Decision logic of the media access gateway.
//!
//! The gateway turns a stored file reference into a time-limited signed URL
//! and records playback events. Signing happens upstream of the library: the
//! resolution below fixes which object key is signed and for how long, and
//! the response is assembled from whatever URL the signer produced — every
//! call signs afresh, nothing is cached. The gateway's administrative
//! object-storage operations (upload, delete, existence check) are plain
//! upstream calls; only the three-way existence outcome is modeled here so
//! a transient fault is never silently read as "absent".

use vstd::prelude::*;

use crate::error::{ApiError, ErrorKind};
use crate::model::track_valid;
use crate::provider::current_unix_time;
use crate::store::{has_track_id, play_recorded, CatalogStore};

verus! {

/// Default lifetime of a signed streaming URL, in seconds. Callers pass the
/// lifetime explicitly; this is only the configuration default.
pub const DEFAULT_URL_EXPIRY_SECONDS: u64 = 3600;

/// The streaming response: the signed URL and its validity in seconds.
#[derive(Debug)]
pub struct StreamUrlResponse {
    pub url: String,
    pub expires_in: u64,
}

/// The body of a record-play request.
#[derive(Debug)]
pub struct RecordPlayRequest {
    pub duration: Option<i32>,
}

/// What the signer needs for one streaming request: the object key of the
/// track's media file and the granted lifetime.
#[derive(Debug)]
pub struct StreamKey {
    pub file_path: String,
    pub expires_in: u64,
}

/// Resolves a streaming request. An unknown track identifier is answered
/// not-found and nothing is signed; a known one yields its stored, never
/// empty, file reference together with the requested lifetime.
pub fn resolve_stream_request(store: &CatalogStore, track_id: &str, expiry_seconds: u64) -> (r:
    Result<StreamKey, ApiError>)
    requires
        store.wf(),
    ensures
        (r is Ok) == has_track_id(store.tracks@, track_id@),
        r matches Ok(k) ==> k.expires_in == expiry_seconds && k.file_path@.len() > 0 && (exists|
            i: int,
        |
            0 <= i < store.tracks@.len() && (#[trigger] store.tracks@[i].id@) == track_id@
                && store.tracks@[i].file_path@ == k.file_path@),
        r matches Err(e) ==> e.kind == ErrorKind::NotFound,
{
    match store.get_track_by_id(track_id) {
        Some(t) => {
            proof {
                let w = choose|w: int|
                    0 <= w < store.tracks@.len() && store.tracks@[w] == t;
                assert(store.tracks@[w].id@ == track_id@);
                assert(track_valid(store.tracks@[w]));
            }
            Ok(StreamKey { file_path: t.file_path, expires_in: expiry_seconds })
        },
        None => Err(ApiError::new(ErrorKind::NotFound, "Track not found".to_owned())),
    }
}

/// Assembles the streaming response around one freshly signed URL: the URL
/// and lifetime are carried over exactly, and nothing ties the response to
/// any earlier one — two calls at different times stand on their own.
pub fn make_stream_response(url: String, expires_in: u64) -> (r: StreamUrlResponse)
    ensures
        r.url@ == url@,
        r.expires_in == expires_in,
{
    StreamUrlResponse { url, expires_in }
}

/// Records a playback event for the identifier: exactly one history row is
/// appended, anonymous (no user) and with whatever observed duration the
/// request carried; absent optional fields never fail the request. The
/// track's existence is deliberately not checked, mirroring the service:
/// history rows may reference missing tracks.
pub fn record_play(store: &mut CatalogStore, track_id: &str, req: &RecordPlayRequest) -> (r:
    Result<(), ApiError>)
    requires
        old(store).wf(),
    ensures
        final(store).wf(),
        (r is Ok) == (old(store).next_play_id < u64::MAX),
        r is Ok ==> ({
            let row = final(store).history@.last();
            &&& play_recorded(*old(store), *final(store), row)
            &&& row.track_id@ == track_id@
            &&& row.user_id is None
            &&& row.play_duration == req.duration
        }),
        r matches Err(e) ==> *final(store) == *old(store) && e.kind == ErrorKind::Storage,
{
    let now = current_unix_time();
    match store.record_play(track_id, None, req.duration, now) {
        Ok(u) => Ok(u),
        Err(k) => Err(ApiError::new(k, "Storage failure".to_owned())),
    }
}

/// Outcome of an object-storage existence check. "Absent" means the store
/// answered and the object is not there; "Unknown" means the check itself
/// failed, which callers must log before flattening, so a transient fault is
/// never silently read as absence.
#[derive(Clone, Copy, Debug, PartialEq, Eq, Structural)]
pub enum Existence {
    Present,
    Absent,
    Unknown,
}

/// The flattened public answer: only a definite "present" maps to true.
pub fn existence_to_bool(e: &Existence) -> (r: bool)
    ensures
        r == (e is Present),
{
    match e {
        Existence::Present => true,
        Existence::Absent => false,
        Existence::Unknown => false,
    }
}

} // verus!

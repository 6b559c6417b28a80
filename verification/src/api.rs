//! Handler-level semantics of the catalog endpoints: the request and
//! response shapes, and how store outcomes map to the uniform error
//! envelope. Routing, JSON and transport stay outside the library.

use vstd::prelude::*;

use crate::error::{ApiError, ErrorKind};
use crate::model::{str_of, CreatePlaylist, CreateTrack, Playlist, Track};
use crate::provider::current_unix_time;
use crate::store::{added_ok, created_ok, created_playlist_ok, deleted_step, has_pair,
    has_playlist_id, has_track_id, members_of, removed_pair_step, search_filter, CatalogStore};

verus! {

/// The generic response envelope of the API.
pub struct ApiResponse<T> {
    pub data: T,
    pub success: bool,
    pub message: Option<String>,
}

impl<T> ApiResponse<T> {
    /// Wraps a successful payload.
    pub fn success(data: T) -> (r: Self)
        ensures
            r.data == data,
            r.success,
            r.message is None,
    {
        ApiResponse { data, success: true, message: None }
    }

    /// Wraps a payload together with an error message.
    pub fn error(data: T, message: String) -> (r: Self)
        ensures
            r.data == data,
            !r.success,
            r.message matches Some(m) && m@ == message@,
    {
        ApiResponse { data, success: false, message: Some(message) }
    }
}

/// The query parameters of the track listing endpoint: no query lists the
/// whole catalog, a query searches it.
pub struct SearchQuery {
    pub q: Option<String>,
}

/// The track listing response: the rows and their count.
#[derive(Debug)]
pub struct TrackListResponse {
    pub tracks: Vec<Track>,
    pub count: usize,
}

/// One playlist together with its member tracks in position order.
#[derive(Debug)]
pub struct PlaylistResponse {
    pub playlist: Playlist,
    pub tracks: Vec<Track>,
}

/// The body of an add-to-playlist request; an absent position appends at the
/// end, computed as the current member count.
#[derive(Debug)]
pub struct AddTrackRequest {
    pub track_id: String,
    pub position: Option<i32>,
}

/// Lists or searches tracks: without a query the whole catalog in listing
/// order, with one exactly the matching rows in the same order.
pub fn list_tracks(store: &CatalogStore, params: &SearchQuery) -> (r: TrackListResponse)
    requires
        store.wf(),
    ensures
        r.count == r.tracks@.len(),
        match params.q {
            Some(q) => r.tracks@ == search_filter(store.tracks@, q@),
            None => r.tracks@ == store.tracks@,
        },
{
    let tracks = match &params.q {
        Some(q) => store.search_tracks(str_of(q)),
        None => store.get_all_tracks(),
    };
    let count = tracks.len();
    TrackListResponse { tracks, count }
}

/// Returns the track or a not-found error; a missing identifier is never a
/// failure of any other kind.
pub fn get_track(store: &CatalogStore, id: &str) -> (r: Result<Track, ApiError>)
    requires
        store.wf(),
    ensures
        (r is Ok) == has_track_id(store.tracks@, id@),
        r matches Ok(t) ==> t.id@ == id@ && store.tracks@.contains(t),
        r matches Err(e) ==> e.kind == ErrorKind::NotFound,
{
    match store.get_track_by_id(id) {
        Some(t) => {
            proof {
                let w = choose|w: int|
                    0 <= w < store.tracks@.len() && store.tracks@[w] == t;
                assert(store.tracks@[w].id@ == id@);
            }
            Ok(t)
        },
        None => Err(ApiError::new(ErrorKind::NotFound, "Track not found".to_owned())),
    }
}

/// Creates a track from the payload: a fresh identifier, one creation
/// instant for both timestamps, and the stored entity echoed back. An empty
/// file reference is rejected as validation; an identifier collision is a
/// conflict and changes nothing.
pub fn create_track(store: &mut CatalogStore, payload: CreateTrack) -> (r: Result<
    Track,
    ApiError,
>)
    requires
        old(store).wf(),
    ensures
        final(store).wf(),
        r matches Ok(t) ==> ({
            &&& created_ok(*old(store), *final(store), t)
            &&& t.created_at == t.updated_at
            &&& t.title@ == payload.title@
            &&& t.artist@ == payload.artist@
            &&& t.album@ == payload.album@
            &&& t.duration == payload.duration
            &&& t.file_path@ == payload.file_path@
            &&& t.cover_art_path == payload.cover_art_path
            &&& t.genre == payload.genre
            &&& t.year == payload.year
            &&& t.track_number == payload.track_number
        }),
        payload.file_path@.len() == 0 ==> r is Err,
        r matches Err(e) ==> *final(store) == *old(store) && (e.kind == ErrorKind::Validation
            <==> payload.file_path@.len() == 0) && (e.kind == ErrorKind::Validation || e.kind
            == ErrorKind::Conflict),
{
    let t = payload.into_track();
    match store.create_track(t) {
        Ok(stored) => Ok(stored),
        Err(k) => {
            let message = match k {
                ErrorKind::Validation => "file_path must not be empty".to_owned(),
                _ => "Track identifier conflict".to_owned(),
            };
            Err(ApiError::new(k, message))
        },
    }
}

/// Deletes a track by identifier, cascading over its playlist memberships.
/// The second deletion of one identifier is answered not-found, never a
/// failure of any other kind.
pub fn delete_track(store: &mut CatalogStore, id: &str) -> (r: Result<(), ApiError>)
    requires
        old(store).wf(),
    ensures
        final(store).wf(),
        deleted_step(*old(store), *final(store), id@, has_track_id(old(store).tracks@, id@)),
        (r is Ok) == has_track_id(old(store).tracks@, id@),
        r matches Err(e) ==> e.kind == ErrorKind::NotFound,
{
    if store.delete_track(id) {
        Ok(())
    } else {
        Err(ApiError::new(ErrorKind::NotFound, "Track not found".to_owned()))
    }
}

/// Lists every playlist in name order.
pub fn list_playlists(store: &CatalogStore) -> (r: Vec<Playlist>)
    requires
        store.wf(),
    ensures
        r@ == store.playlists@,
{
    store.get_all_playlists()
}

/// Returns one playlist with its member tracks in position order, or a
/// not-found error.
pub fn get_playlist(store: &CatalogStore, id: &str) -> (r: Result<PlaylistResponse, ApiError>)
    requires
        store.wf(),
    ensures
        (r is Ok) == has_playlist_id(store.playlists@, id@),
        r matches Ok(resp) ==> ({
            let ms = members_of(store.memberships@, id@);
            &&& resp.playlist.id@ == id@ && store.playlists@.contains(resp.playlist)
            &&& resp.tracks@.len() == ms.len()
            &&& forall|i: int|
                0 <= i < ms.len() ==> (#[trigger] resp.tracks@[i].id@) == ms[i].track_id@
                    && store.tracks@.contains(resp.tracks@[i])
            &&& forall|i: int, j: int|
                0 <= i < j < ms.len() ==> (#[trigger] ms[i]).position <= (#[trigger] ms[j]).position
        }),
        r matches Err(e) ==> e.kind == ErrorKind::NotFound,
{
    match store.get_playlist_by_id(id) {
        Some(playlist) => {
            proof {
                let w = choose|w: int|
                    0 <= w < store.playlists@.len() && store.playlists@[w] == playlist;
                assert(store.playlists@[w].id@ == id@);
            }
            let tracks = store.get_playlist_tracks(id);
            Ok(PlaylistResponse { playlist, tracks })
        },
        None => Err(ApiError::new(ErrorKind::NotFound, "Playlist not found".to_owned())),
    }
}

/// Creates a playlist from the payload, echoing the stored entity.
pub fn create_playlist(store: &mut CatalogStore, payload: CreatePlaylist) -> (r: Result<
    Playlist,
    ApiError,
>)
    requires
        old(store).wf(),
    ensures
        final(store).wf(),
        r matches Ok(p) ==> ({
            &&& created_playlist_ok(*old(store), *final(store), p)
            &&& p.name@ == payload.name@
            &&& p.description == payload.description
            &&& p.created_at == p.updated_at
        }),
        r matches Err(e) ==> *final(store) == *old(store) && e.kind == ErrorKind::Conflict,
{
    let p = payload.into_playlist();
    match store.create_playlist(p) {
        Ok(stored) => Ok(stored),
        Err(k) => Err(ApiError::new(k, "Playlist identifier conflict".to_owned())),
    }
}

/// Adds a track to a playlist. An absent position appends at the end
/// (the current member count); a pair already present is rejected as a
/// conflict, never stored twice; unknown parents are rejected as not found.
pub fn add_track_to_playlist(
    store: &mut CatalogStore,
    playlist_id: &str,
    req: &AddTrackRequest,
) -> (r: Result<(), ApiError>)
    requires
        old(store).wf(),
    ensures
        final(store).wf(),
        (r is Ok) == (!(req.position is None && members_of(
            old(store).memberships@,
            playlist_id@,
        ).len() > i32::MAX) && has_playlist_id(old(store).playlists@, playlist_id@)
            && has_track_id(old(store).tracks@, req.track_id@) && !has_pair(
            old(store).memberships@,
            playlist_id@,
            req.track_id@,
        )),
        r is Ok ==> (exists|pp: i32, aa: i64|
            pp as int == (match req.position {
                Some(x) => x as int,
                None => members_of(old(store).memberships@, playlist_id@).len() as int,
            }) && #[trigger] added_ok(
                *old(store),
                *final(store),
                playlist_id@,
                req.track_id@,
                pp,
                aa,
            )),
        r matches Err(e) ==> *final(store) == *old(store) && e.kind == (if req.position is None
            && members_of(old(store).memberships@, playlist_id@).len() > i32::MAX {
            ErrorKind::Storage
        } else if !has_playlist_id(old(store).playlists@, playlist_id@) || !has_track_id(
            old(store).tracks@,
            req.track_id@,
        ) {
            ErrorKind::NotFound
        } else {
            ErrorKind::Conflict
        }),
{
    let position: i32 = match &req.position {
        Some(p) => *p,
        None => {
            let current = store.get_playlist_tracks(playlist_id);
            if current.len() > (i32::MAX as usize) {
                return Err(
                    ApiError::new(ErrorKind::Storage, "Playlist position overflow".to_owned()),
                );
            }
            current.len() as i32
        },
    };
    let now = current_unix_time();
    match store.add_track_to_playlist(playlist_id, str_of(&req.track_id), position, now) {
        Ok(u) => Ok(u),
        Err(k) => {
            let message = match k {
                ErrorKind::NotFound => "Playlist or track not found".to_owned(),
                _ => "Track already in playlist".to_owned(),
            };
            Err(ApiError::new(k, message))
        },
    }
}

/// Removes a track from a playlist. A pair that was never added is answered
/// not-found — "nothing removed" — which is distinct from a storage failure.
pub fn remove_track_from_playlist(
    store: &mut CatalogStore,
    playlist_id: &str,
    track_id: &str,
) -> (r: Result<(), ApiError>)
    requires
        old(store).wf(),
    ensures
        final(store).wf(),
        removed_pair_step(
            *old(store),
            *final(store),
            playlist_id@,
            track_id@,
            has_pair(old(store).memberships@, playlist_id@, track_id@),
        ),
        (r is Ok) == has_pair(old(store).memberships@, playlist_id@, track_id@),
        r matches Err(e) ==> e.kind == ErrorKind::NotFound,
{
    if store.remove_track_from_playlist(playlist_id, track_id) {
        Ok(())
    } else {
        Err(ApiError::new(ErrorKind::NotFound, "Track not found in playlist".to_owned()))
    }
}

} // verus!

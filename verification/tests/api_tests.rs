use navicore_music::api::{add_track_to_playlist, create_playlist, create_track, delete_track,
    get_playlist, get_track, list_playlists, list_tracks, remove_track_from_playlist,
    AddTrackRequest, ApiResponse, SearchQuery};
use navicore_music::auth::{make_claims, make_login_response, token_lifetime_seconds,
    DEV_TOKEN_EXPIRY_HOURS};
use navicore_music::config::Config;
use navicore_music::error::{ApiError, ErrorKind};
use navicore_music::model::{CreatePlaylist, CreateTrack, Track};
use navicore_music::store::CatalogStore;
use navicore_music::stream::{existence_to_bool, make_stream_response, record_play,
    resolve_stream_request, Existence, RecordPlayRequest, DEFAULT_URL_EXPIRY_SECONDS};

fn payload(title: &str, artist: &str, album: &str) -> CreateTrack {
    CreateTrack {
        title: title.to_string(),
        artist: artist.to_string(),
        album: album.to_string(),
        duration: 240,
        file_path: format!("media/{}.mp3", title),
        cover_art_path: None,
        genre: None,
        year: None,
        track_number: None,
    }
}

fn created(store: &mut CatalogStore, title: &str) -> Track {
    create_track(store, payload(title, "Artist", "Album")).expect("create should succeed")
}

#[test]
fn list_tracks_reports_count_and_honors_query() {
    let mut store = CatalogStore::new();
    created(&mut store, "Alpha");
    created(&mut store, "Beta");
    let all = list_tracks(&store, &SearchQuery { q: None });
    assert_eq!(all.count, 2);
    assert_eq!(all.tracks.len(), 2);
    let some = list_tracks(&store, &SearchQuery { q: Some("Alph".to_string()) });
    assert_eq!(some.count, 1);
    assert_eq!(some.tracks[0].title, "Alpha");
    let none = list_tracks(&store, &SearchQuery { q: Some("missing".to_string()) });
    assert_eq!(none.count, 0);
}

#[test]
fn get_track_maps_missing_id_to_not_found() {
    let store = CatalogStore::new();
    let err = get_track(&store, "nope").expect_err("should be absent");
    assert_eq!(err.kind, ErrorKind::NotFound);
    assert_eq!(err.status_code(), 404);
    assert_eq!(err.describe(), "Track not found");
}

#[test]
fn create_track_echoes_and_validates() {
    let mut store = CatalogStore::new();
    let t = create_track(&mut store, payload("Echo", "Artist", "Album"))
        .expect("create should succeed");
    assert_eq!(t.title, "Echo");
    assert_eq!(t.created_at, t.updated_at);

    let mut bad = payload("NoFile", "Artist", "Album");
    bad.file_path = String::new();
    let err = create_track(&mut store, bad).expect_err("empty file reference is invalid");
    assert_eq!(err.kind, ErrorKind::Validation);
    assert_eq!(err.status_code(), 400);
}

#[test]
fn delete_track_maps_absent_to_not_found() {
    let mut store = CatalogStore::new();
    let t = created(&mut store, "Gone");
    assert!(delete_track(&mut store, &t.id).is_ok());
    let err = delete_track(&mut store, &t.id).expect_err("second delete finds nothing");
    assert_eq!(err.kind, ErrorKind::NotFound);
}

#[test]
fn playlist_endpoints_roundtrip() {
    let mut store = CatalogStore::new();
    let pl = create_playlist(
        &mut store,
        CreatePlaylist { name: "Mix".to_string(), description: Some("desc".to_string()) },
    )
        .expect("create should succeed");
    assert_eq!(pl.name, "Mix");
    assert_eq!(pl.created_at, pl.updated_at);
    assert_eq!(list_playlists(&store).len(), 1);

    let t2 = created(&mut store, "Two");
    let t0 = created(&mut store, "Zero");
    let t1 = created(&mut store, "One");
    for (t, pos) in [(&t2, Some(2)), (&t0, Some(0)), (&t1, Some(1))] {
        add_track_to_playlist(
            &mut store,
            &pl.id,
            &AddTrackRequest { track_id: t.id.clone(), position: pos },
        )
            .expect("add should succeed");
    }
    let resp = get_playlist(&store, &pl.id).expect("playlist exists");
    let titles: Vec<&str> = resp.tracks.iter().map(|t| t.title.as_str()).collect();
    assert_eq!(titles, vec!["Zero", "One", "Two"]);

    let missing = get_playlist(&store, "nope").expect_err("absent playlist");
    assert_eq!(missing.kind, ErrorKind::NotFound);
}

#[test]
fn add_without_position_appends_at_end() {
    let mut store = CatalogStore::new();
    let pl = create_playlist(
        &mut store,
        CreatePlaylist { name: "Mix".to_string(), description: None },
    )
        .expect("create should succeed");
    let a = created(&mut store, "First");
    let b = created(&mut store, "Second");
    for t in [&a, &b] {
        add_track_to_playlist(
            &mut store,
            &pl.id,
            &AddTrackRequest { track_id: t.id.clone(), position: None },
        )
            .expect("add should succeed");
    }
    let resp = get_playlist(&store, &pl.id).expect("playlist exists");
    let titles: Vec<&str> = resp.tracks.iter().map(|t| t.title.as_str()).collect();
    assert_eq!(titles, vec!["First", "Second"]);
}

#[test]
fn duplicate_add_is_a_conflict() {
    let mut store = CatalogStore::new();
    let pl = create_playlist(
        &mut store,
        CreatePlaylist { name: "Mix".to_string(), description: None },
    )
        .expect("create should succeed");
    let t = created(&mut store, "Song");
    let req = AddTrackRequest { track_id: t.id.clone(), position: Some(0) };
    add_track_to_playlist(&mut store, &pl.id, &req).expect("first add should succeed");
    let err = add_track_to_playlist(&mut store, &pl.id, &req).expect_err("duplicate pair");
    assert_eq!(err.kind, ErrorKind::Conflict);
}

#[test]
fn remove_never_added_is_not_found_not_storage() {
    let mut store = CatalogStore::new();
    let pl = create_playlist(
        &mut store,
        CreatePlaylist { name: "Mix".to_string(), description: None },
    )
        .expect("create should succeed");
    let t = created(&mut store, "Song");
    let err = remove_track_from_playlist(&mut store, &pl.id, &t.id)
        .expect_err("nothing to remove");
    assert_eq!(err.kind, ErrorKind::NotFound);
    assert_ne!(err.kind, ErrorKind::Storage);
}

#[test]
fn stream_url_for_unknown_track_is_not_found() {
    let store = CatalogStore::new();
    let err = resolve_stream_request(&store, "nope", DEFAULT_URL_EXPIRY_SECONDS)
        .expect_err("unknown track");
    assert_eq!(err.kind, ErrorKind::NotFound);
}

#[test]
fn stream_resolution_hands_out_the_stored_key() {
    let mut store = CatalogStore::new();
    let t = created(&mut store, "Stream");
    let key = resolve_stream_request(&store, &t.id, 3600).expect("track exists");
    assert_eq!(key.file_path, t.file_path);
    assert!(!key.file_path.is_empty());
    assert_eq!(key.expires_in, 3600);
}

#[test]
fn two_stream_responses_are_independent() {
    let mut store = CatalogStore::new();
    let t = created(&mut store, "Stream");
    let k1 = resolve_stream_request(&store, &t.id, 3600).expect("track exists");
    let k2 = resolve_stream_request(&store, &t.id, 3600).expect("track exists");
    assert_eq!(k1.file_path, k2.file_path);
    let r1 = make_stream_response("https://signed.example/one".to_string(), k1.expires_in);
    let r2 = make_stream_response("https://signed.example/two".to_string(), k2.expires_in);
    assert_eq!(r1.expires_in, 3600);
    assert_eq!(r2.expires_in, 3600);
    assert_ne!(r1.url, r2.url);
}

#[test]
fn record_play_without_optional_fields_succeeds() {
    let mut store = CatalogStore::new();
    let t = created(&mut store, "Played");
    record_play(&mut store, &t.id, &RecordPlayRequest { duration: None })
        .expect("record should succeed");
    assert_eq!(store.history.len(), 1);
    assert!(store.history[0].user_id.is_none());
    assert!(store.history[0].play_duration.is_none());
}

#[test]
fn existence_check_keeps_unknown_distinct_from_absent() {
    assert!(existence_to_bool(&Existence::Present));
    assert!(!existence_to_bool(&Existence::Absent));
    assert!(!existence_to_bool(&Existence::Unknown));
    assert_ne!(Existence::Absent, Existence::Unknown);
}

#[test]
fn api_response_envelopes() {
    let ok: ApiResponse<u32> = ApiResponse::success(7);
    assert!(ok.success);
    assert_eq!(ok.data, 7);
    assert!(ok.message.is_none());
    let bad: ApiResponse<u32> = ApiResponse::error(0, "boom".to_string());
    assert!(!bad.success);
    assert_eq!(bad.message.as_deref(), Some("boom"));
}

#[test]
fn error_kinds_map_to_status_categories() {
    assert_eq!(ApiError::new(ErrorKind::NotFound, "x".to_string()).status_code(), 404);
    assert_eq!(ApiError::new(ErrorKind::Validation, "x".to_string()).status_code(), 400);
    assert_eq!(ApiError::new(ErrorKind::Conflict, "x".to_string()).status_code(), 500);
    assert_eq!(ApiError::new(ErrorKind::Storage, "x".to_string()).status_code(), 500);
    assert_eq!(ApiError::new(ErrorKind::Upstream, "x".to_string()).status_code(), 500);
}

#[test]
fn dev_claims_are_fixed_identity_with_expiry() {
    let claims = make_claims(1_000, DEV_TOKEN_EXPIRY_HOURS).expect("no overflow");
    assert_eq!(claims.sub, "dev-user");
    assert_eq!(claims.iat, 1_000);
    assert_eq!(claims.exp, 1_000 + 24 * 3600);
    assert!(make_claims(i64::MAX, 24).is_none());
    assert_eq!(token_lifetime_seconds(24), Some(86_400));
    let resp = make_login_response("tok".to_string(), 86_400);
    assert_eq!(resp.token, "tok");
    assert_eq!(resp.expires_in, 86_400);
}

#[test]
fn config_dev_defaults_are_documented_values() {
    let c = Config::dev_defaults();
    assert_eq!(c.server.host, "0.0.0.0");
    assert_eq!(c.server.port, 3000);
    assert_eq!(c.database.url, "sqlite://data/navicore-music.db");
    assert_eq!(c.storage.bucket_name, "navicore-music-files");
    assert_eq!(c.storage.region, "auto");
    assert!(c.storage.endpoint_url.is_none());
    assert_eq!(c.auth.jwt_secret, "dev-jwt-secret");
    assert_eq!(c.auth.jwt_expiry_hours, 24);
}

#[test]
fn text_order_and_search_helpers() {
    assert!(navicore_music::text::str_le("abc", "abd"));
    assert!(navicore_music::text::str_le("ab", "abc"));
    assert!(!navicore_music::text::str_le("b", "ab"));
    assert!(navicore_music::text::str_eq("same", "same"));
    assert!(!navicore_music::text::str_eq("same", "sane"));
    assert!(navicore_music::text::str_contains("Quiet Harbors", "Harbor"));
    assert!(navicore_music::text::str_contains("anything", ""));
    assert!(!navicore_music::text::str_contains("short", "longer than hay"));
}

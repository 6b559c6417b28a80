use navicore_music::model::{CreatePlaylist, CreateTrack, Track};
use navicore_music::store::CatalogStore;

fn payload(title: &str, artist: &str, album: &str, file_path: &str) -> CreateTrack {
    CreateTrack {
        title: title.to_string(),
        artist: artist.to_string(),
        album: album.to_string(),
        duration: 180,
        file_path: file_path.to_string(),
        cover_art_path: None,
        genre: None,
        year: None,
        track_number: None,
    }
}

fn stored(store: &mut CatalogStore, title: &str, artist: &str, album: &str) -> Track {
    let p = payload(title, artist, album, "media/file.mp3");
    let t = p.into_track();
    store.create_track(t).expect("create should succeed")
}

#[test]
fn create_get_delete_roundtrip() {
    let mut store = CatalogStore::new();
    let p = payload("A", "B", "C", "b/c/a.mp3");
    let t = p.into_track();
    let created = store.create_track(t).expect("create should succeed");
    assert_eq!(created.title, "A");
    assert_eq!(created.artist, "B");
    assert_eq!(created.album, "C");
    assert_eq!(created.duration, 180);
    assert_eq!(created.file_path, "b/c/a.mp3");
    assert_eq!(created.created_at, created.updated_at);
    assert!(!created.id.is_empty());

    let fetched = store.get_track_by_id(&created.id).expect("track should be stored");
    assert_eq!(fetched.id, created.id);
    assert_eq!(fetched.title, "A");
    assert_eq!(fetched.created_at, created.created_at);

    assert!(store.delete_track(&created.id));
    assert!(store.get_track_by_id(&created.id).is_none());
}

#[test]
fn created_identifiers_are_unique() {
    let mut store = CatalogStore::new();
    let t1 = stored(&mut store, "One", "Artist", "Album");
    let t2 = stored(&mut store, "Two", "Artist", "Album");
    assert_ne!(t1.id, t2.id);
    assert_eq!(t1.created_at, t1.updated_at);
    assert_eq!(t2.created_at, t2.updated_at);
}

#[test]
fn delete_twice_is_idempotent_signal() {
    let mut store = CatalogStore::new();
    let t = stored(&mut store, "Song", "Artist", "Album");
    assert!(store.delete_track(&t.id));
    assert!(!store.delete_track(&t.id));
}

#[test]
fn create_rejects_empty_file_reference() {
    let mut store = CatalogStore::new();
    let p = payload("Song", "Artist", "Album", "");
    let t = p.into_track();
    assert!(store.create_track(t).is_err());
    assert_eq!(store.get_all_tracks().len(), 0);
}

#[test]
fn search_matches_album_only_substring() {
    let mut store = CatalogStore::new();
    stored(&mut store, "Night Drive", "Someone", "Quiet Harbors");
    stored(&mut store, "Morning", "Someone", "Loud City");
    let hits = store.search_tracks("Harbor");
    assert_eq!(hits.len(), 1);
    assert_eq!(hits[0].album, "Quiet Harbors");
}

#[test]
fn search_without_match_is_empty_not_error() {
    let mut store = CatalogStore::new();
    stored(&mut store, "Night Drive", "Someone", "Quiet Harbors");
    let hits = store.search_tracks("zzz-not-there");
    assert!(hits.is_empty());
}

#[test]
fn search_empty_query_matches_everything() {
    let mut store = CatalogStore::new();
    stored(&mut store, "One", "A", "X");
    stored(&mut store, "Two", "B", "Y");
    assert_eq!(store.search_tracks("").len(), 2);
}

#[test]
fn listing_orders_by_artist_album_track_number() {
    let mut store = CatalogStore::new();
    let mut p1 = payload("T1", "Beta", "Album", "m/1.mp3");
    p1.track_number = Some(2);
    let mut p2 = payload("T2", "Alpha", "Zed", "m/2.mp3");
    p2.track_number = Some(9);
    let mut p3 = payload("T3", "Beta", "Album", "m/3.mp3");
    p3.track_number = Some(1);
    let mut p4 = payload("T4", "Beta", "Album", "m/4.mp3");
    p4.track_number = None;
    for p in [p1, p2, p3, p4] {
        let t = p.into_track();
        store.create_track(t).expect("create should succeed");
    }
    let all = store.get_all_tracks();
    let titles: Vec<&str> = all.iter().map(|t| t.title.as_str()).collect();
    // Alpha first; within Beta/Album an absent track number sorts first, then 1, then 2.
    assert_eq!(titles, vec!["T2", "T4", "T3", "T1"]);
}

#[test]
fn playlists_list_in_name_order() {
    let mut store = CatalogStore::new();
    for name in ["Evening", "Anthems", "Commute"] {
        let p = CreatePlaylist { name: name.to_string(), description: None }.into_playlist();
        store.create_playlist(p).expect("create should succeed");
    }
    let names: Vec<String> = store.get_all_playlists().into_iter().map(|p| p.name).collect();
    assert_eq!(names, vec!["Anthems", "Commute", "Evening"]);
}

#[test]
fn playlist_tracks_come_back_in_position_order() {
    let mut store = CatalogStore::new();
    let pl = CreatePlaylist { name: "Mix".to_string(), description: None }.into_playlist();
    let pl = store.create_playlist(pl).expect("create should succeed");
    let t_a = stored(&mut store, "PosTwo", "A", "X");
    let t_b = stored(&mut store, "PosZero", "B", "X");
    let t_c = stored(&mut store, "PosOne", "C", "X");
    store.add_track_to_playlist(&pl.id, &t_a.id, 2, 100).expect("add should succeed");
    store.add_track_to_playlist(&pl.id, &t_b.id, 0, 101).expect("add should succeed");
    store.add_track_to_playlist(&pl.id, &t_c.id, 1, 102).expect("add should succeed");
    let listed = store.get_playlist_tracks(&pl.id);
    let titles: Vec<&str> = listed.iter().map(|t| t.title.as_str()).collect();
    assert_eq!(titles, vec!["PosZero", "PosOne", "PosTwo"]);
}

#[test]
fn duplicate_membership_is_rejected_not_duplicated() {
    let mut store = CatalogStore::new();
    let pl = CreatePlaylist { name: "Mix".to_string(), description: None }.into_playlist();
    let pl = store.create_playlist(pl).expect("create should succeed");
    let t = stored(&mut store, "Song", "A", "X");
    store.add_track_to_playlist(&pl.id, &t.id, 0, 100).expect("first add should succeed");
    assert!(store.add_track_to_playlist(&pl.id, &t.id, 5, 101).is_err());
    assert_eq!(store.get_playlist_tracks(&pl.id).len(), 1);
}

#[test]
fn add_to_unknown_parent_is_refused() {
    let mut store = CatalogStore::new();
    let t = stored(&mut store, "Song", "A", "X");
    assert!(store.add_track_to_playlist("no-such-playlist", &t.id, 0, 100).is_err());
    let pl = CreatePlaylist { name: "Mix".to_string(), description: None }.into_playlist();
    let pl = store.create_playlist(pl).expect("create should succeed");
    assert!(store.add_track_to_playlist(&pl.id, "no-such-track", 0, 100).is_err());
}

#[test]
fn remove_membership_reports_whether_it_existed() {
    let mut store = CatalogStore::new();
    let pl = CreatePlaylist { name: "Mix".to_string(), description: None }.into_playlist();
    let pl = store.create_playlist(pl).expect("create should succeed");
    let t = stored(&mut store, "Song", "A", "X");
    assert!(!store.remove_track_from_playlist(&pl.id, &t.id));
    store.add_track_to_playlist(&pl.id, &t.id, 0, 100).expect("add should succeed");
    assert!(store.remove_track_from_playlist(&pl.id, &t.id));
    assert!(!store.remove_track_from_playlist(&pl.id, &t.id));
}

#[test]
fn deleting_track_cascades_over_memberships() {
    let mut store = CatalogStore::new();
    let pl = CreatePlaylist { name: "Mix".to_string(), description: None }.into_playlist();
    let pl = store.create_playlist(pl).expect("create should succeed");
    let t = stored(&mut store, "Song", "A", "X");
    store.add_track_to_playlist(&pl.id, &t.id, 0, 100).expect("add should succeed");
    assert!(store.delete_track(&t.id));
    assert!(store.get_playlist_tracks(&pl.id).is_empty());
}

#[test]
fn anonymous_play_appends_exactly_one_row() {
    let mut store = CatalogStore::new();
    let t = stored(&mut store, "Song", "A", "X");
    assert_eq!(store.history.len(), 0);
    store.record_play(&t.id, None, None, 500).expect("record should succeed");
    assert_eq!(store.history.len(), 1);
    let row = &store.history[0];
    assert_eq!(row.track_id, t.id);
    assert!(row.user_id.is_none());
    assert!(row.play_duration.is_none());
    assert_eq!(row.played_at, 500);
}

#[test]
fn play_history_only_grows_with_increasing_ids() {
    let mut store = CatalogStore::new();
    store.record_play("t-1", Some("alice"), Some(42), 500).expect("record should succeed");
    store.record_play("t-2", None, None, 501).expect("record should succeed");
    assert_eq!(store.history.len(), 2);
    assert!(store.history[0].id < store.history[1].id);
    assert_eq!(store.history[0].user_id.as_deref(), Some("alice"));
    assert_eq!(store.history[0].play_duration, Some(42));
}

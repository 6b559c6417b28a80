//! The catalog's entities and the order and match relations over them.
//!
//! Timestamps are whole seconds since the Unix epoch; identifiers are opaque
//! strings. Cloning any entity preserves it exactly, which the `Clone`
//! implementations state explicitly.

use vstd::prelude::*;

use crate::provider::{current_unix_time, mint_id};
use crate::text::{contains_seq, lex_le, lemma_lex_le_antisymmetric, lemma_lex_le_total,
    lemma_lex_le_transitive};

verus! {

/// A single media item of the catalog.
#[derive(Debug)]
pub struct Track {
    pub id: String,
    pub title: String,
    pub artist: String,
    pub album: String,
    /// Length in whole seconds.
    pub duration: u32,
    /// Key of the media object in object storage; never empty for a stored track.
    pub file_path: String,
    pub cover_art_path: Option<String>,
    pub genre: Option<String>,
    pub year: Option<u16>,
    pub track_number: Option<u16>,
    pub created_at: i64,
    pub updated_at: i64,
}

/// A named, ordered collection of tracks; the ordering lives in the
/// membership relation, not here.
#[derive(Debug)]
pub struct Playlist {
    pub id: String,
    pub name: String,
    pub description: Option<String>,
    pub created_at: i64,
    pub updated_at: i64,
}

/// Associates one playlist with one track at one ordinal position.
#[derive(Debug)]
pub struct PlaylistTrack {
    pub playlist_id: String,
    pub track_id: String,
    pub position: i32,
    pub added_at: i64,
}

/// One appended playback event; never updated or deleted.
#[derive(Debug)]
pub struct PlayHistory {
    pub id: u64,
    pub track_id: String,
    pub user_id: Option<String>,
    pub played_at: i64,
    pub play_duration: Option<i32>,
}

/// Storage shape of an account; the login flow that would exercise it is a
/// stub, so no behavior beyond the shape is defined here.
#[derive(Debug)]
pub struct User {
    pub id: String,
    pub username: String,
    pub email: String,
    pub password_hash: String,
    pub is_admin: bool,
    pub created_at: i64,
    pub last_login: Option<i64>,
}

/// A signed, time-limited access URL for one media object.
#[derive(Debug)]
pub struct StreamUrl {
    pub url: String,
    pub expires_at: i64,
}

/// A free-text catalog query with optional paging bounds.
#[derive(Debug)]
pub struct SearchQuery {
    pub query: String,
    pub limit: Option<u32>,
    pub offset: Option<u32>,
}

/// Input for creating a track; the store mints identifier and timestamps.
#[derive(Debug)]
pub struct CreateTrack {
    pub title: String,
    pub artist: String,
    pub album: String,
    pub duration: u32,
    pub file_path: String,
    pub cover_art_path: Option<String>,
    pub genre: Option<String>,
    pub year: Option<u16>,
    pub track_number: Option<u16>,
}

/// Input for creating a playlist.
#[derive(Debug)]
pub struct CreatePlaylist {
    pub name: String,
    pub description: Option<String>,
}

fn clone_opt_string(o: &Option<String>) -> (r: Option<String>)
    ensures
        r == *o,
{
    match o {
        Some(s) => Some(s.clone()),
        None => None,
    }
}

impl Clone for Track {
    fn clone(&self) -> (r: Self)
        ensures
            r == *self,
    {
        Track {
            id: self.id.clone(),
            title: self.title.clone(),
            artist: self.artist.clone(),
            album: self.album.clone(),
            duration: self.duration,
            file_path: self.file_path.clone(),
            cover_art_path: clone_opt_string(&self.cover_art_path),
            genre: clone_opt_string(&self.genre),
            year: self.year,
            track_number: self.track_number,
            created_at: self.created_at,
            updated_at: self.updated_at,
        }
    }
}

impl Clone for Playlist {
    fn clone(&self) -> (r: Self)
        ensures
            r == *self,
    {
        Playlist {
            id: self.id.clone(),
            name: self.name.clone(),
            description: clone_opt_string(&self.description),
            created_at: self.created_at,
            updated_at: self.updated_at,
        }
    }
}

impl Clone for PlaylistTrack {
    fn clone(&self) -> (r: Self)
        ensures
            r == *self,
    {
        PlaylistTrack {
            playlist_id: self.playlist_id.clone(),
            track_id: self.track_id.clone(),
            position: self.position,
            added_at: self.added_at,
        }
    }
}

impl Clone for PlayHistory {
    fn clone(&self) -> (r: Self)
        ensures
            r == *self,
    {
        PlayHistory {
            id: self.id,
            track_id: self.track_id.clone(),
            user_id: clone_opt_string(&self.user_id),
            played_at: self.played_at,
            play_duration: self.play_duration,
        }
    }
}

/// A track the store may hold: the file reference is never empty.
pub open spec fn track_valid(t: Track) -> bool {
    t.file_path@.len() > 0
}

/// Order on optional album positions: an absent number sorts first.
pub open spec fn opt_num_le(a: Option<u16>, b: Option<u16>) -> bool {
    match a {
        None => true,
        Some(x) => match b {
            None => false,
            Some(y) => x <= y,
        },
    }
}

fn opt_num_le_exec(a: &Option<u16>, b: &Option<u16>) -> (r: bool)
    ensures
        r == opt_num_le(*a, *b),
{
    match *a {
        None => true,
        Some(x) => match *b {
            None => false,
            Some(y) => x <= y,
        },
    }
}

/// Catalog listing order: by artist, then album, then track number, each
/// ascending, with absent track numbers first. Ties leave both directions
/// related; the store breaks them by insertion order.
pub open spec fn track_le(a: Track, b: Track) -> bool {
    if a.artist@ != b.artist@ {
        lex_le(a.artist@, b.artist@)
    } else if a.album@ != b.album@ {
        lex_le(a.album@, b.album@)
    } else {
        opt_num_le(a.track_number, b.track_number)
    }
}

/// Decides `track_le`.
pub fn track_le_exec(a: &Track, b: &Track) -> (r: bool)
    ensures
        r == track_le(*a, *b),
{
    if !crate::text::str_eq(self_artist(a), self_artist(b)) {
        crate::text::str_le(self_artist(a), self_artist(b))
    } else if !crate::text::str_eq(self_album(a), self_album(b)) {
        crate::text::str_le(self_album(a), self_album(b))
    } else {
        opt_num_le_exec(&a.track_number, &b.track_number)
    }
}

fn self_artist<'a>(t: &'a Track) -> (r: &'a str)
    ensures
        r@ == t.artist@,
{
    str_of(&t.artist)
}

fn self_album<'a>(t: &'a Track) -> (r: &'a str)
    ensures
        r@ == t.album@,
{
    str_of(&t.album)
}

/// The borrowed form of a `String`, with its view carried over.
pub fn str_of(s: &String) -> (r: &str)
    ensures
        r@ == s@,
{
    s.as_str()
}

/// `track_le` relates every pair of tracks one way or the other.
pub proof fn lemma_track_le_total(a: Track, b: Track)
    ensures
        track_le(a, b) || track_le(b, a),
{
    lemma_lex_le_total(a.artist@, b.artist@);
    lemma_lex_le_total(a.album@, b.album@);
}

/// A strict step followed by a lax step stays strict.
proof fn lemma_lex_lt_le_trans(x: Seq<char>, y: Seq<char>, z: Seq<char>)
    requires
        lex_le(x, y),
        x != y,
        lex_le(y, z),
    ensures
        lex_le(x, z),
        x != z,
{
    lemma_lex_le_transitive(x, y, z);
    if x == z {
        lemma_lex_le_antisymmetric(x, y);
    }
}

/// `track_le` is transitive.
pub proof fn lemma_track_le_transitive(a: Track, b: Track, c: Track)
    requires
        track_le(a, b),
        track_le(b, c),
    ensures
        track_le(a, c),
{
    if a.artist@ != b.artist@ {
        if b.artist@ != c.artist@ {
            lemma_lex_lt_le_trans(a.artist@, b.artist@, c.artist@);
        }
    } else if b.artist@ == c.artist@ {
        // one artist throughout; compare albums the same way
        if a.album@ != b.album@ {
            if b.album@ != c.album@ {
                lemma_lex_lt_le_trans(a.album@, b.album@, c.album@);
            }
        }
    }
}

/// The search relation: the query occurs in the title, the artist or the
/// album, compared character for character (case-sensitive).
pub open spec fn track_matches(t: Track, q: Seq<char>) -> bool {
    contains_seq(t.title@, q) || contains_seq(t.artist@, q) || contains_seq(t.album@, q)
}

/// Decides `track_matches`.
pub fn track_matches_exec(t: &Track, q: &str) -> (r: bool)
    ensures
        r == track_matches(*t, q@),
{
    crate::text::str_contains(str_of(&t.title), q) || crate::text::str_contains(
        self_artist(t),
        q,
    ) || crate::text::str_contains(self_album(t), q)
}

impl CreateTrack {
    /// Builds the stored entity: a fresh identifier and one creation instant
    /// used for both timestamps, so created-at equals updated-at.
    pub fn into_track(self) -> (t: Track)
        ensures
            t.id@.len() == 36,
            t.title@ == self.title@,
            t.artist@ == self.artist@,
            t.album@ == self.album@,
            t.duration == self.duration,
            t.file_path@ == self.file_path@,
            t.cover_art_path == self.cover_art_path,
            t.genre == self.genre,
            t.year == self.year,
            t.track_number == self.track_number,
            t.created_at == t.updated_at,
    {
        let now = current_unix_time();
        let id = mint_id();
        Track {
            id,
            title: self.title,
            artist: self.artist,
            album: self.album,
            duration: self.duration,
            file_path: self.file_path,
            cover_art_path: self.cover_art_path,
            genre: self.genre,
            year: self.year,
            track_number: self.track_number,
            created_at: now,
            updated_at: now,
        }
    }
}

impl CreatePlaylist {
    /// Builds the stored entity: a fresh identifier and one creation instant
    /// used for both timestamps.
    pub fn into_playlist(self) -> (p: Playlist)
        ensures
            p.id@.len() == 36,
            p.name@ == self.name@,
            p.description == self.description,
            p.created_at == p.updated_at,
    {
        let now = current_unix_time();
        let id = mint_id();
        Playlist {
            id,
            name: self.name,
            description: self.description,
            created_at: now,
            updated_at: now,
        }
    }
}

} // verus!

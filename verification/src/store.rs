//! The catalog store: durable CRUD and query semantics over tracks,
//! playlists, playlist membership and play history.
//!
//! The store is the single owner of these entities. Its well-formedness
//! invariant carries the guarantees callers rely on: the track list stays in
//! listing order, identifiers stay unique, membership pairs stay unique and
//! position-ordered within each playlist, memberships only reference stored
//! entities (deleting a parent cascades over its memberships), and the play
//! history only ever grows.

use vstd::prelude::*;

use crate::error::ErrorKind;
use crate::model::{str_of, track_le, track_le_exec, track_matches, track_matches_exec,
    track_valid, lemma_track_le_total, lemma_track_le_transitive, PlayHistory, Playlist,
    PlaylistTrack, Track};
use crate::seq_facts::{lemma_filter_all, lemma_filter_pairwise, lemma_filter_push,
    lemma_filter_single_out, lemma_filter_sub};
use crate::text::{lex_le, str_eq};

verus! {

/// Some stored track carries the given identifier.
pub open spec fn has_track_id(s: Seq<Track>, id: Seq<char>) -> bool {
    exists|i: int| 0 <= i < s.len() && (#[trigger] s[i].id@) == id
}

/// Some stored playlist carries the given identifier.
pub open spec fn has_playlist_id(s: Seq<Playlist>, id: Seq<char>) -> bool {
    exists|i: int| 0 <= i < s.len() && (#[trigger] s[i].id@) == id
}

/// Some membership row links the given playlist and track.
pub open spec fn has_pair(s: Seq<PlaylistTrack>, pid: Seq<char>, tid: Seq<char>) -> bool {
    exists|i: int|
        0 <= i < s.len() && (#[trigger] s[i].playlist_id@) == pid && s[i].track_id@ == tid
}

/// Tracks stand in listing order: by artist, album, track number.
pub open spec fn tracks_sorted(s: Seq<Track>) -> bool {
    forall|i: int, j: int| 0 <= i < j < s.len() ==> track_le(#[trigger] s[i], #[trigger] s[j])
}

/// No two tracks share an identifier.
pub open spec fn track_ids_unique(s: Seq<Track>) -> bool {
    forall|i: int, j: int|
        0 <= i < j < s.len() ==> (#[trigger] s[i].id@) != (#[trigger] s[j].id@)
}

/// Playlists stand in listing order: by name.
pub open spec fn playlists_sorted(s: Seq<Playlist>) -> bool {
    forall|i: int, j: int|
        0 <= i < j < s.len() ==> lex_le(#[trigger] s[i].name@, #[trigger] s[j].name@)
}

/// No two playlists share an identifier.
pub open spec fn playlist_ids_unique(s: Seq<Playlist>) -> bool {
    forall|i: int, j: int|
        0 <= i < j < s.len() ==> (#[trigger] s[i].id@) != (#[trigger] s[j].id@)
}

/// No (playlist, track) pair occurs twice.
pub open spec fn pairs_unique(s: Seq<PlaylistTrack>) -> bool {
    forall|i: int, j: int|
        0 <= i < j < s.len() ==> !((#[trigger] s[i].playlist_id@) == (
        #[trigger] s[j].playlist_id@) && s[i].track_id@ == s[j].track_id@)
}

/// Within one playlist, membership rows stand in position order; rows added
/// later never precede earlier rows of the same position.
pub open spec fn members_ordered(s: Seq<PlaylistTrack>) -> bool {
    forall|i: int, j: int|
        0 <= i < j < s.len() && (#[trigger] s[i].playlist_id@) == (
        #[trigger] s[j].playlist_id@) ==> s[i].position <= s[j].position
}

/// Play-history identifiers grow strictly and stay below the next one.
pub open spec fn history_well_formed(h: Seq<PlayHistory>, next: u64) -> bool {
    &&& forall|i: int, j: int| 0 <= i < j < h.len() ==> (#[trigger] h[i].id) < (#[trigger] h[j].id)
    &&& forall|i: int| 0 <= i < h.len() ==> (#[trigger] h[i].id) < next
}

/// The track sequence with every row of the given identifier removed.
pub open spec fn tracks_without(s: Seq<Track>, id: Seq<char>) -> Seq<Track> {
    s.filter(|t: Track| t.id@ != id)
}

/// The membership sequence with every row of the given track removed.
pub open spec fn members_without_track(s: Seq<PlaylistTrack>, tid: Seq<char>) -> Seq<
    PlaylistTrack,
> {
    s.filter(|m: PlaylistTrack| m.track_id@ != tid)
}

/// The membership sequence with the one row of the given pair removed.
pub open spec fn members_without_pair(
    s: Seq<PlaylistTrack>,
    pid: Seq<char>,
    tid: Seq<char>,
) -> Seq<PlaylistTrack> {
    s.filter(|m: PlaylistTrack| !(m.playlist_id@ == pid && m.track_id@ == tid))
}

/// The membership rows of one playlist, in stored order.
pub open spec fn members_of(s: Seq<PlaylistTrack>, pid: Seq<char>) -> Seq<PlaylistTrack> {
    s.filter(|m: PlaylistTrack| m.playlist_id@ == pid)
}

/// The tracks matching a search query, in stored order.
pub open spec fn search_filter(s: Seq<Track>, q: Seq<char>) -> Seq<Track> {
    s.filter(|t: Track| track_matches(t, q))
}

/// How a successful track creation relates the store's states: the new track
/// was absent, is now present, and stands inserted at some index of the track
/// list; nothing else moved.
pub open spec fn created_ok(pre: CatalogStore, post: CatalogStore, t: Track) -> bool {
    &&& track_valid(t)
    &&& !has_track_id(pre.tracks@, t.id@)
    &&& has_track_id(post.tracks@, t.id@)
    &&& exists|k: int|
        0 <= k <= pre.tracks@.len() && post.tracks@ == #[trigger] pre.tracks@.insert(k, t)
    &&& post.playlists@ == pre.playlists@
    &&& post.memberships@ == pre.memberships@
    &&& post.history@ == pre.history@
    &&& post.next_play_id == pre.next_play_id
}

/// How a successful playlist creation relates the store's states.
pub open spec fn created_playlist_ok(pre: CatalogStore, post: CatalogStore, p: Playlist) -> bool {
    &&& !has_playlist_id(pre.playlists@, p.id@)
    &&& has_playlist_id(post.playlists@, p.id@)
    &&& exists|k: int|
        0 <= k <= pre.playlists@.len() && post.playlists@ == #[trigger] pre.playlists@.insert(k, p)
    &&& post.tracks@ == pre.tracks@
    &&& post.memberships@ == pre.memberships@
    &&& post.history@ == pre.history@
    &&& post.next_play_id == pre.next_play_id
}

/// How a track deletion relates the store's states: the report says whether
/// the identifier was present; afterwards neither the track nor any
/// membership row of it remains; nothing else moved.
pub open spec fn deleted_step(
    pre: CatalogStore,
    post: CatalogStore,
    id: Seq<char>,
    removed: bool,
) -> bool {
    &&& removed == has_track_id(pre.tracks@, id)
    &&& post.tracks@ == tracks_without(pre.tracks@, id)
    &&& post.memberships@ == members_without_track(pre.memberships@, id)
    &&& post.playlists@ == pre.playlists@
    &&& post.history@ == pre.history@
    &&& post.next_play_id == pre.next_play_id
}

/// After removing every row of an identifier, no row of it remains.
pub proof fn lemma_tracks_without_excludes(s: Seq<Track>, id: Seq<char>)
    ensures
        !has_track_id(tracks_without(s, id), id),
{
    broadcast use vstd::seq_lib::group_filter_ensures;

    let f = tracks_without(s, id);
    if has_track_id(f, id) {
        let w = choose|w: int| 0 <= w < f.len() && (#[trigger] f[w].id@) == id;
        assert(false);
    }
}

/// Removing a pair that is not stored leaves the memberships unchanged.
pub proof fn lemma_members_without_absent_pair(
    s: Seq<PlaylistTrack>,
    pid: Seq<char>,
    tid: Seq<char>,
)
    requires
        !has_pair(s, pid, tid),
    ensures
        members_without_pair(s, pid, tid) == s,
{
    broadcast use lemma_filter_all;

    assert forall|i: int| 0 <= i < s.len() implies !((#[trigger] s[i].playlist_id@) == pid
        && s[i].track_id@ == tid) by {}
    assert(members_without_pair(s, pid, tid) == s);
}

/// In a position-ordered membership list, the rows of any one playlist are
/// position-ordered as well.
pub proof fn lemma_members_of_ordered(s: Seq<PlaylistTrack>, pid: Seq<char>)
    requires
        members_ordered(s),
    ensures
        forall|i: int, j: int|
            0 <= i < j < members_of(s, pid).len() ==> (#[trigger] members_of(s, pid)[i]).position
                <= (#[trigger] members_of(s, pid)[j]).position,
    decreases s.len(),
{
    broadcast use vstd::seq_lib::group_filter_ensures;
    broadcast use lemma_filter_sub;

    reveal(Seq::filter);
    if s.len() > 0 {
        let dl = s.drop_last();
        assert forall|i: int, j: int|
            0 <= i < j < dl.len() && (#[trigger] dl[i].playlist_id@) == (
        #[trigger] dl[j].playlist_id@) implies dl[i].position <= dl[j].position by {
            assert(dl[i] == s[i]);
            assert(dl[j] == s[j]);
        }
        lemma_members_of_ordered(dl, pid);
        let f = members_of(s, pid);
        let fd = members_of(dl, pid);
        assert forall|i: int, j: int| 0 <= i < j < f.len() implies (#[trigger] f[i]).position <= (
        #[trigger] f[j]).position by {
            if s.last().playlist_id@ == pid && j == f.len() - 1 {
                assert(f[i] == fd[i]);
                let w = choose|w: int| 0 <= w < dl.len() && dl[w] == fd[i];
                assert(dl[w] == s[w]);
                assert(fd[i].playlist_id@ == pid);
                assert(s[w].position <= s[s.len() - 1].position);
                assert(f[j] == s.last());
            } else {
                assert(f[i] == fd[i]);
                assert(f[j] == fd[j]);
            }
        }
    }
}

/// A query that no stored track matches filters down to the empty list.
pub proof fn lemma_search_filter_empty(s: Seq<Track>, q: Seq<char>)
    requires
        forall|i: int| 0 <= i < s.len() ==> !track_matches(#[trigger] s[i], q),
    ensures
        search_filter(s, q).len() == 0,
{
    broadcast use vstd::seq_lib::group_filter_ensures;
    broadcast use lemma_filter_sub;

    let f = search_filter(s, q);
    if f.len() > 0 {
        assert(track_matches(f[0], q));
        let w = choose|w: int| 0 <= w < s.len() && s[w] == f[0];
        assert(false);
    }
}

/// How a successful membership addition relates the store's states: both
/// parents existed, the pair was absent, and exactly one row of the pair now
/// stands inserted somewhere in the membership list; nothing else moved.
pub open spec fn added_ok(
    pre: CatalogStore,
    post: CatalogStore,
    pid: Seq<char>,
    tid: Seq<char>,
    position: i32,
    added_at: i64,
) -> bool {
    &&& has_playlist_id(pre.playlists@, pid)
    &&& has_track_id(pre.tracks@, tid)
    &&& !has_pair(pre.memberships@, pid, tid)
    &&& has_pair(post.memberships@, pid, tid)
    &&& exists|k: int, m: PlaylistTrack|
        0 <= k <= pre.memberships@.len() && m.playlist_id@ == pid && m.track_id@ == tid
            && m.position == position && m.added_at == added_at && post.memberships@ == (
        #[trigger] pre.memberships@.insert(k, m))
    &&& post.tracks@ == pre.tracks@
    &&& post.playlists@ == pre.playlists@
    &&& post.history@ == pre.history@
    &&& post.next_play_id == pre.next_play_id
}

/// How a membership removal relates the store's states: the report says
/// whether the pair existed; afterwards no row of the pair remains; nothing
/// else moved.
pub open spec fn removed_pair_step(
    pre: CatalogStore,
    post: CatalogStore,
    pid: Seq<char>,
    tid: Seq<char>,
    removed: bool,
) -> bool {
    &&& removed == has_pair(pre.memberships@, pid, tid)
    &&& post.memberships@ == members_without_pair(pre.memberships@, pid, tid)
    &&& post.tracks@ == pre.tracks@
    &&& post.playlists@ == pre.playlists@
    &&& post.history@ == pre.history@
    &&& post.next_play_id == pre.next_play_id
}

/// How a successful playback recording relates the store's states: exactly
/// one row was appended, carrying the next event identifier; nothing else
/// moved.
pub open spec fn play_recorded(pre: CatalogStore, post: CatalogStore, row: PlayHistory) -> bool {
    &&& pre.next_play_id < u64::MAX
    &&& row.id == pre.next_play_id
    &&& post.history@ == pre.history@.push(row)
    &&& post.history@.len() == pre.history@.len() + 1
    &&& post.next_play_id == pre.next_play_id + 1
    &&& post.tracks@ == pre.tracks@
    &&& post.playlists@ == pre.playlists@
    &&& post.memberships@ == pre.memberships@
}

/// First index at which a new row of the playlist with the given position
/// may stand: no earlier row of that playlist has a greater position, so a
/// row with an equal position lands after the rows already there.
fn member_insert_index(ms: &Vec<PlaylistTrack>, pid: &str, position: i32) -> (k: usize)
    ensures
        k <= ms@.len(),
        forall|j: int|
            0 <= j < k ==> !((#[trigger] ms@[j].playlist_id@) == pid@ && ms@[j].position
                > position),
        k < ms@.len() ==> (ms@[k as int].playlist_id@ == pid@ && ms@[k as int].position
            > position),
{
    let mut k: usize = 0;
    loop
        invariant
            k <= ms@.len(),
            forall|j: int|
                0 <= j < k ==> !((#[trigger] ms@[j].playlist_id@) == pid@ && ms@[j].position
                    > position),
        decreases ms@.len() - k,
    {
        if k == ms.len() {
            return k;
        }
        if str_eq(str_of(&ms[k].playlist_id), pid) && ms[k].position > position {
            return k;
        }
        k = k + 1;
    }
}

/// First index at which the new track may stand without breaking listing
/// order: everything before it stays at or below the new track.
fn track_insert_index(tracks: &Vec<Track>, t: &Track) -> (k: usize)
    ensures
        k <= tracks@.len(),
        forall|j: int| 0 <= j < k ==> track_le(#[trigger] tracks@[j], *t),
        k < tracks@.len() ==> !track_le(tracks@[k as int], *t),
{
    let mut k: usize = 0;
    loop
        invariant
            k <= tracks@.len(),
            forall|j: int| 0 <= j < k ==> track_le(#[trigger] tracks@[j], *t),
        decreases tracks@.len() - k,
    {
        if k == tracks.len() {
            return k;
        }
        if !track_le_exec(&tracks[k], t) {
            return k;
        }
        k = k + 1;
    }
}

/// First index at which the new playlist may stand without breaking name
/// order.
fn playlist_insert_index(playlists: &Vec<Playlist>, p: &Playlist) -> (k: usize)
    ensures
        k <= playlists@.len(),
        forall|j: int| 0 <= j < k ==> lex_le(#[trigger] playlists@[j].name@, p.name@),
        k < playlists@.len() ==> !lex_le(playlists@[k as int].name@, p.name@),
{
    let mut k: usize = 0;
    loop
        invariant
            k <= playlists@.len(),
            forall|j: int| 0 <= j < k ==> lex_le(#[trigger] playlists@[j].name@, p.name@),
        decreases playlists@.len() - k,
    {
        if k == playlists.len() {
            return k;
        }
        if !crate::text::str_le(str_of(&playlists[k].name), str_of(&p.name)) {
            return k;
        }
        k = k + 1;
    }
}

/// The membership rows whose track differs from the given one.
fn members_keeping_track(ms: &Vec<PlaylistTrack>, tid: &str) -> (r: Vec<PlaylistTrack>)
    ensures
        r@ == members_without_track(ms@, tid@),
{
    let mut out: Vec<PlaylistTrack> = Vec::new();
    let mut i: usize = 0;
    while i < ms.len()
        invariant
            i <= ms@.len(),
            out@ == members_without_track(ms@.take(i as int), tid@),
        decreases ms@.len() - i,
    {
        proof {
            assert(ms@.take(i + 1) =~= ms@.take(i as int).push(ms@[i as int]));
            lemma_filter_push(
                ms@.take(i as int),
                |m: PlaylistTrack| m.track_id@ != tid@,
                ms@[i as int],
            );
        }
        if !str_eq(str_of(&ms[i].track_id), tid) {
            out.push(ms[i].clone());
        }
        i = i + 1;
    }
    proof {
        assert(ms@.take(ms@.len() as int) =~= ms@);
    }
    out
}

/// The in-memory catalog store.
pub struct CatalogStore {
    pub tracks: Vec<Track>,
    pub playlists: Vec<Playlist>,
    pub memberships: Vec<PlaylistTrack>,
    pub history: Vec<PlayHistory>,
    pub next_play_id: u64,
}

impl CatalogStore {
    /// The store's invariant; every operation preserves it.
    pub open spec fn wf(self) -> bool {
        &&& tracks_sorted(self.tracks@)
        &&& track_ids_unique(self.tracks@)
        &&& forall|i: int| 0 <= i < self.tracks@.len() ==> track_valid(#[trigger] self.tracks@[i])
        &&& playlists_sorted(self.playlists@)
        &&& playlist_ids_unique(self.playlists@)
        &&& pairs_unique(self.memberships@)
        &&& members_ordered(self.memberships@)
        &&& forall|i: int|
            0 <= i < self.memberships@.len() ==> has_track_id(
                self.tracks@,
                (#[trigger] self.memberships@[i]).track_id@,
            ) && has_playlist_id(self.playlists@, self.memberships@[i].playlist_id@)
        &&& history_well_formed(self.history@, self.next_play_id)
    }

    /// An empty store.
    pub fn new() -> (s: Self)
        ensures
            s.wf(),
            s.tracks@.len() == 0,
            s.playlists@.len() == 0,
            s.memberships@.len() == 0,
            s.history@.len() == 0,
            s.next_play_id == 1,
    {
        CatalogStore {
            tracks: Vec::new(),
            playlists: Vec::new(),
            memberships: Vec::new(),
            history: Vec::new(),
            next_play_id: 1,
        }
    }

    /// Index of the track with the given identifier, if any.
    fn find_track_index(&self, id: &str) -> (r: Option<usize>)
        ensures
            match r {
                Some(i) => i < self.tracks@.len() && self.tracks@[i as int].id@ == id@,
                None => !has_track_id(self.tracks@, id@),
            },
    {
        let mut i: usize = 0;
        while i < self.tracks.len()
            invariant
                i <= self.tracks@.len(),
                forall|j: int| 0 <= j < i ==> (#[trigger] self.tracks@[j].id@) != id@,
            decreases self.tracks@.len() - i,
        {
            if str_eq(str_of(&self.tracks[i].id), id) {
                return Some(i);
            }
            i = i + 1;
        }
        None
    }

    /// Index of the playlist with the given identifier, if any.
    fn find_playlist_index(&self, id: &str) -> (r: Option<usize>)
        ensures
            match r {
                Some(i) => i < self.playlists@.len() && self.playlists@[i as int].id@ == id@,
                None => !has_playlist_id(self.playlists@, id@),
            },
    {
        let mut i: usize = 0;
        while i < self.playlists.len()
            invariant
                i <= self.playlists@.len(),
                forall|j: int| 0 <= j < i ==> (#[trigger] self.playlists@[j].id@) != id@,
            decreases self.playlists@.len() - i,
        {
            if str_eq(str_of(&self.playlists[i].id), id) {
                return Some(i);
            }
            i = i + 1;
        }
        None
    }

    /// Index of the membership row of the given pair, if any.
    fn find_member_index(&self, pid: &str, tid: &str) -> (r: Option<usize>)
        ensures
            match r {
                Some(i) => i < self.memberships@.len() && self.memberships@[i as int].playlist_id@
                    == pid@ && self.memberships@[i as int].track_id@ == tid@,
                None => !has_pair(self.memberships@, pid@, tid@),
            },
    {
        let mut i: usize = 0;
        while i < self.memberships.len()
            invariant
                i <= self.memberships@.len(),
                forall|j: int|
                    0 <= j < i ==> !((#[trigger] self.memberships@[j].playlist_id@) == pid@
                        && self.memberships@[j].track_id@ == tid@),
            decreases self.memberships@.len() - i,
        {
            if str_eq(str_of(&self.memberships[i].playlist_id), pid) && str_eq(
                str_of(&self.memberships[i].track_id),
                tid,
            ) {
                return Some(i);
            }
            i = i + 1;
        }
        None
    }

    /// Whether a track with the identifier is stored.
    pub fn contains_track(&self, id: &str) -> (r: bool)
        ensures
            r == has_track_id(self.tracks@, id@),
    {
        match self.find_track_index(id) {
            Some(i) => {
                proof {
                    assert(self.tracks@[i as int].id@ == id@);
                }
                true
            },
            None => false,
        }
    }

    /// Whether a playlist with the identifier is stored.
    pub fn contains_playlist(&self, id: &str) -> (r: bool)
        ensures
            r == has_playlist_id(self.playlists@, id@),
    {
        match self.find_playlist_index(id) {
            Some(i) => {
                proof {
                    assert(self.playlists@[i as int].id@ == id@);
                }
                true
            },
            None => false,
        }
    }

    /// The track with the identifier, or an explicit "not found".
    pub fn get_track_by_id(&self, id: &str) -> (r: Option<Track>)
        ensures
            match r {
                Some(t) => t.id@ == id@ && self.tracks@.contains(t),
                None => !has_track_id(self.tracks@, id@),
            },
    {
        match self.find_track_index(id) {
            Some(i) => {
                let t = self.tracks[i].clone();
                proof {
                    assert(self.tracks@.contains(self.tracks@[i as int]));
                }
                Some(t)
            },
            None => None,
        }
    }

    /// The playlist with the identifier, or an explicit "not found".
    pub fn get_playlist_by_id(&self, id: &str) -> (r: Option<Playlist>)
        ensures
            match r {
                Some(p) => p.id@ == id@ && self.playlists@.contains(p),
                None => !has_playlist_id(self.playlists@, id@),
            },
    {
        match self.find_playlist_index(id) {
            Some(i) => {
                let p = self.playlists[i].clone();
                proof {
                    assert(self.playlists@.contains(self.playlists@[i as int]));
                }
                Some(p)
            },
            None => None,
        }
    }

    /// Every stored track, in listing order.
    pub fn get_all_tracks(&self) -> (r: Vec<Track>)
        ensures
            r@ == self.tracks@,
    {
        let mut out: Vec<Track> = Vec::new();
        let mut i: usize = 0;
        while i < self.tracks.len()
            invariant
                i <= self.tracks@.len(),
                out@ == self.tracks@.take(i as int),
            decreases self.tracks@.len() - i,
        {
            out.push(self.tracks[i].clone());
            proof {
                assert(self.tracks@.take(i + 1) =~= self.tracks@.take(i as int).push(
                    self.tracks@[i as int],
                ));
            }
            i = i + 1;
        }
        proof {
            assert(self.tracks@.take(self.tracks@.len() as int) =~= self.tracks@);
        }
        out
    }

    /// Every stored playlist, in name order.
    pub fn get_all_playlists(&self) -> (r: Vec<Playlist>)
        ensures
            r@ == self.playlists@,
    {
        let mut out: Vec<Playlist> = Vec::new();
        let mut i: usize = 0;
        while i < self.playlists.len()
            invariant
                i <= self.playlists@.len(),
                out@ == self.playlists@.take(i as int),
            decreases self.playlists@.len() - i,
        {
            out.push(self.playlists[i].clone());
            proof {
                assert(self.playlists@.take(i + 1) =~= self.playlists@.take(i as int).push(
                    self.playlists@[i as int],
                ));
            }
            i = i + 1;
        }
        proof {
            assert(self.playlists@.take(self.playlists@.len() as int) =~= self.playlists@);
        }
        out
    }

    /// Creates the given track: persists it in listing order and echoes it
    /// back. Refused when the file reference is empty (validation) or the
    /// identifier is already taken (conflict); a refusal changes nothing.
    pub fn create_track(&mut self, t: Track) -> (r: Result<Track, ErrorKind>)
        requires
            old(self).wf(),
        ensures
            final(self).wf(),
            (r is Ok) == (track_valid(t) && !has_track_id(old(self).tracks@, t.id@)),
            r matches Ok(tr) ==> tr == t && created_ok(*old(self), *final(self), t),
            r matches Err(e) ==> *final(self) == *old(self) && e == (if !track_valid(t) {
                ErrorKind::Validation
            } else {
                ErrorKind::Conflict
            }),
    {
        if str_of(&t.file_path).is_empty() {
            return Err(ErrorKind::Validation);
        }
        if self.contains_track(str_of(&t.id)) {
            return Err(ErrorKind::Conflict);
        }
        let k = track_insert_index(&self.tracks, &t);
        let stored = t.clone();
        let ghost pre = *self;
        self.tracks.insert(k, stored);
        proof {
            let s_old = pre.tracks@;
            let s_new = self.tracks@;
            assert(s_new == s_old.insert(k as int, t));
            s_old.insert_ensures(k as int, t);
            assert forall|i: int, j: int| 0 <= i < j < s_new.len() implies track_le(
                #[trigger] s_new[i],
                #[trigger] s_new[j],
            ) by {
                if i < k && j < k {
                    assert(s_new[i] == s_old[i]);
                    assert(s_new[j] == s_old[j]);
                } else if i < k && j == k {
                    assert(s_new[i] == s_old[i]);
                } else if i < k && j > k {
                    assert(s_new[i] == s_old[i]);
                    assert(s_new[j] == s_old[j - 1]);
                } else if i == k && j > k {
                    assert(s_new[j] == s_old[j - 1]);
                    assert(!track_le(s_old[k as int], t));
                    lemma_track_le_total(s_old[k as int], t);
                    if j - 1 > k {
                        lemma_track_le_transitive(t, s_old[k as int], s_old[j - 1]);
                    }
                } else {
                    assert(s_new[i] == s_old[i - 1]);
                    assert(s_new[j] == s_old[j - 1]);
                }
            }
            assert forall|i: int, j: int| 0 <= i < j < s_new.len() implies (
            #[trigger] s_new[i].id@) != (#[trigger] s_new[j].id@) by {
                if i != k && j != k {
                    let i0: int = if i < k {
                        i
                    } else {
                        i - 1
                    };
                    let j0: int = if j < k {
                        j
                    } else {
                        j - 1
                    };
                    assert(s_new[i] == s_old[i0]);
                    assert(s_new[j] == s_old[j0]);
                } else if i == k {
                    assert(s_new[j] == s_old[j - 1]);
                    assert(s_old[j - 1].id@ != t.id@);
                } else {
                    let i0: int = if i < k {
                        i
                    } else {
                        i - 1
                    };
                    assert(s_new[i] == s_old[i0]);
                    assert(s_old[i0].id@ != t.id@);
                }
            }
            assert forall|i: int| 0 <= i < s_new.len() implies track_valid(
                #[trigger] s_new[i],
            ) by {
                if i < k {
                    assert(s_new[i] == s_old[i]);
                } else if i > k {
                    assert(s_new[i] == s_old[i - 1]);
                }
            }
            assert forall|i: int| 0 <= i < self.memberships@.len() implies has_track_id(
                s_new,
                (#[trigger] self.memberships@[i]).track_id@,
            ) && has_playlist_id(self.playlists@, self.memberships@[i].playlist_id@) by {
                assert(has_track_id(s_old, self.memberships@[i].track_id@));
                let w = choose|w: int|
                    0 <= w < s_old.len() && (#[trigger] s_old[w].id@)
                        == self.memberships@[i].track_id@;
                if w < k {
                    assert(s_new[w] == s_old[w]);
                } else {
                    assert(s_new[w + 1] == s_old[w]);
                }
            }
            assert(s_new[k as int].id@ == t.id@);
        }
        Ok(t)
    }

    /// Creates the given playlist: persists it in name order and echoes it
    /// back. Refused only when the identifier is already taken.
    pub fn create_playlist(&mut self, p: Playlist) -> (r: Result<Playlist, ErrorKind>)
        requires
            old(self).wf(),
        ensures
            final(self).wf(),
            (r is Ok) == !has_playlist_id(old(self).playlists@, p.id@),
            r matches Ok(pl) ==> pl == p && created_playlist_ok(*old(self), *final(self), p),
            r matches Err(e) ==> *final(self) == *old(self) && e == ErrorKind::Conflict,
    {
        if self.contains_playlist(str_of(&p.id)) {
            return Err(ErrorKind::Conflict);
        }
        let k = playlist_insert_index(&self.playlists, &p);
        let stored = p.clone();
        let ghost pre = *self;
        self.playlists.insert(k, stored);
        proof {
            let s_old = pre.playlists@;
            let s_new = self.playlists@;
            assert(s_new == s_old.insert(k as int, p));
            s_old.insert_ensures(k as int, p);
            assert forall|i: int, j: int| 0 <= i < j < s_new.len() implies lex_le(
                #[trigger] s_new[i].name@,
                #[trigger] s_new[j].name@,
            ) by {
                if i < k && j < k {
                    assert(s_new[i] == s_old[i]);
                    assert(s_new[j] == s_old[j]);
                } else if i < k && j == k {
                    assert(s_new[i] == s_old[i]);
                } else if i < k && j > k {
                    assert(s_new[i] == s_old[i]);
                    assert(s_new[j] == s_old[j - 1]);
                } else if i == k && j > k {
                    assert(s_new[j] == s_old[j - 1]);
                    assert(!lex_le(s_old[k as int].name@, p.name@));
                    crate::text::lemma_lex_le_total(s_old[k as int].name@, p.name@);
                    if j - 1 > k {
                        crate::text::lemma_lex_le_transitive(
                            p.name@,
                            s_old[k as int].name@,
                            s_old[j - 1].name@,
                        );
                    }
                } else {
                    assert(s_new[i] == s_old[i - 1]);
                    assert(s_new[j] == s_old[j - 1]);
                }
            }
            assert forall|i: int, j: int| 0 <= i < j < s_new.len() implies (
            #[trigger] s_new[i].id@) != (#[trigger] s_new[j].id@) by {
                if i != k && j != k {
                    let i0: int = if i < k {
                        i
                    } else {
                        i - 1
                    };
                    let j0: int = if j < k {
                        j
                    } else {
                        j - 1
                    };
                    assert(s_new[i] == s_old[i0]);
                    assert(s_new[j] == s_old[j0]);
                } else if i == k {
                    assert(s_new[j] == s_old[j - 1]);
                    assert(s_old[j - 1].id@ != p.id@);
                } else {
                    let i0: int = if i < k {
                        i
                    } else {
                        i - 1
                    };
                    assert(s_new[i] == s_old[i0]);
                    assert(s_old[i0].id@ != p.id@);
                }
            }
            assert forall|i: int| 0 <= i < self.memberships@.len() implies has_track_id(
                self.tracks@,
                (#[trigger] self.memberships@[i]).track_id@,
            ) && has_playlist_id(s_new, self.memberships@[i].playlist_id@) by {
                assert(has_playlist_id(s_old, self.memberships@[i].playlist_id@));
                let w = choose|w: int|
                    0 <= w < s_old.len() && (#[trigger] s_old[w].id@)
                        == self.memberships@[i].playlist_id@;
                if w < k {
                    assert(s_new[w] == s_old[w]);
                } else {
                    assert(s_new[w + 1] == s_old[w]);
                }
            }
            assert(s_new[k as int].id@ == p.id@);
        }
        Ok(p)
    }

    /// Removes the track with the identifier, cascading over its membership
    /// rows, and reports whether a row was actually removed. Deleting an
    /// absent identifier removes nothing and is not an error.
    pub fn delete_track(&mut self, id: &str) -> (r: bool)
        requires
            old(self).wf(),
        ensures
            final(self).wf(),
            deleted_step(*old(self), *final(self), id@, r),
    {
        let ghost pre = *self;
        match self.find_track_index(id) {
            None => {
                proof {
                    assert forall|i: int| 0 <= i < pre.tracks@.len() implies (#[trigger] pre
                        .tracks@[i]).id@ != id@ by {}
                    lemma_filter_all(pre.tracks@, |t: Track| t.id@ != id@);
                    assert forall|i: int| 0 <= i < pre.memberships@.len() implies (#[trigger] pre
                        .memberships@[i]).track_id@ != id@ by {
                        let m = pre.memberships@[i];
                        assert(has_track_id(pre.tracks@, m.track_id@));
                        let w = choose|w: int|
                            0 <= w < pre.tracks@.len() && (#[trigger] pre.tracks@[w].id@)
                                == m.track_id@;
                        assert(pre.tracks@[w].id@ != id@);
                    }
                    lemma_filter_all(pre.memberships@, |m: PlaylistTrack| m.track_id@ != id@);
                }
                false
            },
            Some(i) => {
                self.tracks.remove(i);
                let kept = members_keeping_track(&self.memberships, id);
                self.memberships = kept;
                proof {
                    let s_old = pre.tracks@;
                    let s_new = self.tracks@;
                    let m_old = pre.memberships@;
                    let m_new = self.memberships@;
                    assert(s_old[i as int].id@ == id@);
                    assert forall|j: int| 0 <= j < s_old.len() && j != i as int implies (
                    #[trigger] s_old[j].id@) != id@ by {
                        if j < i as int {
                            assert(s_old[j].id@ != s_old[i as int].id@);
                        } else {
                            assert(s_old[i as int].id@ != s_old[j].id@);
                        }
                    }
                    lemma_filter_single_out(s_old, |t: Track| t.id@ != id@, i as int);
                    assert(s_new == tracks_without(s_old, id@));
                    lemma_filter_pairwise(
                        s_old,
                        |t: Track| t.id@ != id@,
                        |a: Track, b: Track| track_le(a, b) && a.id@ != b.id@,
                    );
                    assert forall|j: int| 0 <= j < s_new.len() implies track_valid(
                        #[trigger] s_new[j],
                    ) by {
                        assert(s_new.contains(s_new[j]));
                        s_old.lemma_filter_contains_rev(|t: Track| t.id@ != id@, s_new[j]);
                        let w = choose|w: int|
                            0 <= w < s_old.len() && #[trigger] s_old[w] == s_new[j];
                        assert(track_valid(s_old[w]));
                    }
                    lemma_filter_pairwise(
                        m_old,
                        |m: PlaylistTrack| m.track_id@ != id@,
                        |a: PlaylistTrack, b: PlaylistTrack| !(a.playlist_id@ == b.playlist_id@
                            && a.track_id@ == b.track_id@) && (a.playlist_id@ == b.playlist_id@
                            ==> a.position <= b.position),
                    );
                    assert forall|j: int| 0 <= j < m_new.len() implies has_track_id(
                        s_new,
                        (#[trigger] m_new[j]).track_id@,
                    ) && has_playlist_id(self.playlists@, m_new[j].playlist_id@) by {
                        assert(m_new.contains(m_new[j]));
                        m_old.lemma_filter_contains_rev(
                            |m: PlaylistTrack| m.track_id@ != id@,
                            m_new[j],
                        );
                        let w = choose|w: int|
                            0 <= w < m_old.len() && #[trigger] m_old[w] == m_new[j];
                        assert(has_playlist_id(self.playlists@, m_old[w].playlist_id@));
                        m_old.lemma_filter_pred(|m: PlaylistTrack| m.track_id@ != id@, j);
                        assert(m_new[j].track_id@ != id@);
                        assert(has_track_id(s_old, m_old[w].track_id@));
                        let u = choose|u: int|
                            0 <= u < s_old.len() && (#[trigger] s_old[u].id@)
                                == m_old[w].track_id@;
                        assert(s_old[u].id@ != id@);
                        s_old.lemma_filter_contains(|t: Track| t.id@ != id@, u);
                        assert(s_new.contains(s_old[u]));
                        let v = choose|v: int| 0 <= v < s_new.len() && #[trigger] s_new[v]
                            == s_old[u];
                        assert(s_new[v].id@ == m_new[j].track_id@);
                    }
                }
                true
            },
        }
    }

    /// The track of a reference known to be stored.
    fn must_get_track(&self, id: &str) -> (t: Track)
        requires
            has_track_id(self.tracks@, id@),
        ensures
            t.id@ == id@,
            self.tracks@.contains(t),
    {
        match self.find_track_index(id) {
            Some(i) => {
                proof {
                    assert(self.tracks@.contains(self.tracks@[i as int]));
                }
                self.tracks[i].clone()
            },
            None => vstd::pervasive::unreached(),
        }
    }

    /// The member tracks of one playlist, ordered by stored position
    /// ascending (ties by insertion order). An unknown playlist simply has no
    /// members.
    pub fn get_playlist_tracks(&self, playlist_id: &str) -> (r: Vec<Track>)
        requires
            self.wf(),
        ensures
            ({
                let ms = members_of(self.memberships@, playlist_id@);
                &&& r@.len() == ms.len()
                &&& forall|i: int|
                    0 <= i < ms.len() ==> (#[trigger] r@[i].id@) == ms[i].track_id@
                        && self.tracks@.contains(r@[i])
                &&& forall|i: int, j: int|
                    0 <= i < j < ms.len() ==> (#[trigger] ms[i]).position <= (
                    #[trigger] ms[j]).position
            }),
    {
        let mut out: Vec<Track> = Vec::new();
        let mut i: usize = 0;
        while i < self.memberships.len()
            invariant
                self.wf(),
                i <= self.memberships@.len(),
                out@.len() == members_of(self.memberships@.take(i as int), playlist_id@).len(),
                forall|j: int|
                    0 <= j < out@.len() ==> (#[trigger] out@[j].id@) == members_of(
                        self.memberships@.take(i as int),
                        playlist_id@,
                    )[j].track_id@ && self.tracks@.contains(out@[j]),
            decreases self.memberships@.len() - i,
        {
            proof {
                assert(self.memberships@.take(i + 1) =~= self.memberships@.take(i as int).push(
                    self.memberships@[i as int],
                ));
                lemma_filter_push(
                    self.memberships@.take(i as int),
                    |m: PlaylistTrack| m.playlist_id@ == playlist_id@,
                    self.memberships@[i as int],
                );
            }
            if str_eq(str_of(&self.memberships[i].playlist_id), playlist_id) {
                proof {
                    assert(has_track_id(self.tracks@, self.memberships@[i as int].track_id@));
                }
                let t = self.must_get_track(str_of(&self.memberships[i].track_id));
                out.push(t);
            }
            i = i + 1;
        }
        proof {
            assert(self.memberships@.take(self.memberships@.len() as int) =~= self.memberships@);
            lemma_members_of_ordered(self.memberships@, playlist_id@);
        }
        out
    }

    /// Adds the track to the playlist at the given position, keeping the
    /// playlist's rows position-ordered. A pair already present is rejected
    /// as a conflict, never stored twice; an unknown parent is rejected as
    /// not found. A refusal changes nothing.
    pub fn add_track_to_playlist(
        &mut self,
        playlist_id: &str,
        track_id: &str,
        position: i32,
        added_at: i64,
    ) -> (r: Result<(), ErrorKind>)
        requires
            old(self).wf(),
        ensures
            final(self).wf(),
            (r is Ok) == (has_playlist_id(old(self).playlists@, playlist_id@) && has_track_id(
                old(self).tracks@,
                track_id@,
            ) && !has_pair(old(self).memberships@, playlist_id@, track_id@)),
            r is Ok ==> added_ok(
                *old(self),
                *final(self),
                playlist_id@,
                track_id@,
                position,
                added_at,
            ),
            r matches Err(e) ==> *final(self) == *old(self) && e == (if !has_playlist_id(
                old(self).playlists@,
                playlist_id@,
            ) || !has_track_id(old(self).tracks@, track_id@) {
                ErrorKind::NotFound
            } else {
                ErrorKind::Conflict
            }),
    {
        if !self.contains_playlist(playlist_id) {
            return Err(ErrorKind::NotFound);
        }
        if !self.contains_track(track_id) {
            return Err(ErrorKind::NotFound);
        }
        match self.find_member_index(playlist_id, track_id) {
            Some(i) => {
                proof {
                    assert(self.memberships@[i as int].playlist_id@ == playlist_id@);
                }
                return Err(ErrorKind::Conflict);
            },
            None => {},
        }
        let k = member_insert_index(&self.memberships, playlist_id, position);
        let m = PlaylistTrack {
            playlist_id: playlist_id.to_owned(),
            track_id: track_id.to_owned(),
            position,
            added_at,
        };
        let ghost mg = m;
        let ghost pre = *self;
        self.memberships.insert(k, m);
        proof {
            let s_old = pre.memberships@;
            let s_new = self.memberships@;
            assert(s_new == s_old.insert(k as int, mg));
            s_old.insert_ensures(k as int, mg);
            assert forall|i: int, j: int| 0 <= i < j < s_new.len() implies !((
            #[trigger] s_new[i].playlist_id@) == (#[trigger] s_new[j].playlist_id@)
                && s_new[i].track_id@ == s_new[j].track_id@) by {
                if i != k && j != k {
                    let i0: int = if i < k {
                        i
                    } else {
                        i - 1
                    };
                    let j0: int = if j < k {
                        j
                    } else {
                        j - 1
                    };
                    assert(s_new[i] == s_old[i0]);
                    assert(s_new[j] == s_old[j0]);
                } else {
                    let other: int = if i == k {
                        j
                    } else {
                        i
                    };
                    let o0: int = if other < k {
                        other
                    } else {
                        other - 1
                    };
                    assert(s_new[other] == s_old[o0]);
                    if s_old[o0].playlist_id@ == playlist_id@ && s_old[o0].track_id@
                        == track_id@ {
                        assert(has_pair(s_old, playlist_id@, track_id@));
                    }
                }
            }
            assert forall|i: int, j: int|
                0 <= i < j < s_new.len() && (#[trigger] s_new[i].playlist_id@) == (
            #[trigger] s_new[j].playlist_id@) implies s_new[i].position <= s_new[j].position by {
                if i != k && j != k {
                    let i0: int = if i < k {
                        i
                    } else {
                        i - 1
                    };
                    let j0: int = if j < k {
                        j
                    } else {
                        j - 1
                    };
                    assert(s_new[i] == s_old[i0]);
                    assert(s_new[j] == s_old[j0]);
                } else if j == k {
                    // an earlier row of the same playlist never exceeds the new position
                    assert(s_new[i] == s_old[i]);
                    assert(!(s_old[i].playlist_id@ == playlist_id@ && s_old[i].position
                        > position));
                } else {
                    // i == k: every later row of the playlist sits beyond the first
                    // greater position, which bounds the new row from above
                    assert(s_new[j] == s_old[j - 1]);
                    assert(k < s_old.len());
                    assert(s_old[k as int].playlist_id@ == playlist_id@ && s_old[k as int].position
                        > position);
                    if j - 1 > k {
                        assert(s_old[k as int].position <= s_old[j - 1].position);
                    }
                }
            }
            assert forall|i: int| 0 <= i < s_new.len() implies has_track_id(
                self.tracks@,
                (#[trigger] s_new[i]).track_id@,
            ) && has_playlist_id(self.playlists@, s_new[i].playlist_id@) by {
                if i != k {
                    let i0: int = if i < k {
                        i
                    } else {
                        i - 1
                    };
                    assert(s_new[i] == s_old[i0]);
                } else {
                    assert(s_new[i] == mg);
                }
            }
            assert(s_new[k as int].playlist_id@ == playlist_id@);
        }
        Ok(())
    }

    /// Deletes the membership row of the pair and reports whether it
    /// existed; removing a pair that was never added removes nothing and is
    /// distinct from any failure.
    pub fn remove_track_from_playlist(&mut self, playlist_id: &str, track_id: &str) -> (r: bool)
        requires
            old(self).wf(),
        ensures
            final(self).wf(),
            removed_pair_step(*old(self), *final(self), playlist_id@, track_id@, r),
    {
        let ghost pre = *self;
        match self.find_member_index(playlist_id, track_id) {
            None => {
                proof {
                    assert forall|i: int| 0 <= i < pre.memberships@.len() implies !((
                    #[trigger] pre.memberships@[i].playlist_id@) == playlist_id@ && pre
                        .memberships@[i].track_id@ == track_id@) by {}
                    lemma_filter_all(
                        pre.memberships@,
                        |m: PlaylistTrack| !(m.playlist_id@ == playlist_id@ && m.track_id@
                            == track_id@),
                    );
                }
                false
            },
            Some(i) => {
                self.memberships.remove(i);
                proof {
                    let m_old = pre.memberships@;
                    let m_new = self.memberships@;
                    assert forall|j: int| 0 <= j < m_old.len() && j != i as int implies !((
                    #[trigger] m_old[j].playlist_id@) == playlist_id@ && m_old[j].track_id@
                        == track_id@) by {
                        if j < i as int {
                            assert(!(m_old[j].playlist_id@ == m_old[i as int].playlist_id@
                                && m_old[j].track_id@ == m_old[i as int].track_id@));
                        } else {
                            assert(!(m_old[i as int].playlist_id@ == m_old[j].playlist_id@
                                && m_old[i as int].track_id@ == m_old[j].track_id@));
                        }
                    }
                    lemma_filter_single_out(
                        m_old,
                        |m: PlaylistTrack| !(m.playlist_id@ == playlist_id@ && m.track_id@
                            == track_id@),
                        i as int,
                    );
                    lemma_filter_pairwise(
                        m_old,
                        |m: PlaylistTrack| !(m.playlist_id@ == playlist_id@ && m.track_id@
                            == track_id@),
                        |a: PlaylistTrack, b: PlaylistTrack| !(a.playlist_id@ == b.playlist_id@
                            && a.track_id@ == b.track_id@) && (a.playlist_id@ == b.playlist_id@
                            ==> a.position <= b.position),
                    );
                    assert forall|j: int| 0 <= j < m_new.len() implies has_track_id(
                        self.tracks@,
                        (#[trigger] m_new[j]).track_id@,
                    ) && has_playlist_id(self.playlists@, m_new[j].playlist_id@) by {
                        assert(m_new.contains(m_new[j]));
                        m_old.lemma_filter_contains_rev(
                            |m: PlaylistTrack| !(m.playlist_id@ == playlist_id@ && m.track_id@
                                == track_id@),
                            m_new[j],
                        );
                        let w = choose|w: int|
                            0 <= w < m_old.len() && #[trigger] m_old[w] == m_new[j];
                        assert(has_track_id(self.tracks@, m_old[w].track_id@));
                        assert(has_playlist_id(self.playlists@, m_old[w].playlist_id@));
                    }
                }
                true
            },
        }
    }

    /// Appends one playback event and nothing else. Optional fields may be
    /// absent; the only refusal is exhaustion of the event identifiers.
    pub fn record_play(
        &mut self,
        track_id: &str,
        user_id: Option<&str>,
        duration: Option<i32>,
        now: i64,
    ) -> (r: Result<(), ErrorKind>)
        requires
            old(self).wf(),
        ensures
            final(self).wf(),
            (r is Ok) == (old(self).next_play_id < u64::MAX),
            r is Ok ==> ({
                let row = final(self).history@.last();
                &&& play_recorded(*old(self), *final(self), row)
                &&& row.track_id@ == track_id@
                &&& (match user_id {
                    Some(u) => row.user_id matches Some(s) && s@ == u@,
                    None => row.user_id is None,
                })
                &&& row.played_at == now
                &&& row.play_duration == duration
            }),
            r matches Err(e) ==> *final(self) == *old(self) && e == ErrorKind::Storage,
    {
        if self.next_play_id == u64::MAX {
            return Err(ErrorKind::Storage);
        }
        let row = PlayHistory {
            id: self.next_play_id,
            track_id: track_id.to_owned(),
            user_id: match user_id {
                Some(u) => Some(u.to_owned()),
                None => None,
            },
            played_at: now,
            play_duration: duration,
        };
        self.history.push(row);
        self.next_play_id = self.next_play_id + 1;
        Ok(())
    }

    /// The tracks matching the query, in listing order. An empty query
    /// matches every track; a query matching nothing yields the empty list.
    pub fn search_tracks(&self, q: &str) -> (r: Vec<Track>)
        ensures
            r@ == search_filter(self.tracks@, q@),
    {
        let mut out: Vec<Track> = Vec::new();
        let mut i: usize = 0;
        while i < self.tracks.len()
            invariant
                i <= self.tracks@.len(),
                out@ == search_filter(self.tracks@.take(i as int), q@),
            decreases self.tracks@.len() - i,
        {
            proof {
                assert(self.tracks@.take(i + 1) =~= self.tracks@.take(i as int).push(
                    self.tracks@[i as int],
                ));
                lemma_filter_push(
                    self.tracks@.take(i as int),
                    |t: Track| track_matches(t, q@),
                    self.tracks@[i as int],
                );
            }
            if track_matches_exec(&self.tracks[i], q) {
                out.push(self.tracks[i].clone());
            }
            i = i + 1;
        }
        proof {
            assert(self.tracks@.take(self.tracks@.len() as int) =~= self.tracks@);
        }
        out
    }
}

} // verus!


//! The library's laws: properties that relate several operations or every
//! state, stated over the step relations of the store and proved once here.

use vstd::prelude::*;

use crate::model::{track_matches, PlayHistory, PlaylistTrack, Track};
use crate::store::{added_ok, created_ok, deleted_step, has_pair, has_track_id, members_of,
    play_recorded, removed_pair_step, search_filter, CatalogStore};

verus! {

/// Law: identifiers of successive successful creations are distinct. The
/// first creation leaves its track stored; the second only succeeds for an
/// identifier still absent, so the two can never coincide.
pub proof fn lemma_created_ids_distinct(
    s0: CatalogStore,
    s1: CatalogStore,
    s2: CatalogStore,
    t1: Track,
    t2: Track,
)
    requires
        created_ok(s0, s1, t1),
        created_ok(s1, s2, t2),
    ensures
        t1.id@ != t2.id@,
{
}

/// Law: deleting one identifier twice reports a removal the first time and
/// none the second — idempotent, never an error.
pub proof fn lemma_delete_twice(
    s0: CatalogStore,
    s1: CatalogStore,
    s2: CatalogStore,
    id: Seq<char>,
    r1: bool,
    r2: bool,
)
    requires
        has_track_id(s0.tracks@, id),
        deleted_step(s0, s1, id, r1),
        deleted_step(s1, s2, id, r2),
    ensures
        r1 == true,
        r2 == false,
{
    crate::store::lemma_tracks_without_excludes(s0.tracks@, id);
}

/// Law: searching for a query no stored track matches yields the empty
/// list — an outcome, never an error.
pub proof fn lemma_search_no_match_empty(s: CatalogStore, q: Seq<char>)
    requires
        forall|i: int| 0 <= i < s.tracks@.len() ==> !track_matches(#[trigger] s.tracks@[i], q),
    ensures
        search_filter(s.tracks@, q).len() == 0,
{
    crate::store::lemma_search_filter_empty(s.tracks@, q);
}

/// Law: a successful addition stores the pair, and stores it exactly once
/// more than before; since additions only succeed while the pair is absent,
/// adding the same pair twice is rejected the second time and never
/// silently duplicated.
pub proof fn lemma_duplicate_add_rejected(
    s0: CatalogStore,
    s1: CatalogStore,
    pid: Seq<char>,
    tid: Seq<char>,
    position: i32,
    added_at: i64,
)
    requires
        added_ok(s0, s1, pid, tid, position, added_at),
    ensures
        has_pair(s1.memberships@, pid, tid),
        s1.memberships@.len() == s0.memberships@.len() + 1,
{
    let (k, m) = choose|k: int, m: PlaylistTrack|
        0 <= k <= s0.memberships@.len() && m.playlist_id@ == pid && m.track_id@ == tid
            && m.position == position && m.added_at == added_at && s1.memberships@ == (
        #[trigger] s0.memberships@.insert(k, m));
    s0.memberships@.insert_ensures(k, m);
}

/// Law: removing a pair that was never added removes nothing and changes
/// nothing — the "nothing removed" report, distinct from any failure.
pub proof fn lemma_remove_nothing(
    s0: CatalogStore,
    s1: CatalogStore,
    pid: Seq<char>,
    tid: Seq<char>,
    r: bool,
)
    requires
        !has_pair(s0.memberships@, pid, tid),
        removed_pair_step(s0, s1, pid, tid, r),
    ensures
        r == false,
        s1.memberships@ == s0.memberships@,
        s1.tracks@ == s0.tracks@,
        s1.playlists@ == s0.playlists@,
        s1.history@ == s0.history@,
{
    crate::store::lemma_members_without_absent_pair(s0.memberships@, pid, tid);
}

/// Law: in a well-formed store the membership rows of any playlist stand in
/// position order, whatever order they were inserted in, so a listing by
/// stored order is a listing by position.
pub proof fn lemma_playlist_members_ordered(s: CatalogStore, pid: Seq<char>)
    requires
        s.wf(),
    ensures
        forall|i: int, j: int|
            0 <= i < j < members_of(s.memberships@, pid).len() ==> (#[trigger] members_of(
                s.memberships@,
                pid,
            )[i]).position <= (#[trigger] members_of(s.memberships@, pid)[j]).position,
{
    crate::store::lemma_members_of_ordered(s.memberships@, pid);
}

/// Law: the object key a streaming request resolves to is determined by the
/// store — identifiers are unique, so any two stored rows carrying the
/// requested identifier are one and the same. Two requests against one
/// store therefore sign the same key, while the responses stand on their
/// own: each carries the URL its own signing produced.
pub proof fn lemma_stream_key_determined(s: CatalogStore, id: Seq<char>, i: int, j: int)
    requires
        s.wf(),
        0 <= i < s.tracks@.len(),
        0 <= j < s.tracks@.len(),
        s.tracks@[i].id@ == id,
        s.tracks@[j].id@ == id,
    ensures
        i == j,
        s.tracks@[i].file_path@ == s.tracks@[j].file_path@,
{
}

/// Law: a recorded playback appends exactly one history row — the given
/// one, at the end — and touches nothing else; earlier rows are untouched.
/// Success itself never depends on the optional user or duration fields.
pub proof fn lemma_play_appends_exactly_one(s0: CatalogStore, s1: CatalogStore, row: PlayHistory)
    requires
        play_recorded(s0, s1, row),
    ensures
        s1.history@.len() == s0.history@.len() + 1,
        s1.history@[s0.history@.len() as int] == row,
        forall|i: int| 0 <= i < s0.history@.len() ==> (#[trigger] s1.history@[i]) == s0.history@[i],
        s1.tracks@ == s0.tracks@,
        s1.playlists@ == s0.playlists@,
        s1.memberships@ == s0.memberships@,
{
}

} // verus!

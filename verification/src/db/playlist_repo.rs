//! Playlist records and the rules of the playlist store: where new playlists
//! and new entries go, which playlist may not be deleted, and how a new order
//! is written.

use vstd::prelude::*;
use vstd::string::*;
use crate::clock::unix_now;
use crate::errors::AppError;
use crate::text::str_equal;

verus! {

/// A playlist as the interface sees it.
#[derive(Debug, Clone)]
pub struct PlaylistDto {
    pub id: i64,
    pub name: String,
    pub kind: String,
    pub source_folder: Option<String>,
    pub sort_order: i32,
    pub created_at: i64,
    pub updated_at: i64,
    pub track_count: i32,
}

/// A new playlist, before the store gives it its id: it goes after all
/// others (one past the largest sort order), is empty, and is created and
/// updated now.
pub fn draft_playlist(name: String, kind: String, source_folder: Option<String>, max_order: i32) -> (p: PlaylistDto)
    requires
        max_order < i32::MAX,
    ensures
        p.id == 0,
        p.name == name,
        p.kind == kind,
        p.source_folder == source_folder,
        p.sort_order == max_order + 1,
        p.created_at == p.updated_at,
        p.track_count == 0,
{
    let now = unix_now();
    PlaylistDto {
        id: 0,
        name,
        kind,
        source_folder,
        sort_order: max_order + 1,
        created_at: now,
        updated_at: now,
        track_count: 0,
    }
}

/// The kind of the playlist that every library has and keeps.
pub open spec fn is_default_kind(kind: Seq<char>) -> bool {
    kind == "default"@
}

/// Whether a playlist of the given kind may be deleted: the default playlist
/// may not (`InvalidArgument`), every other may.
pub fn check_deletable(kind: &str) -> (r: Result<(), AppError>)
    ensures
        is_default_kind(kind@) ==> (r matches Err(AppError::InvalidArgument(m)) && m@ == "默认播放列表不能删除"@),
        !is_default_kind(kind@) ==> r is Ok,
{
    if str_equal(kind, "default") {
        Err(AppError::InvalidArgument(String::from_str("默认播放列表不能删除")))
    } else {
        Ok(())
    }
}

/// Where a song goes when it is added to a playlist: nowhere if it is there
/// already (adding is idempotent), else after every entry (one past the
/// largest sort order).
pub fn link_position(already_linked: bool, max_order: i32) -> (r: Option<i32>)
    requires
        !already_linked ==> max_order < i32::MAX,
    ensures
        already_linked ==> r is None,
        !already_linked ==> r == Some((max_order + 1) as i32),
{
    if already_linked {
        None
    } else {
        Some(max_order + 1)
    }
}

/// The sort order written for each id of a new order: its index in the list.
pub fn positions(ids: &[i64]) -> (r: Vec<(i64, i32)>)
    ensures
        r.len() == ids.len(),
        forall|k: int| 0 <= k < ids.len() ==> (#[trigger] r@[k]).0 == ids@[k] && r@[k].1 == k as i32,
{
    let mut r: Vec<(i64, i32)> = Vec::new();
    let mut i: usize = 0;
    while i < ids.len()
        invariant
            i <= ids.len(),
            r.len() == i,
            forall|k: int| 0 <= k < i ==> (#[trigger] r@[k]).0 == ids@[k] && r@[k].1 == k as i32,
        decreases ids.len() - i,
    {
        r.push((ids[i], #[verifier::truncate] (i as i32)));
        i += 1;
    }
    r
}

/// Law: writing a new order keeps it. For any list of fewer than 2^31 ids,
/// the sort orders written strictly increase along the list, so reading the
/// entries back by sort order gives the list as it was given.
pub proof fn law_positions_follow_list(ids: Seq<i64>, r: Seq<(i64, i32)>)
    requires
        ids.len() <= 0x8000_0000,
        r.len() == ids.len(),
        forall|k: int| 0 <= k < ids.len() ==> (#[trigger] r[k]).0 == ids[k] && r[k].1 == k as i32,
    ensures
        forall|a: int, b: int| 0 <= a < b < r.len() ==> #[trigger] r[a].1 < #[trigger] r[b].1,
        forall|k: int| 0 <= k < r.len() ==> (#[trigger] r[k]).1 == k,
{
    assert forall|k: int| 0 <= k < r.len() implies (#[trigger] r[k]).1 == k by {
        assert(r[k].1 == k as i32);
    }
}

} // verus!

//! Human-readable album paths, resolved over the map of all albums by id.
use crate::model::Album;
use crate::paths::{join_path, path_join};
use std::collections::HashMap;
use vstd::prelude::*;
use vstd::string::*;

verus! {

broadcast use vstd::std_specs::hash::group_hash_axioms;

/// The depth of a flat album path: the album's own name only.
pub const FLAT_DEPTH: u8 = 1;

/// The depth of a full album path.
pub const RECURSIVE_DEPTH: u8 = 255;

/// The segment that an album contributes to a path: its name, or a placeholder
/// for an album without one.
pub open spec fn album_segment(a: Album) -> Seq<char> {
    match a.name {
        Some(n) => n@,
        None => "_unknown_"@,
    }
}

/// The `/`-joined names of the album `id` and of its ancestors, nearest last,
/// at most `depth` of them. The root (the album without a parent) contributes
/// nothing; resolution stops quietly at an id that is not in the map.
pub open spec fn album_path(albums: Map<i32, Album>, id: i32, depth: nat) -> Seq<char>
    decreases depth,
{
    if depth == 0 || !albums.contains_key(id) || albums[id].parent_id is None {
        Seq::empty()
    } else {
        path_join(
            album_path(albums, albums[id].parent_id.unwrap(), (depth - 1) as nat),
            album_segment(albums[id]),
        )
    }
}

/// Resolves the path of the album `id`, with at most `depth` segments.
pub fn resolve_album_path(albums: &HashMap<i32, Album>, id: i32, depth: u8) -> (r: String)
    ensures
        r@ == album_path(albums@, id, depth as nat),
    decreases depth,
{
    if depth == 0 {
        return String::new();
    }
    match albums.get(&id) {
        None => String::new(),
        Some(album) => match album.parent_id {
            None => String::new(),
            Some(parent) => {
                let prefix = resolve_album_path(albums, parent, depth - 1);
                match &album.name {
                    Some(name) => join_path(prefix.as_str(), name.as_str()),
                    None => join_path(prefix.as_str(), "_unknown_"),
                }
            },
        },
    }
}

} // verus!

//! Where the popover's WebView2 profile lives.
//!
//! WebView2 defaults its user-data folder to `<exe dir>\<exe>.WebView2\`.
//! Under Scoop the exe dir is the per-version folder, so every update threw
//! the profile away (the Customize layout, theme and dismissed welcome banner
//! all live in its `localStorage`); under Program Files it is not writable at
//! all. It is pinned under the cache root instead, next to `detect.json` and
//! the update staging dir.
use crate::paths::{
    buf_bytes, join_all, joined_all, longer_entry_name, parts_under, path_bytes, path_parts, steady,
};
use std::path::{Path, PathBuf};
use vstd::prelude::*;

verus! {

/// Where the profile lies below the cache root.
pub open spec fn popover_pieces() -> Seq<Seq<char>> {
    seq!["ai-usagebar"@, "popover"@]
}

/// `<cache_root>/ai-usagebar/popover`: the WebView2 user-data folder. It
/// lies under the cache root.
pub fn popover_data_dir(cache_root: &Path) -> (r: PathBuf)
    ensures
        buf_bytes(&r) == joined_all(path_bytes(cache_root), popover_pieces()),
        steady(path_bytes(cache_root)) ==> path_parts(buf_bytes(&r)) == parts_under(
            path_bytes(cache_root),
            popover_pieces(),
        ),
{
    let pieces = ["ai-usagebar", "popover"];
    proof {
        reveal_strlit("ai-usagebar");
        reveal_strlit("popover");
        longer_entry_name("ai-usagebar"@);
        longer_entry_name("popover"@);
        assert(pieces@.map_values(|piece: &str| piece@) =~= popover_pieces());
    }
    join_all(cache_root, &pieces)
}

} // verus!

//! Where the icon files live: the `assets` directory two levels above a
//! tool's own directory, found with `std::path`'s component rules.

use vstd::prelude::*;

use crate::imaging::{join_path, parent_of, path_joined, path_parent};

verus! {

/// The `assets` directory beside the parent of `dir`'s parent; `None` where
/// `dir` has no parent or its parent has none.
pub open spec fn assets_dir_spec(dir: Seq<char>) -> Option<Seq<char>> {
    match path_parent(dir) {
        Some(p) => match path_parent(p) {
            Some(q) => Some(path_joined(q, seq!['a', 's', 's', 'e', 't', 's'])),
            None => None,
        },
        None => None,
    }
}

/// The `assets` directory that belongs to a tool whose own directory is
/// `manifest_dir`: two levels up, then `assets`. `None` where
/// `manifest_dir` does not have two levels above it.
pub fn get_assets_dir(manifest_dir: &str) -> (r: Option<String>)
    ensures
        match r {
            Some(d) => assets_dir_spec(manifest_dir@) == Some(d@),
            None => assets_dir_spec(manifest_dir@) is None,
        },
{
    match parent_of(manifest_dir) {
        Some(p) => match parent_of(p.as_str()) {
            Some(q) => {
                proof {
                    reveal_strlit("assets");
                }
                assert("assets"@ =~= seq!['a', 's', 's', 'e', 't', 's']);
                Some(join_path(q.as_str(), "assets"))
            },
            None => None,
        },
        None => None,
    }
}

} // verus!

//! Where the tracker keeps its settings.

use vstd::prelude::*;

use crate::paths::{path_join, path_join_of, path_parent, path_parent_of};

verus! {

/// The settings file next to the database: `settings.json` in the database's
/// directory, or in `.` when the database path has no parent.
pub open spec fn settings_path_of(db_path: Seq<char>) -> Seq<char> {
    let dir = match path_parent_of(db_path) {
        Some(p) => p,
        None => "."@,
    };
    path_join_of(dir, "settings.json"@)
}

pub fn settings_path_for_db(db_path: &str) -> (r: String)
    ensures
        r@ == settings_path_of(db_path@),
{
    let dir = match path_parent(db_path) {
        Some(p) => p,
        None => String::from_str("."),
    };
    path_join(dir.as_str(), "settings.json")
}

} // verus!

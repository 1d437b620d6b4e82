//! The options of a mass move.

use vstd::prelude::*;

verus! {

/// What to move, where to, and whether existing files may be overwritten.
#[derive(Debug)]
pub struct CLI {
    /// Pattern of the files to move; `*` may stand in the file name only.
    pub source_pattern: String,
    /// Pattern of the new paths; `#1`, `#2`, ... may stand in the file name only.
    pub destination_pattern: String,
    /// Overwrite destinations that already exist.
    pub force: bool,
}

} // verus!

//! Entries of the user's music library listing.
//!
//! Directory walking is filesystem work done by an external adapter; this
//! is the shape it reports.

use vstd::prelude::*;

verus! {

/// One entry of a library directory listing.
#[derive(Clone, Debug, PartialEq, Eq)]
pub enum LibraryEntry {
    File { name: String },
    Folder { name: String, items: usize },
}

} // verus!

//! The data handed to the page templates.
//!
//! The template engine itself lives with the caller; the library provides
//! the per-note record and the link computation.

use vstd::prelude::*;
use vstd::string::StrSliceExecFns;
use vstd::string::StringExecFns;

use crate::doc::Header;

verus! {

/// What the index template needs of one note: its header and the link it
/// is published under.
#[derive(Debug, Clone)]
pub struct NoteData {
    pub header: Header,
    pub link: String,
}

/// The link under which a note with the given file stem is published.
pub fn note_link(stem: &str) -> (r: String)
    ensures
        r@ == "/notes/"@ + stem@ + ".html"@,
{
    String::from_str("/notes/").concat(stem).concat(".html")
}

} // verus!

//! A document: its structured header and its body text.
//!
//! The header is deserialized by the caller from the frontmatter block
//! that [`split_source`] peels off the raw source; a document without a
//! frontmatter block gets the default header.

use vstd::prelude::*;
use vstd::string::StrSliceExecFns;

use crate::frontmatter::{frontmatter_split, split_frontmatter};

verus! {

/// A math macro mapping: each name expands to its replacement text.
#[derive(Debug, Clone)]
pub struct MathHeader {
    pub macros: Vec<(String, String)>,
}

impl Default for MathHeader {
    /// An empty macro mapping.
    fn default() -> (r: Self)
        ensures
            r.macros@ =~= Seq::<(String, String)>::empty(),
    {
        MathHeader { macros: Vec::new() }
    }
}

/// A document's structured header.
#[derive(Debug, Clone)]
pub struct Header {
    pub content_type: Option<String>,
    pub title: String,
    pub date: Option<String>,
    pub math: MathHeader,
}

impl Default for Header {
    /// The header of a document without frontmatter: everything absent or
    /// empty.
    fn default() -> (r: Self)
        ensures
            r.content_type is None,
            r.title@ =~= Seq::<char>::empty(),
            r.date is None,
            r.math.macros@ =~= Seq::<(String, String)>::empty(),
    {
        Header {
            content_type: None,
            title: String::new(),
            date: None,
            math: MathHeader { macros: Vec::new() },
        }
    }
}

/// A document: its header and its body text.
#[derive(Debug, Clone)]
pub struct Doc<'a> {
    pub header: Header,
    pub body: &'a str,
}

/// Error produced when a document cannot be constructed.
#[derive(Debug, Clone)]
pub enum DocError {
    /// The frontmatter block does not deserialize to a header; carries
    /// the deserializer's message.
    DeserializeFrontmatter(String),
}

impl DocError {
    /// The message this error displays as.
    pub fn message(&self) -> (s: String)
        ensures
            s@ == "could not deserialize frontmatter"@,
    {
        String::from_str("could not deserialize frontmatter")
    }
}

/// Split a document source into its frontmatter block and its body, if
/// the source opens with a frontmatter block.
pub fn split_source<'a>(source: &'a str) -> (r: Option<(&'a str, &'a str)>)
    ensures
        match frontmatter_split(source@) {
            Some((fm, body)) => r matches Some(p) && p.0@ == fm && p.1@ == body,
            None => r is None,
        },
{
    match split_frontmatter(source) {
        (Some(fm), body) => Some((fm, body)),
        (None, _) => None,
    }
}

} // verus!

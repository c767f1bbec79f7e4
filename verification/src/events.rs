//! The event vocabulary shared by every stage of the rendering pipeline.
//!
//! A document is a flat sequence of [`Event`]s: span openers, span closers,
//! literal text runs and opaque leaf events.  Spans carry a [`Container`]
//! describing their kind.  Containers and events that the pipeline never
//! rewrites are carried through behind an opaque `key` that the caller can
//! map back to its own representation.

use vstd::prelude::*;

verus! {

/// Key/value metadata attached to a span opener, order-insensitive.
#[derive(Debug, Clone, PartialEq, Eq)]
pub struct Attributes {
    pub pairs: Vec<(String, String)>,
}

impl View for Attributes {
    type V = Seq<(Seq<char>, Seq<char>)>;

    open spec fn view(&self) -> Seq<(Seq<char>, Seq<char>)> {
        Seq::new(self.pairs@.len(), |i: int| (self.pairs@[i].0@, self.pairs@[i].1@))
    }
}

impl Attributes {
    /// An empty attribute list.
    pub fn new() -> (r: Attributes)
        ensures
            r@ =~= Seq::<(Seq<char>, Seq<char>)>::empty(),
    {
        Attributes { pairs: Vec::new() }
    }
}

/// The kind and parameters of a span.
#[derive(Debug, Clone, PartialEq, Eq)]
pub enum Container {
    /// A heading with its level, whether it opens a section, and its anchor id.
    Heading { level: u16, has_section: bool, id: String },
    /// A fenced code block tagged with a free-form language token.
    CodeBlock { language: String },
    /// A math span; `display` distinguishes block from inline math.
    Math { display: bool },
    /// A generic division with a class name.
    Div { class: String },
    /// A block of raw output markup in the named format.
    RawBlock { format: String },
    /// Any other container kind, carried through untouched.
    Other { key: u64 },
}

/// The mathematical value of a [`Container`].
pub enum ContainerV {
    Heading { level: u16, has_section: bool, id: Seq<char> },
    CodeBlock { language: Seq<char> },
    Math { display: bool },
    Div { class: Seq<char> },
    RawBlock { format: Seq<char> },
    Other { key: u64 },
}

impl View for Container {
    type V = ContainerV;

    open spec fn view(&self) -> ContainerV {
        match self {
            Container::Heading { level, has_section, id } => ContainerV::Heading {
                level: *level,
                has_section: *has_section,
                id: id@,
            },
            Container::CodeBlock { language } => ContainerV::CodeBlock { language: language@ },
            Container::Math { display } => ContainerV::Math { display: *display },
            Container::Div { class } => ContainerV::Div { class: class@ },
            Container::RawBlock { format } => ContainerV::RawBlock { format: format@ },
            Container::Other { key } => ContainerV::Other { key: *key },
        }
    }
}

/// One token of the document stream.
#[derive(Debug, Clone, PartialEq, Eq)]
pub enum Event {
    /// Opens a span of the given container kind.
    Start(Container, Attributes),
    /// Closes the most recent open span of the same container kind.
    End(Container),
    /// A contiguous run of literal text.
    Str(String),
    /// Any other leaf event (breaks and the like), carried through untouched.
    Other { key: u64 },
}

/// The mathematical value of an [`Event`].
pub enum EventV {
    Start(ContainerV, Seq<(Seq<char>, Seq<char>)>),
    End(ContainerV),
    Str(Seq<char>),
    Other { key: u64 },
}

impl View for Event {
    type V = EventV;

    open spec fn view(&self) -> EventV {
        match self {
            Event::Start(c, a) => EventV::Start(c@, a@),
            Event::End(c) => EventV::End(c@),
            Event::Str(s) => EventV::Str(s@),
            Event::Other { key } => EventV::Other { key: *key },
        }
    }
}

/// The values of a sequence of events.
pub open spec fn event_views(s: Seq<Event>) -> Seq<EventV> {
    Seq::new(s.len(), |i: int| s[i]@)
}

} // verus!

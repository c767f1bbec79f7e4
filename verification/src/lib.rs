//! A verified event-rewriting pipeline for lightweight markup documents.
//!
//! A document parses into a flat stream of structural [`events`]; the
//! pipeline rewrites spans of that stream — demoting headings
//! ([`headings`]), replacing math spans with their renderings ([`katex`]),
//! replacing code spans with their highlightings ([`inkjet`]) and turning
//! per-span failures into visible error blocks ([`error`]) — as a chain of
//! pull-based, single-pass stages ([`stream`]), composed in [`pipeline`].
//! Every stage hands out one event per pull and fans a multi-event
//! replacement out through a small last-in-first-out buffer, so no stage
//! ever buffers more than one span.
//!
//! Around the pipeline sit the document pieces: frontmatter splitting
//! ([`frontmatter`]), the document and header records ([`doc`]), the
//! directory layout ([`config`]), the LaTeX conversion errors ([`latex`]),
//! the command vocabulary ([`cli`]) and the template data ([`templates`]).

pub mod events;
pub mod stream;
pub mod headings;
pub mod error;
pub mod katex;
pub mod inkjet;
pub mod pipeline;
pub mod frontmatter;
pub mod doc;
pub mod config;
pub mod latex;
pub mod cli;
pub mod templates;

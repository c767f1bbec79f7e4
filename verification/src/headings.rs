//! Demote the headings in a document by a fixed offset.
//!
//! A pure, stateless field map over the stream: heading containers on
//! `Start` and `End` events get their level raised by the offset, saturating
//! at the largest representable level; every other event passes through
//! unchanged.

use vstd::prelude::*;

use crate::events::{Container, ContainerV, Event, EventV};
use crate::stream::EventSource;

verus! {

/// The demoted level: `level + offset`, saturating at `u16::MAX`.
pub open spec fn demoted_level(level: u16, offset: u16) -> u16 {
    if level + offset > u16::MAX {
        u16::MAX
    } else {
        (level + offset) as u16
    }
}

/// What demotion does to one container: headings get their level raised,
/// everything else is untouched.
pub open spec fn demote_container(c: ContainerV, offset: u16) -> ContainerV {
    match c {
        ContainerV::Heading { level, has_section, id } => ContainerV::Heading {
            level: demoted_level(level, offset),
            has_section,
            id,
        },
        _ => c,
    }
}

/// What demotion does to one event: the container of a `Start` or `End` is
/// demoted, every other event is untouched.
pub open spec fn demote_event(e: EventV, offset: u16) -> EventV {
    match e {
        EventV::Start(c, a) => EventV::Start(demote_container(c, offset), a),
        EventV::End(c) => EventV::End(demote_container(c, offset)),
        _ => e,
    }
}

/// Demotion applied to a whole stream.
pub open spec fn demote_seq(s: Seq<EventV>, offset: u16) -> Seq<EventV> {
    Seq::new(s.len(), |i: int| demote_event(s[i], offset))
}

/// Whether an event opens or closes a heading span.
pub open spec fn is_heading_event(e: EventV) -> bool {
    ||| e matches EventV::Start(ContainerV::Heading { .. }, _)
    ||| e matches EventV::End(ContainerV::Heading { .. })
}

/// Heading demotion is a pure field map: output length equals input length,
/// each event is demoted independently, a non-heading event is identical
/// before and after, and a heading's level becomes `level + offset`
/// saturating at the maximum instead of wrapping.
pub proof fn lemma_demote_field_map(s: Seq<EventV>, offset: u16)
    ensures
        demote_seq(s, offset).len() == s.len(),
        forall|i: int| 0 <= i < s.len() ==> demote_seq(s, offset)[i] == demote_event(s[i], offset),
        forall|i: int| 0 <= i < s.len() && !is_heading_event(s[i]) ==> demote_seq(s, offset)[i] == s[i],
        forall|level: u16, offset2: u16|
            demoted_level(level, offset2) == if level + offset2 > u16::MAX {
                u16::MAX as int
            } else {
                level + offset2
            },
{
}

/// The stage that demotes headings, pulling from an upstream source.
pub struct DemoteHeadings<I> {
    inner: I,
    offset: u16,
}

impl<I: EventSource> DemoteHeadings<I> {
    /// Chain a demotion stage with the given offset onto `inner`.
    pub fn new(inner: I, offset: u16) -> (r: Self)
        ensures
            r.future() == demote_seq(inner.future(), offset),
    {
        Self { inner, offset }
    }

    /// Demote one container.
    fn map_container(&self, container: Container) -> (r: Container)
        ensures
            r@ == demote_container(container@, self.offset),
    {
        match container {
            Container::Heading { level, has_section, id } => {
                let level = if level > u16::MAX - self.offset {
                    u16::MAX
                } else {
                    level + self.offset
                };
                Container::Heading { level, has_section, id }
            }
            container => container,
        }
    }
}

impl<I: EventSource> EventSource for DemoteHeadings<I> {
    closed spec fn future(&self) -> Seq<EventV> {
        demote_seq(self.inner.future(), self.offset)
    }

    fn next(&mut self) -> (r: Option<Event>) {
        let e = match self.inner.next() {
            None => {
                return None;
            }
            Some(e) => e,
        };
        proof {
            assert(self.future() =~= old(self).future().drop_first());
        }
        Some(
            match e {
                Event::Start(container, attributes) => {
                    let container = self.map_container(container);
                    Event::Start(container, attributes)
                }
                Event::End(container) => {
                    let container = self.map_container(container);
                    Event::End(container)
                }
                event => event,
            },
        )
    }
}

} // verus!

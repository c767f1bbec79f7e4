//! The pull contract every pipeline stage obeys.
//!
//! A stage is a single-pass producer of events.  Its whole behaviour is
//! captured by one ghost sequence, [`EventSource::future`]: the events the
//! stage will still hand out.  `next` either returns the head of that
//! sequence or, once it is empty, keeps returning `None`.  Fallible stages
//! obey the same contract over a sequence of results, where an error is
//! represented by the message it displays as.

use vstd::prelude::*;

use crate::events::{Event, EventV, event_views};

verus! {

/// A pull-based producer of plain events.
pub trait EventSource: Sized {
    /// The events this source will still produce, in order.
    spec fn future(&self) -> Seq<EventV>;

    /// Produce the next event, or report that the stream is exhausted.
    fn next(&mut self) -> (r: Option<Event>)
        ensures
            match r {
                Some(e) => old(self).future().len() > 0 && e@ == old(self).future()[0]
                    && final(self).future() == old(self).future().drop_first(),
                None => old(self).future().len() == 0
                    && final(self).future() == old(self).future(),
            },
    ;
}

/// An error a fallible stage can produce, together with the message shown
/// for it in the rendered document.
pub trait ErrorText {
    /// The message this error displays as.
    spec fn text_spec(&self) -> Seq<char>;

    /// Produce the display message.
    fn text(&self) -> (s: String)
        ensures
            s@ == self.text_spec(),
    ;
}

/// A pull-based producer of events that can fail per span.  In the future
/// sequence an error is recorded as its display message.
pub trait FallibleSource: Sized {
    /// The error type this source produces.
    type Error: ErrorText;

    /// The results this source will still produce, in order; an error is
    /// represented by its display message.
    spec fn future(&self) -> Seq<Result<EventV, Seq<char>>>;

    /// Produce the next result, or report that the stream is exhausted.
    fn next(&mut self) -> (r: Option<Result<Event, Self::Error>>)
        ensures
            match r {
                Some(Ok(e)) => old(self).future().len() > 0
                    && old(self).future()[0] == Ok::<EventV, Seq<char>>(e@)
                    && final(self).future() == old(self).future().drop_first(),
                Some(Err(er)) => old(self).future().len() > 0
                    && old(self).future()[0] == Err::<EventV, Seq<char>>(er.text_spec())
                    && final(self).future() == old(self).future().drop_first(),
                None => old(self).future().len() == 0
                    && final(self).future() == old(self).future(),
            },
    ;
}

/// The values of a sequence of events, each wrapped as a success.
pub open spec fn ok_views(s: Seq<Event>) -> Seq<Result<EventV, Seq<char>>> {
    Seq::new(s.len(), |i: int| Ok(s[i]@))
}

/// A source that replays an already-materialised event sequence.  This is
/// how a caller feeds a parsed document into the pipeline.
pub struct EventCursor {
    /// The remaining events, stored in reverse so the next one is popped
    /// from the end.
    stack: Vec<Event>,
}

impl EventCursor {
    /// Wrap an event sequence as a source producing it front to back.
    pub fn new(events: Vec<Event>) -> (r: EventCursor)
        ensures
            r.future() == event_views(events@),
    {
        let mut events = events;
        let ghost all = events@;
        let mut stack: Vec<Event> = Vec::new();
        while events.len() > 0
            invariant
                stack@.len() + events@.len() == all.len(),
                events@ =~= all.subrange(0, events@.len() as int),
                stack@ =~= all.subrange(events@.len() as int, all.len() as int).reverse(),
            decreases events@.len(),
        {
            let e = events.pop().unwrap();
            stack.push(e);
        }
        let r = EventCursor { stack };
        proof {
            assert(stack@ =~= all.reverse());
            assert(r.future() =~= event_views(all)) by {
                assert(stack@.reverse() =~= all);
            }
        }
        r
    }
}

impl EventSource for EventCursor {
    closed spec fn future(&self) -> Seq<EventV> {
        event_views(self.stack@.reverse())
    }

    fn next(&mut self) -> (r: Option<Event>) {
        let r = self.stack.pop();
        proof {
            if old(self).stack@.len() > 0 {
                assert(self.stack@.reverse() =~= old(self).stack@.reverse().drop_first());
                assert(self.future() =~= old(self).future().drop_first());
            }
        }
        r
    }
}

/// Pull a source until it is exhausted and collect everything it produced.
pub fn drain<S: EventSource>(src: &mut S) -> (out: Vec<Event>)
    ensures
        event_views(out@) == old(src).future(),
        final(src).future().len() == 0,
{
    let mut out: Vec<Event> = Vec::new();
    let mut done = false;
    while !done
        invariant
            event_views(out@) + src.future() =~= old(src).future(),
            done ==> src.future().len() == 0,
        decreases src.future().len() + (if done { 0int } else { 1 }),
    {
        match src.next() {
            None => {
                done = true;
            }
            Some(e) => {
                out.push(e);
                proof {
                    assert(event_views(out@) + src.future() =~= old(src).future());
                }
            }
        }
    }
    proof {
        assert(event_views(out@) =~= old(src).future());
    }
    out
}

} // verus!

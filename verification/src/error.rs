//! Display errors in the document.
//!
//! Collapses a fallible event stream into an always-succeeding one: each
//! error is translated in place into a div with the `error` class holding
//! the error's display message, and the rest of the stream is unaffected.

use vstd::prelude::*;

use crate::events::{Attributes, Container, Event, EventV, ContainerV, event_views};
use crate::stream::{ErrorText, EventSource, FallibleSource};

verus! {

/// The three-event replacement span shown for one error message.
pub open spec fn error_span(msg: Seq<char>) -> Seq<EventV> {
    seq![
        EventV::Start(
            ContainerV::Div { class: "error"@ },
            Seq::<(Seq<char>, Seq<char>)>::empty(),
        ),
        EventV::Str(msg),
        EventV::End(ContainerV::Div { class: "error"@ }),
    ]
}

/// What error presentation does to a stream of results: successes pass
/// through unchanged, each error becomes its visible error span, in place.
pub open spec fn show_seq(s: Seq<Result<EventV, Seq<char>>>) -> Seq<EventV>
    decreases s.len(),
{
    if s.len() == 0 {
        Seq::empty()
    } else {
        (match s[0] {
            Ok(e) => seq![e],
            Err(msg) => error_span(msg),
        }) + show_seq(s.drop_first())
    }
}

/// How many results of a stream are errors.
pub open spec fn count_errors(s: Seq<Result<EventV, Seq<char>>>) -> nat
    decreases s.len(),
{
    if s.len() == 0 {
        0
    } else {
        (if s[0] is Err {
            1nat
        } else {
            0nat
        }) + count_errors(s.drop_first())
    }
}

/// Whether an event opens a visible error block.
pub open spec fn is_error_opener(e: EventV) -> bool {
    e matches EventV::Start(ContainerV::Div { class }, _) && class == "error"@
}

/// How many events of a stream open a visible error block.
pub open spec fn count_error_blocks(s: Seq<EventV>) -> nat
    decreases s.len(),
{
    if s.len() == 0 {
        0
    } else {
        (if is_error_opener(s[0]) {
            1nat
        } else {
            0nat
        }) + count_error_blocks(s.drop_first())
    }
}

/// The successful events of a stream of results, in order.
pub open spec fn successes(s: Seq<Result<EventV, Seq<char>>>) -> Seq<EventV>
    decreases s.len(),
{
    if s.len() == 0 {
        Seq::empty()
    } else {
        (match s[0] {
            Ok(e) => seq![e],
            Err(_) => Seq::empty(),
        }) + successes(s.drop_first())
    }
}

proof fn lemma_count_error_blocks_concat(a: Seq<EventV>, b: Seq<EventV>)
    ensures
        count_error_blocks(a + b) == count_error_blocks(a) + count_error_blocks(b),
    decreases a.len(),
{
    if a.len() == 0 {
        assert(a + b =~= b);
    } else {
        lemma_count_error_blocks_concat(a.drop_first(), b);
        assert((a + b).drop_first() =~= a.drop_first() + b);
    }
}

proof fn lemma_count_error_blocks_one(e: EventV)
    ensures
        count_error_blocks(seq![e]) == if is_error_opener(e) {
            1nat
        } else {
            0nat
        },
{
    assert(seq![e].len() == 1);
    assert(seq![e][0] == e);
    assert(seq![e].drop_first() =~= Seq::<EventV>::empty());
    assert(count_error_blocks(Seq::<EventV>::empty()) == 0);
    assert(count_error_blocks(seq![e]) == (if is_error_opener(e) {
        1nat
    } else {
        0nat
    }) + count_error_blocks(seq![e].drop_first()));
}

proof fn lemma_count_error_span(msg: Seq<char>)
    ensures
        count_error_blocks(error_span(msg)) == 1,
{
    let s = error_span(msg);
    let s1 = seq![EventV::Str(msg), EventV::End(ContainerV::Div { class: "error"@ })];
    let s2 = seq![EventV::End(ContainerV::Div { class: "error"@ })];
    assert(s.len() == 3);
    assert(is_error_opener(s[0]));
    assert(s.drop_first() =~= s1);
    assert(s1.drop_first() =~= s2);
    assert(s2.drop_first() =~= Seq::<EventV>::empty());
    assert(count_error_blocks(Seq::<EventV>::empty()) == 0);
    assert(count_error_blocks(s2) == 0 + count_error_blocks(s2.drop_first()));
    assert(count_error_blocks(s1) == 0 + count_error_blocks(s1.drop_first()));
    assert(count_error_blocks(s) == 1 + count_error_blocks(s.drop_first()));
}

/// Error isolation: presenting the errors of a stream with `E` errors
/// yields the stream's successful events in their original order plus
/// exactly one visible error block per error, in place — the output adds
/// two events per error, opens exactly `E` error blocks beyond those the
/// successful events already open, and a stream without errors passes
/// through unchanged.
pub proof fn lemma_show_errors_isolation(s: Seq<Result<EventV, Seq<char>>>)
    ensures
        show_seq(s).len() == s.len() + 2 * count_errors(s),
        count_error_blocks(show_seq(s)) == count_errors(s) + count_error_blocks(successes(s)),
        count_errors(s) == 0 ==> show_seq(s) == successes(s),
    decreases s.len(),
{
    if s.len() == 0 {
    } else {
        lemma_show_errors_isolation(s.drop_first());
        match s[0] {
            Ok(e) => {
                lemma_count_error_blocks_concat(seq![e], show_seq(s.drop_first()));
                lemma_count_error_blocks_concat(seq![e], successes(s.drop_first()));
                lemma_count_error_blocks_one(e);
            }
            Err(msg) => {
                lemma_count_error_blocks_concat(error_span(msg), show_seq(s.drop_first()));
                lemma_count_error_span(msg);
                assert(successes(s) == successes(s.drop_first())) by {
                    assert(Seq::<EventV>::empty() + successes(s.drop_first()) =~= successes(
                        s.drop_first(),
                    ));
                }
            }
        }
    }
}

/// The stage that makes errors visible, pulling from a fallible upstream.
pub struct ShowErrors<I> {
    inner: I,
    buffer: Vec<Event>,
}

impl<I: FallibleSource> ShowErrors<I> {
    /// Chain an error-presentation stage onto `inner`.
    pub fn new(inner: I) -> (r: Self)
        ensures
            r.future() == show_seq(inner.future()),
    {
        let r = Self { inner, buffer: Vec::new() };
        proof {
            assert(r.future() =~= show_seq(r.inner_future()));
        }
        r
    }

    /// The upstream's remaining results (spec-level helper).
    closed spec fn inner_future(&self) -> Seq<Result<EventV, Seq<char>>> {
        self.inner.future()
    }
}

impl<I: FallibleSource> EventSource for ShowErrors<I> {
    closed spec fn future(&self) -> Seq<EventV> {
        event_views(self.buffer@.reverse()) + show_seq(self.inner.future())
    }

    fn next(&mut self) -> (r: Option<Event>) {
        if let Some(event) = self.buffer.pop() {
            proof {
                assert(old(self).future()[0] == event@);
                assert(self.buffer@.reverse() =~= old(self).buffer@.reverse().drop_first());
                assert(self.future() =~= old(self).future().drop_first());
            }
            return Some(event);
        }
        let error = match self.inner.next() {
            None => {
                proof {
                    assert(self.future() =~= old(self).future());
                }
                return None;
            }
            Some(Ok(event)) => {
                proof {
                    assert(old(self).future() =~= seq![event@] + show_seq(self.inner.future()));
                    assert(self.future() =~= old(self).future().drop_first());
                }
                return Some(event);
            }
            Some(Err(error)) => error,
        };

        let ghost msg = error.text_spec();
        proof {
            assert(old(self).future() =~= error_span(msg) + show_seq(self.inner.future()));
        }
        self.buffer.push(Event::End(Container::Div { class: String::from_str("error") }));
        self.buffer.push(Event::Str(error.text()));
        proof {
            assert(self.future() =~= old(self).future().drop_first());
        }
        Some(
            Event::Start(Container::Div { class: String::from_str("error") }, Attributes::new()),
        )
    }
}

} // verus!

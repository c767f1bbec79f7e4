//! Render math spans to markup.
//!
//! The stage consumes each math span — a `Start(Math)` opener, its literal
//! text, and the closing `End` — and replaces it with a raw `html` block
//! holding the rendering supplied for that span, or fails for just that
//! span.  Renderings are injected: the caller collects the spans with
//! [`crate::pipeline::math_requests`], renders each with whatever engine it
//! has, and hands the outcomes to the stage in span order.

use vstd::prelude::*;
use vstd::string::StrSliceExecFns;
use vstd::string::StringExecFns;

use crate::events::{Container, ContainerV, Event, EventV};
use crate::stream::{ErrorText, EventSource, FallibleSource, ok_views};

verus! {

/// What the caller's renderer produced for one math span, in span order.
#[derive(Debug, Clone, PartialEq, Eq)]
pub enum MathOutcome {
    /// The span's markup; it replaces the span as a raw `html` block.
    Rendered(String),
    /// The renderer rejected the span, with its error message.
    Failed(String),
}

/// The mathematical value of a [`MathOutcome`].
pub enum MathOutcomeV {
    Rendered(Seq<char>),
    Failed(Seq<char>),
}

impl View for MathOutcome {
    type V = MathOutcomeV;

    open spec fn view(&self) -> MathOutcomeV {
        match self {
            MathOutcome::Rendered(s) => MathOutcomeV::Rendered(s@),
            MathOutcome::Failed(s) => MathOutcomeV::Failed(s@),
        }
    }
}

/// The values of a sequence of outcomes.
pub open spec fn math_outcome_views(s: Seq<MathOutcome>) -> Seq<MathOutcomeV> {
    Seq::new(s.len(), |i: int| s[i]@)
}

/// Error produced by [`KatexMath`].
#[derive(Debug, Clone, PartialEq, Eq)]
pub enum KatexMathError {
    /// The renderer rejected the span, or no rendering was supplied for it.
    Katex(String),
    /// Unexpected event in math block.
    Unexpected,
}

/// The message shown when a math span failed to render.
pub open spec fn math_failed_text(message: Seq<char>) -> Seq<char> {
    "failed to render katex math: "@ + message
}

/// The message shown for an unexpected event inside a math span.
pub open spec fn math_unexpected_text() -> Seq<char> {
    "unexpected event in math block"@
}

/// The message used when the caller supplied fewer renderings than the
/// document has math spans.
pub open spec fn math_missing_text() -> Seq<char> {
    "no rendering was supplied for this math span"@
}

/// The message used when the caller supplied fewer renderings than the
/// document has math spans.
pub fn math_missing_message() -> (s: String)
    ensures
        s@ == math_missing_text(),
{
    String::from_str("no rendering was supplied for this math span")
}

impl ErrorText for KatexMathError {
    open spec fn text_spec(&self) -> Seq<char> {
        match self {
            KatexMathError::Katex(m) => math_failed_text(m@),
            KatexMathError::Unexpected => math_unexpected_text(),
        }
    }

    fn text(&self) -> (s: String) {
        match self {
            KatexMathError::Katex(m) => String::from_str("failed to render katex math: ").concat(
                m.as_str(),
            ),
            KatexMathError::Unexpected => String::from_str("unexpected event in math block"),
        }
    }
}

/// Where a scan of the stream stands relative to math spans: outside any
/// span, or inside one whose opener carried the given attributes.
pub enum MathScan {
    Outside,
    Inside { display: bool, attrs: Seq<(Seq<char>, Seq<char>)> },
}

/// The outcome used for the next math span: the supplied one, or a failure
/// when the caller supplied too few.
pub open spec fn math_outs_head(outs: Seq<MathOutcomeV>) -> MathOutcomeV {
    if outs.len() > 0 {
        outs[0]
    } else {
        MathOutcomeV::Failed(math_missing_text())
    }
}

/// The outcomes left for later spans.
pub open spec fn math_outs_tail(outs: Seq<MathOutcomeV>) -> Seq<MathOutcomeV> {
    if outs.len() > 0 {
        outs.drop_first()
    } else {
        outs
    }
}

/// The replacement emitted for one completed math span: a raw `html` block
/// holding the rendering, or one error carrying the renderer's message.
pub open spec fn math_emit(o: MathOutcomeV, attrs: Seq<(Seq<char>, Seq<char>)>) -> Seq<
    Result<EventV, Seq<char>>,
> {
    match o {
        MathOutcomeV::Rendered(html) => seq![
            Ok(EventV::Start(ContainerV::RawBlock { format: "html"@ }, attrs)),
            Ok(EventV::Str(html)),
            Ok(EventV::End(ContainerV::RawBlock { format: "html"@ })),
        ],
        MathOutcomeV::Failed(m) => seq![Err(math_failed_text(m))],
    }
}

/// What math rendering does to a stream, starting in the given scan state.
/// Outside a span events pass through until a math opener; inside one,
/// literal text is consumed, the closing `End` triggers the replacement,
/// any other event is a malformed-span error, and a stream that ends
/// mid-span produces nothing further.
pub open spec fn math_seq_from(
    s: Seq<EventV>,
    outs: Seq<MathOutcomeV>,
    scan: MathScan,
) -> Seq<Result<EventV, Seq<char>>>
    decreases s.len(),
{
    if s.len() == 0 {
        Seq::empty()
    } else {
        match scan {
            MathScan::Outside => match s[0] {
                EventV::Start(ContainerV::Math { display }, attrs) => math_seq_from(
                    s.drop_first(),
                    outs,
                    MathScan::Inside { display, attrs },
                ),
                e => seq![Ok(e)] + math_seq_from(s.drop_first(), outs, MathScan::Outside),
            },
            MathScan::Inside { display, attrs } => match s[0] {
                EventV::Str(_) => math_seq_from(s.drop_first(), outs, scan),
                EventV::End(_) => math_emit(math_outs_head(outs), attrs) + math_seq_from(
                    s.drop_first(),
                    math_outs_tail(outs),
                    MathScan::Outside,
                ),
                _ => seq![Err(math_unexpected_text())] + math_seq_from(
                    s.drop_first(),
                    outs,
                    MathScan::Outside,
                ),
            },
        }
    }
}

/// What math rendering does to a whole stream.
pub open spec fn math_seq(s: Seq<EventV>, outs: Seq<MathOutcomeV>) -> Seq<
    Result<EventV, Seq<char>>,
> {
    math_seq_from(s, outs, MathScan::Outside)
}

/// Running the math stage twice over the same events with the same
/// renderings yields identical output: the stage is a pure function of the
/// stream and the supplied outcomes.
pub proof fn lemma_math_deterministic(
    s1: Seq<EventV>,
    outs1: Seq<MathOutcomeV>,
    s2: Seq<EventV>,
    outs2: Seq<MathOutcomeV>,
)
    requires
        s1 == s2,
        outs1 == outs2,
    ensures
        math_seq(s1, outs1) == math_seq(s2, outs2),
{
}

/// The stage that renders math spans, pulling from an upstream source.
pub struct KatexMath<I> {
    inner: I,
    outcomes: Vec<MathOutcome>,
    buffer: Vec<Event>,
}

impl<I: EventSource> KatexMath<I> {
    /// Chain a math-rendering stage onto `inner`, with one outcome per
    /// math span of the upstream, in span order.
    pub fn new(inner: I, outcomes: Vec<MathOutcome>) -> (r: Self)
        ensures
            r.future() == math_seq(inner.future(), math_outcome_views(outcomes@)),
    {
        let r = Self { inner, outcomes, buffer: Vec::new() };
        proof {
            assert(r.future() =~= math_seq(r.inner_future(), math_outcome_views(r.outcomes_view())));
        }
        r
    }

    /// The upstream's remaining events (spec-level helper).
    closed spec fn inner_future(&self) -> Seq<EventV> {
        self.inner.future()
    }

    /// The outcomes not yet consumed (spec-level helper).
    closed spec fn outcomes_view(&self) -> Seq<MathOutcome> {
        self.outcomes@
    }
}

impl<I: EventSource> FallibleSource for KatexMath<I> {
    type Error = KatexMathError;

    closed spec fn future(&self) -> Seq<Result<EventV, Seq<char>>> {
        ok_views(self.buffer@.reverse()) + math_seq(
            self.inner.future(),
            math_outcome_views(self.outcomes@),
        )
    }

    fn next(&mut self) -> (r: Option<Result<Event, KatexMathError>>) {
        if let Some(event) = self.buffer.pop() {
            proof {
                assert(old(self).future()[0] == Ok::<EventV, Seq<char>>(event@));
                assert(self.buffer@.reverse() =~= old(self).buffer@.reverse().drop_first());
                assert(self.future() =~= old(self).future().drop_first());
            }
            return Some(Ok(event));
        }
        let e = match self.inner.next() {
            None => {
                proof {
                    assert(self.future() =~= old(self).future());
                }
                return None;
            }
            Some(e) => e,
        };
        let ghost outs = math_outcome_views(self.outcomes@);
        let (display, attributes) = match e {
            Event::Start(Container::Math { display }, attributes) => (display, attributes),
            event => {
                proof {
                    assert(old(self).future() =~= seq![Ok::<EventV, Seq<char>>(event@)]
                        + math_seq_from(self.inner.future(), outs, MathScan::Outside));
                    assert(self.future() =~= old(self).future().drop_first());
                }
                return Some(Ok(event));
            }
        };
        let ghost attrs = attributes@;
        let ghost t0 = old(self).future();
        proof {
            assert(t0 =~= math_seq_from(
                self.inner.future(),
                outs,
                MathScan::Inside { display, attrs },
            ));
        }
        loop
            invariant
                self.buffer@.len() == 0,
                outs == math_outcome_views(self.outcomes@),
                attributes@ == attrs,
                t0 == old(self).future(),
                t0 =~= math_seq_from(
                    self.inner.future(),
                    outs,
                    MathScan::Inside { display, attrs },
                ),
            decreases self.inner.future().len(),
        {
            match self.inner.next() {
                None => {
                    proof {
                        assert(old(self).future().len() == 0);
                        assert(self.future() =~= old(self).future());
                    }
                    return None;
                }
                Some(event) => match event {
                    Event::Str(_) => {},
                    Event::End(_) => {
                        proof {
                            assert(t0 =~= math_emit(math_outs_head(outs), attrs) + math_seq_from(
                                self.inner.future(),
                                math_outs_tail(outs),
                                MathScan::Outside,
                            ));
                        }
                        let supplied: Option<MathOutcome> = if self.outcomes.len() > 0 {
                            Some(self.outcomes.remove(0))
                        } else {
                            None
                        };
                        proof {
                            assert(math_outcome_views(self.outcomes@) =~= math_outs_tail(outs));
                        }
                        match supplied {
                            Some(MathOutcome::Rendered(rendered)) => {
                                proof {
                                    assert(math_outs_head(outs) == MathOutcomeV::Rendered(
                                        rendered@,
                                    ));
                                    assert(t0[0] == Ok::<EventV, Seq<char>>(EventV::Start(
                                        ContainerV::RawBlock { format: "html"@ },
                                        attrs,
                                    )));
                                }
                                self.buffer.push(
                                    Event::End(
                                        Container::RawBlock {
                                            format: String::from_str("html"),
                                        },
                                    ),
                                );
                                self.buffer.push(Event::Str(rendered));
                                proof {
                                    assert(self.future() =~= old(self).future().drop_first());
                                }
                                let html_fmt = String::from_str("html");
                                proof {
                                    assert(html_fmt@ == "html"@);
                                    assert(attributes@ == attrs);
                                }
                                let opener = Event::Start(
                                    Container::RawBlock { format: html_fmt },
                                    attributes,
                                );
                                proof {
                                    assert(opener@ == EventV::Start(
                                        ContainerV::RawBlock { format: "html"@ },
                                        attrs,
                                    ));
                                }
                                return Some(Ok(opener));
                            }
                            Some(MathOutcome::Failed(message)) => {
                                proof {
                                    assert(self.future() =~= old(self).future().drop_first());
                                }
                                return Some(Err(KatexMathError::Katex(message)));
                            }
                            None => {
                                proof {
                                    assert(self.future() =~= old(self).future().drop_first());
                                }
                                return Some(Err(KatexMathError::Katex(math_missing_message())));
                            }
                        }
                    }
                    _ => {
                        proof {
                            assert(t0 =~= seq![Err::<EventV, Seq<char>>(math_unexpected_text())]
                                + math_seq_from(self.inner.future(), outs, MathScan::Outside));
                            assert(self.future() =~= old(self).future().drop_first());
                        }
                        return Some(Err(KatexMathError::Unexpected));
                    }
                },
            }
        }
    }
}

} // verus!

//! The composed rendering pipeline and the span-request extractors.
//!
//! The canonical ordering chains the stages as: demote headings (pure),
//! render math (fallible), present errors, highlight code (fallible),
//! present errors.  Each fallible stage is bridged by an
//! error-presentation stage, so the composed pipeline always yields a
//! plain event stream.
//!
//! Rendering and highlighting engines live outside the pipeline.  A caller
//! first extracts the math and code spans with [`math_requests`] and
//! [`code_requests`], runs its engines over them, and feeds the outcomes
//! back through [`render_events`].

use vstd::prelude::*;

use crate::error::{ShowErrors, show_seq};
use crate::events::{Container, Event, EventV, event_views};
use crate::headings::{DemoteHeadings, demote_seq};
use crate::inkjet::{CodeOutcome, CodeOutcomeV, InkjetCode, code_outcome_views, code_seq};
use crate::katex::{KatexMath, MathOutcome, MathOutcomeV, math_outcome_views, math_seq};
use crate::stream::{EventCursor, drain};

verus! {

/// One math span to render: its literal source text and whether it is
/// display (block) or inline math.
#[derive(Debug, Clone, PartialEq, Eq)]
pub struct MathRequest {
    pub text: String,
    pub display: bool,
}

/// The mathematical value of a [`MathRequest`].
pub struct MathRequestV {
    pub text: Seq<char>,
    pub display: bool,
}

impl View for MathRequest {
    type V = MathRequestV;

    open spec fn view(&self) -> MathRequestV {
        MathRequestV { text: self.text@, display: self.display }
    }
}

/// The values of a sequence of math requests.
pub open spec fn math_request_views(s: Seq<MathRequest>) -> Seq<MathRequestV> {
    Seq::new(s.len(), |i: int| s[i]@)
}

/// One code span to highlight: its language token and literal source text.
#[derive(Debug, Clone, PartialEq, Eq)]
pub struct CodeRequest {
    pub language: String,
    pub text: String,
}

/// The mathematical value of a [`CodeRequest`].
pub struct CodeRequestV {
    pub language: Seq<char>,
    pub text: Seq<char>,
}

impl View for CodeRequest {
    type V = CodeRequestV;

    open spec fn view(&self) -> CodeRequestV {
        CodeRequestV { language: self.language@, text: self.text@ }
    }
}

/// The values of a sequence of code requests.
pub open spec fn code_request_views(s: Seq<CodeRequest>) -> Seq<CodeRequestV> {
    Seq::new(s.len(), |i: int| s[i]@)
}

/// Scan state for collecting math spans: outside any span, or inside one
/// with the text collected so far.
pub enum MathReqScan {
    Outside,
    Inside { display: bool, text: Seq<char> },
}

/// The math spans a scan of the stream completes, in order, starting in
/// the given state.  The scan consumes spans exactly as the math stage
/// does, so span `i` of the result is the span the stage resolves with
/// outcome `i`; a span cut short by an unexpected event or by the end of
/// the stream yields no request.
pub open spec fn math_requests_from(s: Seq<EventV>, scan: MathReqScan) -> Seq<MathRequestV>
    decreases s.len(),
{
    if s.len() == 0 {
        Seq::empty()
    } else {
        match scan {
            MathReqScan::Outside => match s[0] {
                EventV::Start(crate::events::ContainerV::Math { display }, _) =>
                    math_requests_from(
                    s.drop_first(),
                    MathReqScan::Inside { display, text: Seq::empty() },
                ),
                _ => math_requests_from(s.drop_first(), MathReqScan::Outside),
            },
            MathReqScan::Inside { display, text } => match s[0] {
                EventV::Str(t) => math_requests_from(
                    s.drop_first(),
                    MathReqScan::Inside { display, text: text + t },
                ),
                EventV::End(_) => seq![MathRequestV { text, display }] + math_requests_from(
                    s.drop_first(),
                    MathReqScan::Outside,
                ),
                _ => math_requests_from(s.drop_first(), MathReqScan::Outside),
            },
        }
    }
}

/// The math spans of a whole stream, in order.
pub open spec fn math_requests_seq(s: Seq<EventV>) -> Seq<MathRequestV> {
    math_requests_from(s, MathReqScan::Outside)
}

/// Collect the math spans of an event sequence, in order: one request per
/// completed span, with the span's concatenated literal text and its
/// display flag.
pub fn math_requests(events: &Vec<Event>) -> (r: Vec<MathRequest>)
    ensures
        math_request_views(r@) == math_requests_seq(event_views(events@)),
{
    let ghost full = event_views(events@);
    let mut out: Vec<MathRequest> = Vec::new();
    let mut i: usize = 0;
    let mut in_span = false;
    let mut display = false;
    let mut text = String::new();
    proof {
        assert(full.skip(0) =~= full);
    }
    while i < events.len()
        invariant
            i <= events@.len(),
            full == event_views(events@),
            !in_span ==> text@ == Seq::<char>::empty(),
            math_request_views(out@) + math_requests_from(
                full.skip(i as int),
                if in_span {
                    MathReqScan::Inside { display, text: text@ }
                } else {
                    MathReqScan::Outside
                },
            ) =~= math_requests_seq(full),
        decreases events@.len() - i,
    {
        proof {
            assert(full.skip(i as int)[0] == full[i as int]);
            assert(full[i as int] == events@[i as int]@);
            assert(full.skip(i as int).drop_first() =~= full.skip(i as int + 1));
        }
        let ghost scan0 = if in_span {
            MathReqScan::Inside { display, text: text@ }
        } else {
            MathReqScan::Outside
        };
        let ghost rest0 = math_requests_from(full.skip(i as int), scan0);
        let e = &events[i];
        if in_span {
            match e {
                Event::Str(t) => {
                    let ghost text0 = text@;
                    text.append(t.as_str());
                    proof {
                        assert(rest0 == math_requests_from(
                            full.skip(i as int + 1),
                            MathReqScan::Inside { display, text: text0 + t@ },
                        ));
                    }
                }
                Event::End(_) => {
                    let ghost old_out = out@;
                    let ghost req = MathRequestV { text: text@, display };
                    proof {
                        assert(rest0 == seq![req] + math_requests_from(
                            full.skip(i as int + 1),
                            MathReqScan::Outside,
                        ));
                    }
                    let request = MathRequest { text, display };
                    out.push(request);
                    text = String::new();
                    in_span = false;
                    proof {
                        assert(math_request_views(out@) =~= math_request_views(old_out)
                            + seq![req]);
                    }
                }
                _ => {
                    text = String::new();
                    in_span = false;
                    proof {
                        assert(rest0 == math_requests_from(
                            full.skip(i as int + 1),
                            MathReqScan::Outside,
                        ));
                    }
                }
            }
        } else {
            match e {
                Event::Start(Container::Math { display: d }, _) => {
                    in_span = true;
                    display = *d;
                    proof {
                        assert(rest0 == math_requests_from(
                            full.skip(i as int + 1),
                            MathReqScan::Inside { display, text: Seq::empty() },
                        ));
                        assert(text@ =~= Seq::<char>::empty());
                    }
                }
                _ => {
                    proof {
                        assert(rest0 == math_requests_from(
                            full.skip(i as int + 1),
                            MathReqScan::Outside,
                        ));
                    }
                }
            }
        }
        i = i + 1;
    }
    proof {
        assert(full.skip(i as int) =~= Seq::<EventV>::empty());
        assert(math_request_views(out@) =~= math_requests_seq(full));
    }
    out
}

/// Scan state for collecting code spans: outside any span, or inside one
/// with the language and the text collected so far.
pub enum CodeReqScan {
    Outside,
    Inside { language: Seq<char>, text: Seq<char> },
}

/// The code spans a scan of the stream completes, in order, starting in
/// the given state.  The scan consumes spans exactly as the highlighting
/// stage does, so span `i` of the result is the span the stage resolves
/// with outcome `i`; a span cut short by an unexpected event or by the
/// end of the stream yields no request.
pub open spec fn code_requests_from(s: Seq<EventV>, scan: CodeReqScan) -> Seq<CodeRequestV>
    decreases s.len(),
{
    if s.len() == 0 {
        Seq::empty()
    } else {
        match scan {
            CodeReqScan::Outside => match s[0] {
                EventV::Start(crate::events::ContainerV::CodeBlock { language }, _) =>
                    code_requests_from(
                    s.drop_first(),
                    CodeReqScan::Inside { language, text: Seq::empty() },
                ),
                _ => code_requests_from(s.drop_first(), CodeReqScan::Outside),
            },
            CodeReqScan::Inside { language, text } => match s[0] {
                EventV::Str(t) => code_requests_from(
                    s.drop_first(),
                    CodeReqScan::Inside { language, text: text + t },
                ),
                EventV::End(_) => seq![CodeRequestV { language, text }] + code_requests_from(
                    s.drop_first(),
                    CodeReqScan::Outside,
                ),
                _ => code_requests_from(s.drop_first(), CodeReqScan::Outside),
            },
        }
    }
}

/// The code spans of a whole stream, in order.
pub open spec fn code_requests_seq(s: Seq<EventV>) -> Seq<CodeRequestV> {
    code_requests_from(s, CodeReqScan::Outside)
}

/// Collect the code spans of an event sequence, in order: one request per
/// completed span, with the span's language token and concatenated
/// literal text.
pub fn code_requests(events: &Vec<Event>) -> (r: Vec<CodeRequest>)
    ensures
        code_request_views(r@) == code_requests_seq(event_views(events@)),
{
    let ghost full = event_views(events@);
    let mut out: Vec<CodeRequest> = Vec::new();
    let mut i: usize = 0;
    let mut in_span = false;
    let mut language = String::new();
    let mut text = String::new();
    proof {
        assert(full.skip(0) =~= full);
    }
    while i < events.len()
        invariant
            i <= events@.len(),
            full == event_views(events@),
            !in_span ==> text@ == Seq::<char>::empty(),
            code_request_views(out@) + code_requests_from(
                full.skip(i as int),
                if in_span {
                    CodeReqScan::Inside { language: language@, text: text@ }
                } else {
                    CodeReqScan::Outside
                },
            ) =~= code_requests_seq(full),
        decreases events@.len() - i,
    {
        proof {
            assert(full.skip(i as int)[0] == full[i as int]);
            assert(full[i as int] == events@[i as int]@);
            assert(full.skip(i as int).drop_first() =~= full.skip(i as int + 1));
        }
        let ghost scan0 = if in_span {
            CodeReqScan::Inside { language: language@, text: text@ }
        } else {
            CodeReqScan::Outside
        };
        let ghost rest0 = code_requests_from(full.skip(i as int), scan0);
        let e = &events[i];
        if in_span {
            match e {
                Event::Str(t) => {
                    let ghost text0 = text@;
                    text.append(t.as_str());
                    proof {
                        assert(rest0 == code_requests_from(
                            full.skip(i as int + 1),
                            CodeReqScan::Inside { language: language@, text: text0 + t@ },
                        ));
                    }
                }
                Event::End(_) => {
                    let ghost old_out = out@;
                    let ghost req = CodeRequestV { language: language@, text: text@ };
                    proof {
                        assert(rest0 == seq![req] + code_requests_from(
                            full.skip(i as int + 1),
                            CodeReqScan::Outside,
                        ));
                    }
                    let request = CodeRequest { language, text };
                    out.push(request);
                    language = String::new();
                    text = String::new();
                    in_span = false;
                    proof {
                        assert(code_request_views(out@) =~= code_request_views(old_out)
                            + seq![req]);
                    }
                }
                _ => {
                    language = String::new();
                    text = String::new();
                    in_span = false;
                    proof {
                        assert(rest0 == code_requests_from(
                            full.skip(i as int + 1),
                            CodeReqScan::Outside,
                        ));
                    }
                }
            }
        } else {
            match e {
                Event::Start(Container::CodeBlock { language: l }, _) => {
                    in_span = true;
                    language = l.clone();
                    proof {
                        assert(rest0 == code_requests_from(
                            full.skip(i as int + 1),
                            CodeReqScan::Inside { language: language@, text: Seq::empty() },
                        ));
                    }
                }
                _ => {
                    proof {
                        assert(rest0 == code_requests_from(
                            full.skip(i as int + 1),
                            CodeReqScan::Outside,
                        ));
                    }
                }
            }
        }
        i = i + 1;
    }
    proof {
        assert(full.skip(i as int) =~= Seq::<EventV>::empty());
        assert(code_request_views(out@) =~= code_requests_seq(full));
    }
    out
}

/// What the whole canonical pipeline does to a stream: demote headings,
/// render math, present math errors, highlight code, present highlighting
/// errors.
pub open spec fn pipeline_seq(
    s: Seq<EventV>,
    offset: u16,
    math: Seq<MathOutcomeV>,
    code: Seq<CodeOutcomeV>,
) -> Seq<EventV> {
    show_seq(code_seq(show_seq(math_seq(demote_seq(s, offset), math)), code))
}

/// Demote every heading of the document by `offset`.
pub fn demote(events: Vec<Event>, offset: u16) -> (out: Vec<Event>)
    ensures
        event_views(out@) == demote_seq(event_views(events@), offset),
{
    let source = EventCursor::new(events);
    let mut stage = DemoteHeadings::new(source, offset);
    drain(&mut stage)
}

/// Replace every math span with its supplied rendering, presenting
/// per-span failures as inline error blocks.
pub fn render_math(events: Vec<Event>, outcomes: Vec<MathOutcome>) -> (out: Vec<Event>)
    ensures
        event_views(out@) == show_seq(
            math_seq(event_views(events@), math_outcome_views(outcomes@)),
        ),
{
    let source = EventCursor::new(events);
    let stage = KatexMath::new(source, outcomes);
    let mut shown = ShowErrors::new(stage);
    drain(&mut shown)
}

/// Replace every code span with its supplied highlighting, passing
/// unsupported languages through unchanged and presenting per-span
/// failures as inline error blocks.
pub fn highlight_code(events: Vec<Event>, outcomes: Vec<CodeOutcome>) -> (out: Vec<Event>)
    ensures
        event_views(out@) == show_seq(
            code_seq(event_views(events@), code_outcome_views(outcomes@)),
        ),
{
    let source = EventCursor::new(events);
    let stage = InkjetCode::new(source, outcomes);
    let mut shown = ShowErrors::new(stage);
    drain(&mut shown)
}

/// Run the whole canonical pipeline over a document's events.  The call
/// is total: it terminates and produces a plain event stream for every
/// input, however malformed, with failures confined to their spans.
pub fn render_events(
    events: Vec<Event>,
    offset: u16,
    math: Vec<MathOutcome>,
    code: Vec<CodeOutcome>,
) -> (out: Vec<Event>)
    ensures
        event_views(out@) == pipeline_seq(
            event_views(events@),
            offset,
            math_outcome_views(math@),
            code_outcome_views(code@),
        ),
{
    let source = EventCursor::new(events);
    let demoted = DemoteHeadings::new(source, offset);
    let math_stage = KatexMath::new(demoted, math);
    let math_shown = ShowErrors::new(math_stage);
    let code_stage = InkjetCode::new(math_shown, code);
    let mut code_shown = ShowErrors::new(code_stage);
    drain(&mut code_shown)
}

} // verus!

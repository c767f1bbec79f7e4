//! Render code blocks to highlighted markup.
//!
//! The stage consumes each code span — a `Start(CodeBlock)` opener, its
//! literal text, and the closing `End` — and either replaces it with a raw
//! `html` block holding the highlighted markup wrapped in `<pre><code>`
//! tags, re-emits the span unchanged when its language is not supported,
//! or fails for just that span.  Highlightings are injected: the caller
//! collects the spans with [`crate::pipeline::code_requests`], highlights
//! each with whatever engine it has, and hands the outcomes to the stage
//! in span order; a span with no outcome passes through unchanged.

use vstd::prelude::*;
use vstd::string::StrSliceExecFns;
use vstd::string::StringExecFns;

use crate::events::{Container, ContainerV, Event, EventV};
use crate::stream::{ErrorText, EventSource, FallibleSource, ok_views};

verus! {

/// What the caller's highlighter produced for one code span, in span order.
#[derive(Debug, Clone, PartialEq, Eq)]
pub enum CodeOutcome {
    /// The span's language is not supported: re-emit the span unchanged.
    Passthrough,
    /// The highlighted markup; it replaces the span as a raw `html` block.
    Rendered(String),
    /// The highlighter rejected the span, with its error message.
    Failed(String),
}

/// The mathematical value of a [`CodeOutcome`].
pub enum CodeOutcomeV {
    Passthrough,
    Rendered(Seq<char>),
    Failed(Seq<char>),
}

impl View for CodeOutcome {
    type V = CodeOutcomeV;

    open spec fn view(&self) -> CodeOutcomeV {
        match self {
            CodeOutcome::Passthrough => CodeOutcomeV::Passthrough,
            CodeOutcome::Rendered(s) => CodeOutcomeV::Rendered(s@),
            CodeOutcome::Failed(s) => CodeOutcomeV::Failed(s@),
        }
    }
}

/// The values of a sequence of outcomes.
pub open spec fn code_outcome_views(s: Seq<CodeOutcome>) -> Seq<CodeOutcomeV> {
    Seq::new(s.len(), |i: int| s[i]@)
}

/// Error produced by [`InkjetCode`].
#[derive(Debug, Clone, PartialEq, Eq)]
pub enum InkjetCodeError {
    /// The highlighter rejected the span.
    Inkjet(String),
    /// Unexpected event in code block.
    Unexpected,
}

/// The message shown when a code span failed to highlight.
pub open spec fn code_failed_text(message: Seq<char>) -> Seq<char> {
    "failed to render code block with inkjet: "@ + message
}

/// The message shown for an unexpected event inside a code span.
pub open spec fn code_unexpected_text() -> Seq<char> {
    "unexpected event in code block"@
}

impl ErrorText for InkjetCodeError {
    open spec fn text_spec(&self) -> Seq<char> {
        match self {
            InkjetCodeError::Inkjet(m) => code_failed_text(m@),
            InkjetCodeError::Unexpected => code_unexpected_text(),
        }
    }

    fn text(&self) -> (s: String) {
        match self {
            InkjetCodeError::Inkjet(m) => String::from_str(
                "failed to render code block with inkjet: ",
            ).concat(m.as_str()),
            InkjetCodeError::Unexpected => String::from_str("unexpected event in code block"),
        }
    }
}

/// Highlighted markup wrapped for inclusion in the document.
pub open spec fn code_wrapped(html: Seq<char>) -> Seq<char> {
    "<pre><code>\n"@ + html + "\n</code></pre>"@
}

/// Where a scan of the stream stands relative to code spans: outside any
/// span, or inside one, carrying the opener's language and attributes and
/// the literal text collected so far.
pub enum CodeScan {
    Outside,
    Inside { language: Seq<char>, attrs: Seq<(Seq<char>, Seq<char>)>, text: Seq<char> },
}

/// The outcome used for the next code span: the supplied one, or a
/// pass-through when the caller supplied too few.
pub open spec fn code_outs_head(outs: Seq<CodeOutcomeV>) -> CodeOutcomeV {
    if outs.len() > 0 {
        outs[0]
    } else {
        CodeOutcomeV::Passthrough
    }
}

/// The outcomes left for later spans.
pub open spec fn code_outs_tail(outs: Seq<CodeOutcomeV>) -> Seq<CodeOutcomeV> {
    if outs.len() > 0 {
        outs.drop_first()
    } else {
        outs
    }
}

/// The replacement emitted for one completed code span: the original span
/// unchanged (with its collected text as a single run), a raw `html` block
/// holding the wrapped highlighting, or one error carrying the
/// highlighter's message.
pub open spec fn code_emit(
    o: CodeOutcomeV,
    language: Seq<char>,
    attrs: Seq<(Seq<char>, Seq<char>)>,
    text: Seq<char>,
) -> Seq<Result<EventV, Seq<char>>> {
    match o {
        CodeOutcomeV::Passthrough => seq![
            Ok(EventV::Start(ContainerV::CodeBlock { language }, attrs)),
            Ok(EventV::Str(text)),
            Ok(EventV::End(ContainerV::CodeBlock { language })),
        ],
        CodeOutcomeV::Rendered(html) => seq![
            Ok(EventV::Start(ContainerV::RawBlock { format: "html"@ }, attrs)),
            Ok(EventV::Str(code_wrapped(html))),
            Ok(EventV::End(ContainerV::RawBlock { format: "html"@ })),
        ],
        CodeOutcomeV::Failed(m) => seq![Err(code_failed_text(m))],
    }
}

/// What code highlighting does to a stream, starting in the given scan
/// state.  Outside a span events pass through until a code-block opener;
/// inside one, literal text is collected, the closing `End` triggers the
/// replacement, any other event is a malformed-span error, and a stream
/// that ends mid-span produces nothing further.
pub open spec fn code_seq_from(
    s: Seq<EventV>,
    outs: Seq<CodeOutcomeV>,
    scan: CodeScan,
) -> Seq<Result<EventV, Seq<char>>>
    decreases s.len(),
{
    if s.len() == 0 {
        Seq::empty()
    } else {
        match scan {
            CodeScan::Outside => match s[0] {
                EventV::Start(ContainerV::CodeBlock { language }, attrs) => code_seq_from(
                    s.drop_first(),
                    outs,
                    CodeScan::Inside { language, attrs, text: Seq::empty() },
                ),
                e => seq![Ok(e)] + code_seq_from(s.drop_first(), outs, CodeScan::Outside),
            },
            CodeScan::Inside { language, attrs, text } => match s[0] {
                EventV::Str(t) => code_seq_from(
                    s.drop_first(),
                    outs,
                    CodeScan::Inside { language, attrs, text: text + t },
                ),
                EventV::End(_) => code_emit(code_outs_head(outs), language, attrs, text)
                    + code_seq_from(s.drop_first(), code_outs_tail(outs), CodeScan::Outside),
                _ => seq![Err(code_unexpected_text())] + code_seq_from(
                    s.drop_first(),
                    outs,
                    CodeScan::Outside,
                ),
            },
        }
    }
}

/// What code highlighting does to a whole stream.
pub open spec fn code_seq(s: Seq<EventV>, outs: Seq<CodeOutcomeV>) -> Seq<
    Result<EventV, Seq<char>>,
> {
    code_seq_from(s, outs, CodeScan::Outside)
}

/// A run of literal-text events, one per text.
pub open spec fn str_events(texts: Seq<Seq<char>>) -> Seq<EventV> {
    Seq::new(texts.len(), |i: int| EventV::Str(texts[i]))
}

/// The concatenation of a run of texts.
pub open spec fn concat_texts(texts: Seq<Seq<char>>) -> Seq<char>
    decreases texts.len(),
{
    if texts.len() == 0 {
        Seq::empty()
    } else {
        texts[0] + concat_texts(texts.drop_first())
    }
}

proof fn lemma_code_span_collect(
    language: Seq<char>,
    attrs: Seq<(Seq<char>, Seq<char>)>,
    acc: Seq<char>,
    texts: Seq<Seq<char>>,
    closer: ContainerV,
    rest: Seq<EventV>,
    outs: Seq<CodeOutcomeV>,
)
    ensures
        code_seq_from(
            str_events(texts) + seq![EventV::End(closer)] + rest,
            outs,
            CodeScan::Inside { language, attrs, text: acc },
        ) == code_emit(code_outs_head(outs), language, attrs, acc + concat_texts(texts))
            + code_seq_from(rest, code_outs_tail(outs), CodeScan::Outside),
    decreases texts.len(),
{
    let s = str_events(texts) + seq![EventV::End(closer)] + rest;
    if texts.len() == 0 {
        assert(s[0] == EventV::End(closer));
        assert(s.drop_first() =~= rest);
        assert(acc + concat_texts(texts) =~= acc);
    } else {
        assert(s[0] == EventV::Str(texts[0]));
        assert(s.drop_first() =~= str_events(texts.drop_first()) + seq![EventV::End(closer)]
            + rest);
        lemma_code_span_collect(
            language,
            attrs,
            acc + texts[0],
            texts.drop_first(),
            closer,
            rest,
            outs,
        );
        assert(acc + texts[0] + concat_texts(texts.drop_first()) =~= acc + concat_texts(texts));
    }
}

/// An unsupported-language code block passes through unchanged: when the
/// outcome for a code span is a pass-through (or no outcome is supplied),
/// the stage re-emits the span with the original language token and
/// attributes preserved and with its literal text byte-identical — the
/// concatenation of the span's text runs — and then continues with the
/// rest of the stream.
pub proof fn lemma_code_passthrough(
    language: Seq<char>,
    attrs: Seq<(Seq<char>, Seq<char>)>,
    texts: Seq<Seq<char>>,
    closer: ContainerV,
    rest: Seq<EventV>,
    outs: Seq<CodeOutcomeV>,
)
    requires
        code_outs_head(outs) == CodeOutcomeV::Passthrough,
    ensures
        code_seq(
            seq![EventV::Start(ContainerV::CodeBlock { language }, attrs)] + str_events(texts)
                + seq![EventV::End(closer)] + rest,
            outs,
        ) == seq![
            Ok::<EventV, Seq<char>>(EventV::Start(ContainerV::CodeBlock { language }, attrs)),
            Ok(EventV::Str(concat_texts(texts))),
            Ok(EventV::End(ContainerV::CodeBlock { language })),
        ] + code_seq_from(rest, code_outs_tail(outs), CodeScan::Outside),
{
    let s = seq![EventV::Start(ContainerV::CodeBlock { language }, attrs)] + str_events(texts)
        + seq![EventV::End(closer)] + rest;
    assert(s[0] == EventV::Start(ContainerV::CodeBlock { language }, attrs));
    assert(s.drop_first() =~= str_events(texts) + seq![EventV::End(closer)] + rest);
    lemma_code_span_collect(language, attrs, Seq::empty(), texts, closer, rest, outs);
    assert(Seq::<char>::empty() + concat_texts(texts) =~= concat_texts(texts));
}

/// The stage that highlights code blocks, pulling from an upstream source.
pub struct InkjetCode<I> {
    inner: I,
    outcomes: Vec<CodeOutcome>,
    buffer: Vec<Event>,
}

impl<I: EventSource> InkjetCode<I> {
    /// Chain a code-highlighting stage onto `inner`, with one outcome per
    /// code span of the upstream, in span order.
    pub fn new(inner: I, outcomes: Vec<CodeOutcome>) -> (r: Self)
        ensures
            r.future() == code_seq(inner.future(), code_outcome_views(outcomes@)),
    {
        let r = Self { inner, outcomes, buffer: Vec::new() };
        proof {
            assert(r.future() =~= code_seq(r.inner_future(), code_outcome_views(r.outcomes_view())));
        }
        r
    }

    /// The upstream's remaining events (spec-level helper).
    closed spec fn inner_future(&self) -> Seq<EventV> {
        self.inner.future()
    }

    /// The outcomes not yet consumed (spec-level helper).
    closed spec fn outcomes_view(&self) -> Seq<CodeOutcome> {
        self.outcomes@
    }
}

impl<I: EventSource> FallibleSource for InkjetCode<I> {
    type Error = InkjetCodeError;

    closed spec fn future(&self) -> Seq<Result<EventV, Seq<char>>> {
        ok_views(self.buffer@.reverse()) + code_seq(
            self.inner.future(),
            code_outcome_views(self.outcomes@),
        )
    }

    fn next(&mut self) -> (r: Option<Result<Event, InkjetCodeError>>) {
        if let Some(event) = self.buffer.pop() {
            proof {
                assert(old(self).future()[0] == Ok::<EventV, Seq<char>>(event@));
                assert(self.buffer@.reverse() =~= old(self).buffer@.reverse().drop_first());
                assert(self.future() =~= old(self).future().drop_first());
            }
            return Some(Ok(event));
        }
        let e = match self.inner.next() {
            None => {
                proof {
                    assert(self.future() =~= old(self).future());
                }
                return None;
            }
            Some(e) => e,
        };
        let ghost outs = code_outcome_views(self.outcomes@);
        let (language, attributes) = match e {
            Event::Start(Container::CodeBlock { language }, attributes) => (language, attributes),
            event => {
                proof {
                    assert(old(self).future() =~= seq![Ok::<EventV, Seq<char>>(event@)]
                        + code_seq_from(self.inner.future(), outs, CodeScan::Outside));
                    assert(self.future() =~= old(self).future().drop_first());
                }
                return Some(Ok(event));
            }
        };
        let ghost lang = language@;
        let ghost attrs = attributes@;
        let ghost t0 = old(self).future();
        let mut code = String::new();
        proof {
            assert(t0 =~= code_seq_from(
                self.inner.future(),
                outs,
                CodeScan::Inside { language: lang, attrs, text: code@ },
            ));
        }
        loop
            invariant
                self.buffer@.len() == 0,
                outs == code_outcome_views(self.outcomes@),
                language@ == lang,
                attributes@ == attrs,
                t0 == old(self).future(),
                t0 =~= code_seq_from(
                    self.inner.future(),
                    outs,
                    CodeScan::Inside { language: lang, attrs, text: code@ },
                ),
            decreases self.inner.future().len(),
        {
            match self.inner.next() {
                None => {
                    proof {
                        assert(old(self).future().len() == 0);
                        assert(self.future() =~= old(self).future());
                    }
                    return None;
                }
                Some(event) => match event {
                    Event::Str(t) => {
                        code.append(t.as_str());
                    },
                    Event::End(_) => {
                        let ghost text = code@;
                        proof {
                            assert(t0 =~= code_emit(code_outs_head(outs), lang, attrs, text)
                                + code_seq_from(
                                self.inner.future(),
                                code_outs_tail(outs),
                                CodeScan::Outside,
                            ));
                        }
                        let supplied: Option<CodeOutcome> = if self.outcomes.len() > 0 {
                            Some(self.outcomes.remove(0))
                        } else {
                            None
                        };
                        proof {
                            assert(code_outcome_views(self.outcomes@) =~= code_outs_tail(outs));
                        }
                        match supplied {
                            Some(CodeOutcome::Rendered(html)) => {
                                proof {
                                    assert(code_outs_head(outs) == CodeOutcomeV::Rendered(html@));
                                }
                                let wrapped = String::from_str("<pre><code>\n").concat(
                                    html.as_str(),
                                ).concat("\n</code></pre>");
                                proof {
                                    assert(wrapped@ == code_wrapped(html@));
                                }
                                self.buffer.push(
                                    Event::End(
                                        Container::RawBlock {
                                            format: String::from_str("html"),
                                        },
                                    ),
                                );
                                self.buffer.push(Event::Str(wrapped));
                                proof {
                                    assert(self.future() =~= old(self).future().drop_first());
                                }
                                let opener = Event::Start(
                                    Container::RawBlock { format: String::from_str("html") },
                                    attributes,
                                );
                                proof {
                                    assert(opener@ == EventV::Start(
                                        ContainerV::RawBlock { format: "html"@ },
                                        attrs,
                                    ));
                                }
                                return Some(Ok(opener));
                            }
                            Some(CodeOutcome::Failed(message)) => {
                                proof {
                                    assert(self.future() =~= old(self).future().drop_first());
                                }
                                return Some(Err(InkjetCodeError::Inkjet(message)));
                            }
                            _ => {
                                // Pass the span through unchanged: no
                                // outcome and an explicit pass-through are
                                // treated alike.
                                proof {
                                    assert(code_outs_head(outs) == CodeOutcomeV::Passthrough);
                                }
                                let closer_language = language.clone();
                                self.buffer.push(
                                    Event::End(Container::CodeBlock { language: closer_language }),
                                );
                                self.buffer.push(Event::Str(code));
                                proof {
                                    assert(self.future() =~= old(self).future().drop_first());
                                }
                                let opener = Event::Start(
                                    Container::CodeBlock { language },
                                    attributes,
                                );
                                proof {
                                    assert(opener@ == EventV::Start(
                                        ContainerV::CodeBlock { language: lang },
                                        attrs,
                                    ));
                                }
                                return Some(Ok(opener));
                            }
                        }
                    },
                    _ => {
                        proof {
                            assert(t0 =~= seq![Err::<EventV, Seq<char>>(code_unexpected_text())]
                                + code_seq_from(self.inner.future(), outs, CodeScan::Outside));
                            assert(self.future() =~= old(self).future().drop_first());
                        }
                        return Some(Err(InkjetCodeError::Unexpected));
                    },
                },
            }
        }
    }
}

} // verus!

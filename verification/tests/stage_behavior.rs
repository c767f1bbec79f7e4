use scribe::events::{Attributes, Container, Event};
use scribe::inkjet::CodeOutcome;
use scribe::katex::MathOutcome;
use scribe::pipeline::{demote, highlight_code, render_math};

fn attrs() -> Attributes {
    Attributes::new()
}

fn kv(pairs: &[(&str, &str)]) -> Attributes {
    Attributes { pairs: pairs.iter().map(|(k, v)| (k.to_string(), v.to_string())).collect() }
}

fn s(text: &str) -> Event {
    Event::Str(text.to_string())
}

fn heading(level: u16) -> Container {
    Container::Heading { level, has_section: true, id: "h".to_string() }
}

#[test]
fn demote_raises_heading_levels() {
    let events = vec![
        Event::Start(heading(2), attrs()),
        s("title"),
        Event::End(heading(2)),
        s("prose"),
    ];
    let out = demote(events, 1);
    assert_eq!(
        out,
        vec![
            Event::Start(heading(3), attrs()),
            s("title"),
            Event::End(heading(3)),
            s("prose"),
        ]
    );
}

#[test]
fn demote_saturates_at_the_maximum_level() {
    let events = vec![Event::Start(heading(2), attrs()), Event::End(heading(2))];
    let out = demote(events, u16::MAX);
    assert_eq!(
        out,
        vec![Event::Start(heading(u16::MAX), attrs()), Event::End(heading(u16::MAX))]
    );

    let events = vec![Event::Start(heading(u16::MAX - 1), attrs())];
    let out = demote(events, 5);
    assert_eq!(out, vec![Event::Start(heading(u16::MAX), attrs())]);
}

#[test]
fn demote_leaves_non_heading_events_untouched() {
    let events = vec![
        Event::Start(Container::CodeBlock { language: "rust".to_string() }, attrs()),
        s("x"),
        Event::End(Container::CodeBlock { language: "rust".to_string() }),
        Event::Other { key: 17 },
    ];
    let out = demote(events.clone(), 3);
    assert_eq!(out, events);
}

#[test]
fn math_span_is_replaced_by_its_rendering() {
    let events = vec![
        Event::Start(Container::Math { display: true }, kv(&[("k", "v")])),
        s("x^2"),
        Event::End(Container::Math { display: true }),
    ];
    let out = render_math(events, vec![MathOutcome::Rendered("<mrow>x</mrow>".to_string())]);
    assert_eq!(
        out,
        vec![
            Event::Start(Container::RawBlock { format: "html".to_string() }, kv(&[("k", "v")])),
            s("<mrow>x</mrow>"),
            Event::End(Container::RawBlock { format: "html".to_string() }),
        ]
    );
}

#[test]
fn failed_math_becomes_an_error_block() {
    let events = vec![
        Event::Start(Container::Math { display: true }, attrs()),
        s("$$x^2$$"),
        Event::End(Container::Math { display: true }),
    ];
    let out = render_math(events, vec![MathOutcome::Failed("renderer unreachable".to_string())]);
    assert_eq!(
        out,
        vec![
            Event::Start(Container::Div { class: "error".to_string() }, attrs()),
            s("failed to render katex math: renderer unreachable"),
            Event::End(Container::Div { class: "error".to_string() }),
        ]
    );
}

#[test]
fn math_span_without_an_outcome_becomes_an_error_block() {
    let events = vec![
        Event::Start(Container::Math { display: false }, attrs()),
        s("1+1"),
        Event::End(Container::Math { display: false }),
    ];
    let out = render_math(events, vec![]);
    assert_eq!(
        out,
        vec![
            Event::Start(Container::Div { class: "error".to_string() }, attrs()),
            s("failed to render katex math: no rendering was supplied for this math span"),
            Event::End(Container::Div { class: "error".to_string() }),
        ]
    );
}

#[test]
fn unexpected_event_in_math_span_is_a_malformed_span_error() {
    let events = vec![
        Event::Start(Container::Math { display: false }, attrs()),
        s("a"),
        Event::Other { key: 3 },
        s("b"),
        Event::End(Container::Math { display: false }),
    ];
    let out = render_math(events, vec![]);
    assert_eq!(
        out,
        vec![
            Event::Start(Container::Div { class: "error".to_string() }, attrs()),
            s("unexpected event in math block"),
            Event::End(Container::Div { class: "error".to_string() }),
            s("b"),
            Event::End(Container::Math { display: false }),
        ]
    );
}

#[test]
fn math_stage_is_deterministic() {
    let make = || {
        vec![
            s("before"),
            Event::Start(Container::Math { display: true }, attrs()),
            s("e=mc^2"),
            Event::End(Container::Math { display: true }),
            s("after"),
        ]
    };
    let outcomes = || vec![MathOutcome::Rendered("<mi>E</mi>".to_string())];
    let first = render_math(make(), outcomes());
    let second = render_math(make(), outcomes());
    assert_eq!(first, second);
}

#[test]
fn unsupported_language_code_block_passes_through() {
    let events = vec![
        Event::Start(Container::CodeBlock { language: "foobar123".to_string() }, attrs()),
        s("a+b"),
        Event::End(Container::CodeBlock { language: "foobar123".to_string() }),
    ];
    let out = highlight_code(events.clone(), vec![CodeOutcome::Passthrough]);
    assert_eq!(out, events);
}

#[test]
fn code_block_without_an_outcome_passes_through() {
    let events = vec![
        Event::Start(Container::CodeBlock { language: "brainstorm".to_string() }, attrs()),
        s("notes"),
        Event::End(Container::CodeBlock { language: "brainstorm".to_string() }),
    ];
    let out = highlight_code(events.clone(), vec![]);
    assert_eq!(out, events);
}

#[test]
fn passthrough_joins_split_text_runs() {
    let events = vec![
        Event::Start(Container::CodeBlock { language: "mystery".to_string() }, attrs()),
        s("a"),
        s("b"),
        s("c"),
        Event::End(Container::CodeBlock { language: "mystery".to_string() }),
    ];
    let out = highlight_code(events, vec![CodeOutcome::Passthrough]);
    assert_eq!(
        out,
        vec![
            Event::Start(Container::CodeBlock { language: "mystery".to_string() }, attrs()),
            s("abc"),
            Event::End(Container::CodeBlock { language: "mystery".to_string() }),
        ]
    );
}

#[test]
fn highlighted_code_is_wrapped_in_pre_and_code_tags() {
    let events = vec![
        Event::Start(Container::CodeBlock { language: "rust".to_string() }, attrs()),
        s("let x = 1;"),
        Event::End(Container::CodeBlock { language: "rust".to_string() }),
    ];
    let out = highlight_code(
        events,
        vec![CodeOutcome::Rendered("<span>let</span> x = 1;".to_string())],
    );
    assert_eq!(
        out,
        vec![
            Event::Start(Container::RawBlock { format: "html".to_string() }, attrs()),
            s("<pre><code>\n<span>let</span> x = 1;\n</code></pre>"),
            Event::End(Container::RawBlock { format: "html".to_string() }),
        ]
    );
}

#[test]
fn failed_highlighting_becomes_an_error_block() {
    let events = vec![
        Event::Start(Container::CodeBlock { language: "rust".to_string() }, attrs()),
        s("let"),
        Event::End(Container::CodeBlock { language: "rust".to_string() }),
    ];
    let out = highlight_code(events, vec![CodeOutcome::Failed("grammar crashed".to_string())]);
    assert_eq!(
        out,
        vec![
            Event::Start(Container::Div { class: "error".to_string() }, attrs()),
            s("failed to render code block with inkjet: grammar crashed"),
            Event::End(Container::Div { class: "error".to_string() }),
        ]
    );
}

#[test]
fn streams_without_spans_pass_both_stages_unchanged() {
    let events = vec![
        s("plain"),
        Event::Other { key: 1 },
        Event::Start(Container::Div { class: "aside".to_string() }, attrs()),
        s("inner"),
        Event::End(Container::Div { class: "aside".to_string() }),
    ];
    assert_eq!(render_math(events.clone(), vec![]), events);
    assert_eq!(highlight_code(events.clone(), vec![]), events);
}

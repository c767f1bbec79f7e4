use scribe::events::{Attributes, Container, Event};
use scribe::inkjet::CodeOutcome;
use scribe::katex::MathOutcome;
use scribe::pipeline::{code_requests, math_requests, render_events};
use scribe::stream::{EventCursor, EventSource};

fn attrs() -> Attributes {
    Attributes::new()
}

fn s(text: &str) -> Event {
    Event::Str(text.to_string())
}

fn math(display: bool) -> Container {
    Container::Math { display }
}

fn code(language: &str) -> Container {
    Container::CodeBlock { language: language.to_string() }
}

fn error_div() -> Container {
    Container::Div { class: "error".to_string() }
}

#[test]
fn full_pipeline_renders_a_balanced_document() {
    let events = vec![
        Event::Start(Container::Heading { level: 1, has_section: true, id: "t".to_string() }, attrs()),
        s("Title"),
        Event::End(Container::Heading { level: 1, has_section: true, id: "t".to_string() }),
        s("Some prose."),
        Event::Start(math(true), attrs()),
        s("x^2"),
        Event::End(math(true)),
        Event::Start(code("pseudocode"), attrs()),
        s("do nothing"),
        Event::End(code("pseudocode")),
    ];
    let out = render_events(
        events,
        1,
        vec![MathOutcome::Rendered("<mi>x</mi>".to_string())],
        vec![CodeOutcome::Passthrough],
    );
    assert_eq!(
        out,
        vec![
            Event::Start(
                Container::Heading { level: 2, has_section: true, id: "t".to_string() },
                attrs(),
            ),
            s("Title"),
            Event::End(Container::Heading { level: 2, has_section: true, id: "t".to_string() }),
            s("Some prose."),
            Event::Start(Container::RawBlock { format: "html".to_string() }, attrs()),
            s("<mi>x</mi>"),
            Event::End(Container::RawBlock { format: "html".to_string() }),
            Event::Start(code("pseudocode"), attrs()),
            s("do nothing"),
            Event::End(code("pseudocode")),
        ]
    );
}

#[test]
fn one_malformed_span_leaves_the_other_spans_rendered_in_order() {
    let events = vec![
        Event::Start(math(true), attrs()),
        s("a"),
        Event::End(math(true)),
        Event::Start(math(false), attrs()),
        Event::Other { key: 9 },
        Event::End(math(false)),
        Event::Start(code("foobar123"), attrs()),
        s("a+b"),
        Event::End(code("foobar123")),
    ];
    let out = render_events(
        events,
        1,
        vec![MathOutcome::Rendered("A".to_string())],
        vec![CodeOutcome::Passthrough],
    );
    assert_eq!(
        out,
        vec![
            Event::Start(Container::RawBlock { format: "html".to_string() }, attrs()),
            s("A"),
            Event::End(Container::RawBlock { format: "html".to_string() }),
            Event::Start(error_div(), attrs()),
            s("unexpected event in math block"),
            Event::End(error_div()),
            Event::End(math(false)),
            Event::Start(code("foobar123"), attrs()),
            s("a+b"),
            Event::End(code("foobar123")),
        ]
    );
    let error_openers = out
        .iter()
        .filter(|e| matches!(e, Event::Start(Container::Div { class }, _) if class == "error"))
        .count();
    assert_eq!(error_openers, 1);
}

#[test]
fn failing_renderer_yields_only_an_error_block_for_the_span() {
    let events = vec![
        Event::Start(math(true), attrs()),
        s("$$x^2$$"),
        Event::End(math(true)),
    ];
    let out = render_events(
        events,
        1,
        vec![MathOutcome::Failed("renderer stub is unreachable".to_string())],
        vec![],
    );
    assert_eq!(
        out,
        vec![
            Event::Start(error_div(), attrs()),
            s("failed to render katex math: renderer stub is unreachable"),
            Event::End(error_div()),
        ]
    );
}

#[test]
fn pipeline_is_deterministic_for_fixed_outcomes() {
    let make = || {
        vec![
            Event::Start(math(false), attrs()),
            s("1+1"),
            Event::End(math(false)),
            Event::Start(code("rust"), attrs()),
            s("fn f() {}"),
            Event::End(code("rust")),
        ]
    };
    let first = render_events(
        make(),
        1,
        vec![MathOutcome::Rendered("TWO".to_string())],
        vec![CodeOutcome::Rendered("<span>fn</span> f() {}".to_string())],
    );
    let second = render_events(
        make(),
        1,
        vec![MathOutcome::Rendered("TWO".to_string())],
        vec![CodeOutcome::Rendered("<span>fn</span> f() {}".to_string())],
    );
    assert_eq!(first, second);
}

#[test]
fn math_requests_lists_spans_in_order_with_joined_text() {
    let events = vec![
        s("intro"),
        Event::Start(math(true), attrs()),
        s("a"),
        s("b"),
        Event::End(math(true)),
        Event::Start(math(false), attrs()),
        s("c"),
        Event::End(math(false)),
    ];
    let requests = math_requests(&events);
    assert_eq!(requests.len(), 2);
    assert_eq!(requests[0].text, "ab");
    assert!(requests[0].display);
    assert_eq!(requests[1].text, "c");
    assert!(!requests[1].display);
}

#[test]
fn malformed_math_span_yields_no_request() {
    let events = vec![
        Event::Start(math(true), attrs()),
        Event::Other { key: 2 },
        Event::End(math(true)),
        Event::Start(math(false), attrs()),
        s("kept"),
        Event::End(math(false)),
    ];
    let requests = math_requests(&events);
    assert_eq!(requests.len(), 1);
    assert_eq!(requests[0].text, "kept");
}

#[test]
fn code_requests_lists_language_and_text() {
    let events = vec![
        Event::Start(code("rust"), attrs()),
        s("let x;"),
        Event::End(code("rust")),
        Event::Start(code(""), attrs()),
        s("plain"),
        Event::End(code("")),
    ];
    let requests = code_requests(&events);
    assert_eq!(requests.len(), 2);
    assert_eq!(requests[0].language, "rust");
    assert_eq!(requests[0].text, "let x;");
    assert_eq!(requests[1].language, "");
    assert_eq!(requests[1].text, "plain");
}

#[test]
fn cursor_replays_events_and_stays_exhausted() {
    let events = vec![s("one"), s("two")];
    let mut cursor = EventCursor::new(events);
    assert_eq!(cursor.next(), Some(s("one")));
    assert_eq!(cursor.next(), Some(s("two")));
    assert_eq!(cursor.next(), None);
    assert_eq!(cursor.next(), None);
}

#[test]
fn empty_document_renders_to_nothing() {
    let out = render_events(vec![], 1, vec![], vec![]);
    assert_eq!(out, vec![]);
}

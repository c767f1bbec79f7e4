use scribe::doc::split_source;
use scribe::frontmatter::split_frontmatter;

#[test]
fn frontmatter_is_split_from_the_body() {
    let (fm, body) = split_frontmatter("---\ntitle: x\n---\nbody text\n");
    assert_eq!(fm, Some("title: x"));
    assert_eq!(body, "body text\n");
}

#[test]
fn document_without_opening_fence_is_all_body() {
    let (fm, body) = split_frontmatter("hello\nworld\n");
    assert_eq!(fm, None);
    assert_eq!(body, "hello\nworld\n");
}

#[test]
fn unterminated_frontmatter_is_all_body() {
    let source = "---\ntitle: x\nno closing fence";
    let (fm, body) = split_frontmatter(source);
    assert_eq!(fm, None);
    assert_eq!(body, source);
}

#[test]
fn empty_frontmatter_block_is_split() {
    let (fm, body) = split_frontmatter("---\n\n---\nbody");
    assert_eq!(fm, Some(""));
    assert_eq!(body, "body");
}

#[test]
fn first_closing_fence_wins() {
    let (fm, body) = split_frontmatter("---\na\n---\nb\n---\nc");
    assert_eq!(fm, Some("a"));
    assert_eq!(body, "b\n---\nc");
}

#[test]
fn opening_fence_must_be_its_own_line() {
    let source = "--- \ntitle: x\n---\nbody";
    let (fm, body) = split_frontmatter(source);
    assert_eq!(fm, None);
    assert_eq!(body, source);
}

#[test]
fn fence_without_following_content_is_all_body() {
    let (fm, body) = split_frontmatter("---\n");
    assert_eq!(fm, None);
    assert_eq!(body, "---\n");
}

#[test]
fn multibyte_characters_survive_the_split() {
    let (fm, body) = split_frontmatter("---\ntitle: caf\u{e9}\n---\nb\u{f6}dy");
    assert_eq!(fm, Some("title: caf\u{e9}"));
    assert_eq!(body, "b\u{f6}dy");
}

#[test]
fn split_source_mirrors_the_frontmatter_split() {
    assert_eq!(split_source("---\na: 1\n---\nrest"), Some(("a: 1", "rest")));
    assert_eq!(split_source("no header"), None);
    assert_eq!(split_source("---\nunclosed"), None);
}

use scribe::cli::{BuildCommand, NewCommand, OutputFormat};
use scribe::config::{Config, NOTES_INPUT_DIR, NOTES_OUTPUT_DIR, TEMPLATES_DIR};
use scribe::doc::{Doc, DocError, Header, MathHeader};
use scribe::frontmatter::FrontmatterError;
use scribe::inkjet::InkjetCodeError;
use scribe::katex::KatexMathError;
use scribe::latex::LatexError;
use scribe::stream::ErrorText;
use scribe::templates::note_link;

#[test]
fn new_note_file_name_joins_date_name_and_extension() {
    let cmd = NewCommand { name: "idea".to_string(), no_editor: false };
    assert_eq!(cmd.note_file_name("2024-01-02"), "2024-01-02-idea.dj");
}

#[test]
fn build_command_succeeds_with_nothing_to_build() {
    let cmd = BuildCommand {};
    assert!(cmd.run().is_ok());
}

#[test]
fn only_html_output_is_supported() {
    assert!(OutputFormat::Html.is_supported());
    assert!(!OutputFormat::Latex.is_supported());
}

#[test]
fn note_links_point_into_the_notes_directory() {
    assert_eq!(note_link("2024-01-02-idea"), "/notes/2024-01-02-idea.html");
}

#[test]
fn default_header_is_empty() {
    let header = Header::default();
    assert!(header.content_type.is_none());
    assert_eq!(header.title, "");
    assert!(header.date.is_none());
    assert!(header.math.macros.is_empty());
    assert!(MathHeader::default().macros.is_empty());
}

#[test]
fn directory_constants_nest_outputs_under_dist() {
    assert_eq!(NOTES_INPUT_DIR, "notes/");
    assert_eq!(NOTES_OUTPUT_DIR, "dist/notes/");
    assert_eq!(TEMPLATES_DIR, "templates/");
    let _ = Config::default();
}

#[test]
fn math_error_messages_name_the_failure() {
    assert_eq!(
        KatexMathError::Katex("bad macro".to_string()).text(),
        "failed to render katex math: bad macro"
    );
    assert_eq!(KatexMathError::Unexpected.text(), "unexpected event in math block");
}

#[test]
fn code_error_messages_name_the_failure() {
    assert_eq!(
        InkjetCodeError::Inkjet("no grammar".to_string()).text(),
        "failed to render code block with inkjet: no grammar"
    );
    assert_eq!(InkjetCodeError::Unexpected.text(), "unexpected event in code block");
}

#[test]
fn latex_error_messages_name_the_tooling() {
    assert_eq!(
        LatexError::MissingTool("latex".to_string()).message(),
        "The CLI tool `latex` is missing in the $PATH."
    );
    assert_eq!(
        LatexError::CompileError { command: "dvisvgm".to_string(), stderr: "oops".to_string() }
            .message(),
        "Failed to run `dvisvgm`:\noops"
    );
    assert_eq!(LatexError::Other("io".to_string()).message(), "Error while compiling latex.");
}

#[test]
fn doc_error_message_names_the_frontmatter() {
    let err = DocError::DeserializeFrontmatter("line 3".to_string());
    assert_eq!(err.message(), "could not deserialize frontmatter");
    let err = FrontmatterError("bad yaml".to_string());
    assert_eq!(err.message(), "Error while parsing frontmatter.");
}

#[test]
fn a_document_pairs_its_header_with_its_body() {
    let doc = Doc { header: Header::default(), body: "the body" };
    assert_eq!(doc.body, "the body");
    assert_eq!(doc.header.title, "");
}

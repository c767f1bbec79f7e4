//! Errors of the LaTeX-to-SVG conversion.
//!
//! The conversion itself shells out to the `latex` and `dvisvgm` tools
//! and lives with the caller; these are the failures it reports.

use vstd::prelude::*;
use vstd::string::StrSliceExecFns;
use vstd::string::StringExecFns;

verus! {

/// Error produced while converting LaTeX to SVG.
#[derive(Debug, Clone)]
pub enum LatexError {
    /// A required command-line tool is not on the `$PATH`.
    MissingTool(String),
    /// A tool ran and failed; carries the tool's name and what it wrote
    /// to its error stream.
    CompileError { command: String, stderr: String },
    /// Any other failure, with its message.
    Other(String),
}

impl LatexError {
    /// The message this error displays as.
    pub open spec fn message_spec(&self) -> Seq<char> {
        match self {
            LatexError::MissingTool(tool) => "The CLI tool `"@ + tool@
                + "` is missing in the $PATH."@,
            LatexError::CompileError { command, stderr } => "Failed to run `"@ + command@
                + "`:\n"@ + stderr@,
            LatexError::Other(_) => "Error while compiling latex."@,
        }
    }

    /// Produce the display message.
    pub fn message(&self) -> (s: String)
        ensures
            s@ == self.message_spec(),
    {
        match self {
            LatexError::MissingTool(tool) => String::from_str("The CLI tool `").concat(
                tool.as_str(),
            ).concat("` is missing in the $PATH."),
            LatexError::CompileError { command, stderr } => String::from_str("Failed to run `")
                .concat(command.as_str()).concat("`:\n").concat(stderr.as_str()),
            LatexError::Other(_) => String::from_str("Error while compiling latex."),
        }
    }
}

} // verus!

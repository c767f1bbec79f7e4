//! The command vocabulary of the tools built around the library, and the
//! small decisions they delegate to it.
//!
//! Argument parsing, the file system and the editor live with the caller;
//! here are the bare command data and the pure computations they need.

use vstd::prelude::*;
use vstd::string::StrSliceExecFns;
use vstd::string::StringExecFns;

verus! {

/// The output format of a render.
#[derive(Debug, Clone, PartialEq, Eq, Structural)]
pub enum OutputFormat {
    Html,
    Latex,
}

impl OutputFormat {
    /// Whether the renderer supports this output format.
    pub fn is_supported(&self) -> (b: bool)
        ensures
            b == (*self == OutputFormat::Html),
    {
        match self {
            OutputFormat::Html => true,
            OutputFormat::Latex => false,
        }
    }
}

/// Build the notes.
#[derive(Debug, Clone)]
pub struct BuildCommand {}

impl BuildCommand {
    /// Build the notes.  The walking of the notes directory lives with
    /// the caller; with nothing to walk, the command succeeds.
    pub fn run(self) -> (r: Result<(), String>)
        ensures
            r is Ok,
    {
        Ok(())
    }
}

/// Create a new note.
#[derive(Debug, Clone)]
pub struct NewCommand {
    /// The name of the note to create.
    pub name: String,
    /// Do not open the note in the editor.
    pub no_editor: bool,
}

impl NewCommand {
    /// The file name under which the new note is stored: the date, the
    /// note's name, and the `dj` extension.
    pub fn note_file_name(&self, date: &str) -> (r: String)
        ensures
            r@ == date@ + "-"@ + self.name@ + ".dj"@,
    {
        date.to_owned().concat("-").concat(self.name.as_str()).concat(".dj")
    }
}

/// The note subcommands.
#[derive(Debug, Clone)]
pub enum Command {
    /// Build the notes.
    Build(BuildCommand),
    /// Create a new note.
    New(NewCommand),
}

/// The subcommands of the notes site builder.
#[derive(Debug, Clone)]
pub enum Commands {
    /// Build the notes.
    Build {},
    /// Watch for changes and rebuild.
    Watch {},
    /// Watch and serve the notes over HTTP.
    Serve {},
    /// Clean build artifacts.
    Clean {},
    /// Create a new note.
    New(NewCommand),
}

} // verus!

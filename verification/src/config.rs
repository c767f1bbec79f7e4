//! Notes configuration and the fixed directory layout.

use vstd::prelude::*;

verus! {

/// Where note templates live.
pub const TEMPLATES_DIR: &'static str = "templates/";

/// Where note sources are read from.
pub const NOTES_INPUT_DIR: &'static str = "notes/";

/// Where rendered notes are written.
pub const NOTES_OUTPUT_DIR: &'static str = "dist/notes/";

/// The root of the built site.
pub const DIST_DIR: &'static str = "dist/";

/// Where static assets are copied from.
pub const ASSETS_DIR: &'static str = "assets/";

/// Notes configuration.
#[derive(Debug, Clone)]
pub struct Config {}

impl Default for Config {
    /// The configuration used when no configuration file is present.
    fn default() -> (r: Self)
        ensures
            r == (Config {  }),
    {
        Config {  }
    }
}

} // verus!

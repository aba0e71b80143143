//! The configuration: the ordered list of target files and the name of
//! the active theme. It is read once at startup and never changes during
//! a run.

use vstd::prelude::*;

verus! {

/// The configuration document: which files to rewrite, in order, and
/// which theme to apply to them.
#[derive(Debug)]
pub struct Config {
    /// The target files, rewritten one by one in this order.
    pub files: Vec<String>,
    /// The name of the theme, looked up under the configuration
    /// directory's `themes` subdirectory when no explicit theme path is
    /// given.
    pub theme_name: String,
}

impl Config {
    /// Builds a configuration from its two parts.
    pub fn new(files: Vec<String>, theme_name: String) -> (c: Config)
        ensures
            c.files == files,
            c.theme_name == theme_name,
    {
        Config { files, theme_name }
    }
}

impl Default for Config {
    /// The empty configuration that first-run scaffolding writes out: no
    /// target files and an empty theme name.
    fn default() -> (c: Config)
        ensures
            c.files@ == Seq::<String>::empty(),
            c.theme_name@ == Seq::<char>::empty(),
    {
        Config { files: Vec::new(), theme_name: String::new() }
    }
}

} // verus!

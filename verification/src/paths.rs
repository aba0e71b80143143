//! Pure path computation: where the tool's configuration directory,
//! configuration file and theme files live, derived from the two
//! environment values the binary hands in.

use vstd::prelude::*;
use vstd::string::StringExecFns;
use crate::errors::ToolError;

verus! {

/// The configuration directory: `<config home>/configtool` when a config
/// home is set, else `<home>/.config/configtool`, else nothing.
pub open spec fn config_dir_spec(xdg: Option<Seq<char>>, home: Option<Seq<char>>) -> Option<
    Seq<char>,
> {
    match xdg {
        Option::Some(x) => Option::Some(x + "/configtool"@),
        Option::None => match home {
            Option::Some(h) => Option::Some(h + "/.config/configtool"@),
            Option::None => Option::None,
        },
    }
}

/// Resolves the tool's configuration directory from the config-home and
/// home environment values; fails only when neither is present.
pub fn resolve_config_dir(xdg: Option<String>, home: Option<String>) -> (r: Result<
    String,
    ToolError,
>)
    ensures
        match r {
            Result::Ok(d) => {
                &&& xdg is Some ==> d@ == xdg.unwrap()@ + "/configtool"@
                &&& xdg is None && home is Some ==> d@ == home.unwrap()@ + "/.config/configtool"@
                &&& xdg is Some || home is Some
            },
            Result::Err(e) => e == ToolError::MissingHome && xdg is None && home is None,
        },
{
    match xdg {
        Option::Some(x) => Result::Ok(x.concat("/configtool")),
        Option::None => match home {
            Option::Some(h) => Result::Ok(h.concat("/.config/configtool")),
            Option::None => Result::Err(ToolError::MissingHome),
        },
    }
}

/// The default configuration file inside the configuration directory.
pub fn config_file_path(dir: &str) -> (r: String)
    ensures
        r@ == dir@ + "/config.json"@,
{
    dir.to_owned().concat("/config.json")
}

/// The file a named theme lives in, under the configuration directory's
/// `themes` subdirectory. The name is spliced in as it stands: nothing
/// checks it for emptiness or path traversal.
pub fn theme_file_path(dir: &str, name: &str) -> (r: String)
    ensures
        r@ == dir@ + "/themes/"@ + name@,
{
    dir.to_owned().concat("/themes/").concat(name)
}

/// The `themes` subdirectory itself, which first-run scaffolding
/// creates.
pub fn themes_dir_path(dir: &str) -> (r: String)
    ensures
        r@ == dir@ + "/themes"@,
{
    dir.to_owned().concat("/themes")
}

} // verus!

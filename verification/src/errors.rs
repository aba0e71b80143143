//! Every failure is fatal: the run stops at the first error, and the
//! binary prints one message to standard error and exits nonzero. The
//! variants follow the places a run can fail, in the order a run
//! reaches them.

use vstd::prelude::*;
use vstd::string::StringExecFns;

verus! {

/// The ways a run can fail. Variants that carry a `String` hold either
/// the path of the file that could not be handled or the parser's own
/// message, so the report names what went wrong.
#[derive(Debug, PartialEq, Eq)]
pub enum ToolError {
    /// Neither of the two environment values that locate the
    /// configuration directory was available.
    MissingHome,
    /// An explicitly given configuration path could not be read.
    ConfigMissing,
    /// The configuration file was read but is not a valid configuration
    /// document; carries the parser's message.
    ConfigParse(String),
    /// The theme file at the carried path could not be read.
    ThemeRead(String),
    /// The theme file was read but is not a flat JSON object of string
    /// keys and string values; carries the parser's message.
    ThemeParse(String),
    /// The target file at the carried path could not be read as text.
    TargetRead(String),
    /// The target file at the carried path could not be written back.
    TargetWrite(String),
}

impl ToolError {
    /// The diagnostic line the binary prints for this failure.
    pub open spec fn message_spec(self) -> Seq<char> {
        match self {
            ToolError::MissingHome => "$XDG_CONFIG_HOME or $HOME must be defined"@,
            ToolError::ConfigMissing => "manually specified config path doesn't exist"@,
            ToolError::ConfigParse(m) => "error parsing config file: "@ + m@,
            ToolError::ThemeRead(p) => "theme file read failed: "@ + p@,
            ToolError::ThemeParse(m) => "error parsing theme file: "@ + m@,
            ToolError::TargetRead(p) => "failed to read target file: "@ + p@,
            ToolError::TargetWrite(p) => "failed to write target file: "@ + p@,
        }
    }

    /// Renders the diagnostic message.
    pub fn message(&self) -> (r: String)
        ensures
            r@ == self.message_spec(),
    {
        match self {
            ToolError::MissingHome => "$XDG_CONFIG_HOME or $HOME must be defined".to_owned(),
            ToolError::ConfigMissing => "manually specified config path doesn't exist".to_owned(),
            ToolError::ConfigParse(m) => "error parsing config file: ".to_owned().concat(
                m.as_str(),
            ),
            ToolError::ThemeRead(p) => "theme file read failed: ".to_owned().concat(p.as_str()),
            ToolError::ThemeParse(m) => "error parsing theme file: ".to_owned().concat(m.as_str()),
            ToolError::TargetRead(p) => "failed to read target file: ".to_owned().concat(
                p.as_str(),
            ),
            ToolError::TargetWrite(p) => "failed to write target file: ".to_owned().concat(
                p.as_str(),
            ),
        }
    }
}

} // verus!

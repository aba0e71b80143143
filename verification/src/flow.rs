//! One run of the tool as a step machine. The library decides, the
//! binary performs: each step hands back an [`Action`] naming the one
//! piece of outside work to do next (read this file, write these bytes,
//! scaffold, stop), and the binary reports what came of it through the
//! outcome argument of the next step. Every decision the tool makes —
//! where to look for the configuration, when to scaffold instead of
//! failing, when a run is over, what to write into each target file —
//! stands here with a contract; the binary is a loop of plain reads and
//! writes.

use vstd::prelude::*;
use crate::config::Config;
use crate::errors::ToolError;
use crate::paths;
use crate::subst;
use crate::theme::{distinct_keys, map_of_pairs, parsed_theme, Theme};

verus! {

/// The one piece of outside work the binary must do next.
#[derive(Debug)]
pub enum Action {
    /// Read and parse the configuration file at this path.
    ReadConfig(String),
    /// First run: create this configuration directory and its `themes`
    /// subdirectory, write the default configuration file, and stop
    /// without touching any target file.
    Scaffold(String),
    /// Read the raw bytes of the theme file at this path.
    ReadTheme(String),
    /// Read the text contents of the target file at this path.
    ReadTarget(String),
    /// Overwrite the target file at this path with these bytes.
    WriteTarget(String, Vec<u8>),
    /// The run is complete; exit reporting success.
    Finish,
    /// The run failed; report the error and exit nonzero.
    Fail(ToolError),
}

/// What came of reading and parsing the configuration file.
pub enum ConfigOutcome {
    /// The file was read and parsed.
    Loaded(Config),
    /// The file could not be read.
    Unreadable,
    /// The file was read but is not a valid configuration document;
    /// carries the parser's message.
    Malformed(String),
}

/// What came of reading a file's bytes.
pub enum ReadOutcome {
    /// The file's full contents.
    Bytes(Vec<u8>),
    /// The file could not be read.
    Unreadable,
}

/// Where a run stands: which step it is waiting on.
#[derive(Debug, Clone, Copy, PartialEq, Eq, Structural)]
pub enum Phase {
    /// Waiting for the configuration file's outcome.
    AwaitConfig,
    /// Waiting for the theme file's bytes.
    AwaitTheme,
    /// Waiting for the contents of the current target file.
    AwaitTarget,
    /// Waiting for the write of the current target file to complete.
    AwaitWrite,
    /// The run ended without an error.
    Finished,
    /// The run ended with an error.
    Failed,
}

/// One run of the tool. Built once by [`Flow::start`]; the binary then
/// alternates performing the returned action and calling the step that
/// matches the current phase.
#[derive(Debug)]
pub struct Flow {
    /// Which step the run is waiting on.
    pub phase: Phase,
    /// The resolved configuration directory.
    pub dir: String,
    /// Whether the configuration path was given explicitly; an explicit
    /// path that cannot be read is an error, while a missing default
    /// configuration triggers scaffolding.
    pub explicit_config: bool,
    /// An explicit theme file path, overriding lookup by theme name.
    pub theme_override: Option<String>,
    /// The path the theme is read from, fixed once the configuration is
    /// loaded.
    pub theme_path: String,
    /// The target files, processed in order.
    pub files: Vec<String>,
    /// The loaded theme; empty until the theme file is parsed.
    pub theme: Theme,
    /// The target file currently being processed.
    pub idx: usize,
}

impl Flow {
    /// The run's internal consistency: while a target file is being read
    /// or written, the index points at it.
    pub open spec fn wf(self) -> bool {
        (self.phase == Phase::AwaitTarget || self.phase == Phase::AwaitWrite) ==> self.idx
            < self.files@.len()
    }

    /// Begins a run from the command-line paths and the two environment
    /// values. Fails only when neither environment value is present;
    /// otherwise the first action reads the configuration, from the
    /// explicit path when one was given and from the resolved
    /// directory's default file when not.
    pub fn start(
        config_path: Option<String>,
        theme_path: Option<String>,
        xdg: Option<String>,
        home: Option<String>,
    ) -> (r: Result<(Flow, Action), ToolError>)
        ensures
            match r {
                Result::Ok(p) => {
                    &&& (xdg is Some || home is Some)
                    &&& p.0.wf()
                    &&& p.0.phase == Phase::AwaitConfig
                    &&& (xdg is Some ==> p.0.dir@ == xdg.unwrap()@ + "/configtool"@)
                    &&& (xdg is None ==> p.0.dir@ == home.unwrap()@ + "/.config/configtool"@)
                    &&& p.0.explicit_config == (config_path is Some)
                    &&& p.0.theme_override == theme_path
                    &&& p.1 matches Action::ReadConfig(cp) && (match config_path {
                        Option::Some(given) => cp@ == given@,
                        Option::None => cp@ == p.0.dir@ + "/config.json"@,
                    })
                },
                Result::Err(e) => e == ToolError::MissingHome && xdg is None && home is None,
            },
    {
        let dir = match paths::resolve_config_dir(xdg, home) {
            Result::Ok(d) => d,
            Result::Err(e) => {
                return Result::Err(e);
            },
        };
        let explicit_config = config_path.is_some();
        let path = match config_path {
            Option::Some(given) => given,
            Option::None => paths::config_file_path(dir.as_str()),
        };
        let flow = Flow {
            phase: Phase::AwaitConfig,
            dir,
            explicit_config,
            theme_override: theme_path,
            theme_path: String::new(),
            files: Vec::new(),
            theme: Theme { pairs: Vec::new() },
            idx: 0,
        };
        Result::Ok((flow, Action::ReadConfig(path)))
    }

    /// Takes the configuration outcome. A loaded configuration fixes the
    /// target list and asks for the theme file — the explicit theme path
    /// when one was given, else the named theme under the directory's
    /// `themes` subdirectory. A missing default configuration asks for
    /// scaffolding and ends the run; a missing explicit one, or a
    /// malformed document, fails it. No branch writes to any target
    /// file.
    pub fn on_config(&mut self, outcome: ConfigOutcome) -> (a: Action)
        requires
            old(self).wf(),
            old(self).phase == Phase::AwaitConfig,
        ensures
            final(self).wf(),
            final(self).dir == old(self).dir,
            final(self).theme_override == old(self).theme_override,
            match outcome {
                ConfigOutcome::Loaded(c) => {
                    &&& final(self).phase == Phase::AwaitTheme
                    &&& final(self).files == c.files
                    &&& final(self).theme_path@ == (match old(self).theme_override {
                        Option::Some(tp) => tp@,
                        Option::None => old(self).dir@ + "/themes/"@ + c.theme_name@,
                    })
                    &&& a matches Action::ReadTheme(p) && p@ == final(self).theme_path@
                },
                ConfigOutcome::Unreadable => {
                    if old(self).explicit_config {
                        &&& final(self).phase == Phase::Failed
                        &&& a == Action::Fail(ToolError::ConfigMissing)
                    } else {
                        &&& final(self).phase == Phase::Finished
                        &&& a matches Action::Scaffold(d) && d@ == old(self).dir@
                    }
                },
                ConfigOutcome::Malformed(m) => {
                    &&& final(self).phase == Phase::Failed
                    &&& a == Action::Fail(ToolError::ConfigParse(m))
                },
            },
    {
        match outcome {
            ConfigOutcome::Loaded(c) => {
                let path = match &self.theme_override {
                    Option::Some(tp) => tp.clone(),
                    Option::None => paths::theme_file_path(
                        self.dir.as_str(),
                        c.theme_name.as_str(),
                    ),
                };
                self.files = c.files;
                self.theme_path = path.clone();
                self.phase = Phase::AwaitTheme;
                Action::ReadTheme(path)
            },
            ConfigOutcome::Unreadable => {
                if self.explicit_config {
                    self.phase = Phase::Failed;
                    Action::Fail(ToolError::ConfigMissing)
                } else {
                    self.phase = Phase::Finished;
                    Action::Scaffold(self.dir.clone())
                }
            },
            ConfigOutcome::Malformed(m) => {
                self.phase = Phase::Failed;
                Action::Fail(ToolError::ConfigParse(m))
            },
        }
    }

    /// Takes the theme file's outcome. An unreadable or unparsable theme
    /// fails the run before any target file is read or written; a parsed
    /// theme starts the substitution pass over the target list, or
    /// finishes at once when the list is empty.
    pub fn on_theme(&mut self, outcome: ReadOutcome) -> (a: Action)
        requires
            old(self).wf(),
            old(self).phase == Phase::AwaitTheme,
        ensures
            final(self).wf(),
            final(self).files == old(self).files,
            match outcome {
                ReadOutcome::Unreadable => {
                    &&& final(self).phase == Phase::Failed
                    &&& a matches Action::Fail(e) && e matches ToolError::ThemeRead(p) && p@ == old(
                        self,
                    ).theme_path@
                },
                ReadOutcome::Bytes(b) => {
                    if parsed_theme(b@) is Some {
                        &&& distinct_keys(final(self).theme@)
                        &&& map_of_pairs(final(self).theme@) == parsed_theme(b@).unwrap()
                        &&& final(self).idx == 0
                        &&& if old(self).files@.len() == 0 {
                            final(self).phase == Phase::Finished && a == Action::Finish
                        } else {
                            &&& final(self).phase == Phase::AwaitTarget
                            &&& a matches Action::ReadTarget(p) && p@ == old(self).files@[0]@
                        }
                    } else {
                        &&& final(self).phase == Phase::Failed
                        &&& a matches Action::Fail(e) && e matches ToolError::ThemeParse(_)
                    }
                },
            },
    {
        match outcome {
            ReadOutcome::Unreadable => {
                self.phase = Phase::Failed;
                Action::Fail(ToolError::ThemeRead(self.theme_path.clone()))
            },
            ReadOutcome::Bytes(b) => {
                match Theme::from_bytes(&b) {
                    Result::Ok(t) => {
                        self.theme = t;
                        self.idx = 0;
                        if self.files.len() == 0 {
                            self.phase = Phase::Finished;
                            Action::Finish
                        } else {
                            self.phase = Phase::AwaitTarget;
                            Action::ReadTarget(self.files[0].clone())
                        }
                    },
                    Result::Err(e) => {
                        self.phase = Phase::Failed;
                        Action::Fail(e)
                    },
                }
            },
        }
    }

    /// Takes the current target file's contents. Readable contents are
    /// rewritten by the whole theme and handed back to be written to the
    /// same path; an unreadable target fails the run naming that path,
    /// and the files after it are never touched.
    pub fn on_target(&mut self, outcome: ReadOutcome) -> (a: Action)
        requires
            old(self).wf(),
            old(self).phase == Phase::AwaitTarget,
        ensures
            final(self).wf(),
            final(self).files == old(self).files,
            final(self).theme == old(self).theme,
            final(self).idx == old(self).idx,
            match outcome {
                ReadOutcome::Unreadable => {
                    &&& final(self).phase == Phase::Failed
                    &&& a matches Action::Fail(e) && e matches ToolError::TargetRead(p) && p@ == old(
                        self,
                    ).files@[old(self).idx as int]@
                },
                ReadOutcome::Bytes(b) => {
                    &&& final(self).phase == Phase::AwaitWrite
                    &&& a matches Action::WriteTarget(p, out) && p@ == old(self).files@[old(
                        self,
                    ).idx as int]@ && out@ == subst::applied(b@, old(self).theme@)
                },
            },
    {
        match outcome {
            ReadOutcome::Unreadable => {
                let path = self.files[self.idx].clone();
                self.phase = Phase::Failed;
                Action::Fail(ToolError::TargetRead(path))
            },
            ReadOutcome::Bytes(b) => {
                let new_contents = self.theme.apply(&b);
                let path = self.files[self.idx].clone();
                self.phase = Phase::AwaitWrite;
                Action::WriteTarget(path, new_contents)
            },
        }
    }

    /// Takes the result of writing the current target file. A successful
    /// write moves on to the next target, or finishes after the last
    /// one; a failed write fails the run naming the file's path.
    pub fn on_written(&mut self, ok: bool) -> (a: Action)
        requires
            old(self).wf(),
            old(self).phase == Phase::AwaitWrite,
        ensures
            final(self).wf(),
            final(self).files == old(self).files,
            final(self).theme == old(self).theme,
            if !ok {
                &&& final(self).phase == Phase::Failed
                &&& a matches Action::Fail(e) && e matches ToolError::TargetWrite(p) && p@ == old(
                    self,
                ).files@[old(self).idx as int]@
            } else if old(self).idx + 1 < old(self).files@.len() {
                &&& final(self).phase == Phase::AwaitTarget
                &&& final(self).idx == old(self).idx + 1
                &&& a matches Action::ReadTarget(p) && p@ == old(self).files@[old(self).idx
                    + 1]@
            } else {
                final(self).phase == Phase::Finished && a == Action::Finish
            },
    {
        let n = self.files.len();
        if !ok {
            let path = self.files[self.idx].clone();
            self.phase = Phase::Failed;
            Action::Fail(ToolError::TargetWrite(path))
        } else if self.idx + 1 < n {
            self.idx = self.idx + 1;
            self.phase = Phase::AwaitTarget;
            Action::ReadTarget(self.files[self.idx].clone())
        } else {
            self.phase = Phase::Finished;
            Action::Finish
        }
    }
}

} // verus!

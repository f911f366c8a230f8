//! The command line as plain values, and what it asks the tool to do.

use crate::errors::GhrError;
use crate::errors::Result;
use vstd::prelude::*;
use vstd::string::StringExecFns;

verus! {

/// How lists are printed.
#[derive(Clone, Copy, Debug, PartialEq, Eq, Structural)]
pub enum OutputFormat {
    /// As a table.
    Table,
    /// As JSON.
    Json,
}

impl Default for OutputFormat {
    fn default() -> (r: OutputFormat)
        ensures
            r == OutputFormat::Table,
    {
        OutputFormat::Table
    }
}

/// The arguments of one invocation.
#[derive(Debug)]
pub struct Cli {
    /// The repository, `owner/repo`.
    pub repo: Option<String>,
    /// The API token.
    pub token: Option<String>,
    /// The file that holds the API token.
    pub token_file: Option<String>,
    /// The release to download: a tag, or `latest`.
    pub download: Option<String>,
    /// The asset filters, parted by commas.
    pub filter: Option<String>,
    /// The search pattern.
    pub search: Option<String>,
    /// The tags of the releases to describe, parted by commas.
    pub info: Option<String>,
    /// How many releases or repositories to fetch.
    pub num: usize,
    /// How many downloads may run at once.
    pub concurrency: usize,
    /// What to clone: an address or `owner/repo`, with an optional
    /// `:reference`.
    pub clone: Option<String>,
    /// Where to clone or download to.
    pub directory: Option<String>,
    /// Whether to say what would be done instead of doing it.
    pub dry_run: bool,
    /// How lists are printed.
    pub format: OutputFormat,
    /// The base URL of the API.
    pub api_url: String,
    /// Whether responses are cached.
    pub cache: bool,
    /// How often `-v` was given.
    pub verbose: u8,
}

/// What an invocation asks for.
#[derive(Clone, Copy, Debug, PartialEq, Eq, Structural)]
pub enum Mode {
    /// Clone a repository.
    Clone,
    /// Search repositories.
    Search,
    /// Download the assets of a release.
    Download,
    /// Describe releases.
    Info,
    /// List releases.
    List,
}

/// How much is logged.
#[derive(Clone, Copy, Debug, PartialEq, Eq, Structural)]
pub enum LogLevel {
    Info,
    Debug,
    Trace,
}

impl Cli {
    /// The mode of an invocation. Cloning goes before searching, searching
    /// before the modes that work on the releases of a repository; of those,
    /// downloading goes before describing, and listing is what is left.
    /// An invocation that names neither a repository nor a search nor a
    /// clone has no mode.
    pub open spec fn mode(&self) -> Option<Mode> {
        if self.clone is Some {
            Some(Mode::Clone)
        } else if self.search is Some {
            Some(Mode::Search)
        } else if self.repo is None {
            None
        } else if self.download is Some {
            Some(Mode::Download)
        } else if self.info is Some {
            Some(Mode::Info)
        } else {
            Some(Mode::List)
        }
    }

    /// The mode of the invocation, or the error that says what is missing.
    pub fn select_mode(&self) -> (r: Result<Mode>)
        ensures
            match r {
                Ok(mode) => self.mode() == Some(mode),
                Err(e) => self.mode() is None && (e matches GhrError::MissingArgument(m) && m@
                    == "Either --repo, --search, or --clone must be provided. Use --help for more information."@),
            },
    {
        if self.clone.is_some() {
            Ok(Mode::Clone)
        } else if self.search.is_some() {
            Ok(Mode::Search)
        } else if self.repo.is_none() {
            Err(
                GhrError::MissingArgument(
                    String::from_str(
                        "Either --repo, --search, or --clone must be provided. Use --help for more information.",
                    ),
                ),
            )
        } else if self.download.is_some() {
            Ok(Mode::Download)
        } else if self.info.is_some() {
            Ok(Mode::Info)
        } else {
            Ok(Mode::List)
        }
    }

    /// How much is logged: one `-v` asks for debug output, two for a trace,
    /// any other number for the usual information.
    pub fn log_level(&self) -> (level: LogLevel)
        ensures
            level == if self.verbose == 1 {
                LogLevel::Debug
            } else if self.verbose == 2 {
                LogLevel::Trace
            } else {
                LogLevel::Info
            },
    {
        if self.verbose == 1 {
            LogLevel::Debug
        } else if self.verbose == 2 {
            LogLevel::Trace
        } else {
            LogLevel::Info
        }
    }
}

/// Every mode but cloning and searching works on a repository, so an
/// invocation with such a mode names one.
pub proof fn law_release_modes_have_a_repository(cli: Cli)
    ensures
        cli.mode() matches Some(mode) && mode != Mode::Clone && mode != Mode::Search
            ==> cli.repo is Some,
{
}

} // verus!

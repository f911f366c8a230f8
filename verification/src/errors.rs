//! The error type shared by every component.

use crate::text::has_prefix;
use vstd::prelude::*;
use vstd::string::StringExecFns;

verus! {

/// `reqwest::Error`, carried as it is; nothing inside it is looked at.
#[verifier::external_type_specification]
#[verifier::external_body]
pub struct ExReqwestError(reqwest::Error);

/// `reqwest::header::InvalidHeaderValue`, carried as it is; nothing inside it is looked at.
#[verifier::external_type_specification]
#[verifier::external_body]
pub struct ExInvalidHeaderValue(reqwest::header::InvalidHeaderValue);

/// `regex::Error`, carried as it is; nothing inside it is looked at.
#[verifier::external_type_specification]
#[verifier::external_body]
pub struct ExRegexError(regex::Error);

/// `globset::Error`, carried as it is; nothing inside it is looked at.
#[verifier::external_type_specification]
#[verifier::external_body]
pub struct ExGlobError(globset::Error);

/// `serde_json::Error`, carried as it is; nothing inside it is looked at.
#[verifier::external_type_specification]
#[verifier::external_body]
pub struct ExJsonError(serde_json::Error);

/// `std::io::Error`, carried as it is; nothing inside it is looked at.
#[verifier::external_type_specification]
#[verifier::external_body]
pub struct ExIoError(std::io::Error);

/// What can go wrong. Transport failures (`Network`) are the only kind that
/// the fetch layer retries; every other kind is reported at once.
#[derive(Debug)]
pub enum GhrError {
    /// The API answered with a status outside 2xx.
    GitHubApi(String),
    /// The repository does not exist or cannot be seen.
    RepositoryNotFound { owner: String, repo: String },
    /// No release carries the tag.
    ReleaseNotFound { tag: String },
    /// A git command failed.
    GitCommand(String),
    /// Git is not installed or not on the search path.
    GitNotInstalled,
    /// The request never got an answer.
    Network(reqwest::Error),
    /// A file or directory operation failed.
    Io(std::io::Error),
    /// No usable credential.
    Auth(String),
    /// The text is no repository address.
    InvalidUrl { url: String },
    /// No branch, tag or commit of that name.
    RefNotFound { owner: String, repo: String, ref_name: String },
    /// The search pattern cannot be read.
    InvalidSearchPattern(String),
    /// An argument that the chosen mode needs is missing.
    MissingArgument(String),
    /// The repository has no releases.
    NoReleases,
    /// The credential cannot be sent as a header value.
    InvalidHeaderValue(reqwest::header::InvalidHeaderValue),
    /// The filter is no regular expression.
    RegexError(regex::Error),
    /// The filter is no glob pattern.
    GlobError(globset::Error),
    /// The payload is not the JSON that was expected.
    JsonError(serde_json::Error),
    /// Any other failure, as its message.
    Generic(String),
}

/// `reqwest::Error` as text, by its `Display`. Nothing is claimed of the text.
#[verifier::external_body]
fn network_error_text(e: &reqwest::Error) -> String {
    e.to_string()
}

/// `std::io::Error` as text, by its `Display`. Nothing is claimed of the text.
#[verifier::external_body]
fn io_error_text(e: &std::io::Error) -> String {
    e.to_string()
}

/// `reqwest::header::InvalidHeaderValue` as text, by its `Display`. Nothing
/// is claimed of the text.
#[verifier::external_body]
fn header_error_text(e: &reqwest::header::InvalidHeaderValue) -> String {
    e.to_string()
}

/// `regex::Error` as text, by its `Display`. Nothing is claimed of the text.
#[verifier::external_body]
fn regex_error_text(e: &regex::Error) -> String {
    e.to_string()
}

/// `globset::Error` as text, by its `Display`. Nothing is claimed of the text.
#[verifier::external_body]
fn glob_error_text(e: &globset::Error) -> String {
    e.to_string()
}

/// `serde_json::Error` as text, by its `Display`. Nothing is claimed of the
/// text.
#[verifier::external_body]
fn json_error_text(e: &serde_json::Error) -> String {
    e.to_string()
}

impl GhrError {
    /// Whether the error is a transport failure, the one kind worth retrying.
    pub open spec fn is_transport(&self) -> bool {
        self is Network
    }

    /// Whether the error is a transport failure.
    pub fn is_network(&self) -> (b: bool)
        ensures
            b == self.is_transport(),
    {
        match self {
            GhrError::Network(_) => true,
            _ => false,
        }
    }

    /// An error that carries only a message.
    pub fn generic(message: &str) -> (e: GhrError)
        ensures
            e matches GhrError::Generic(m) && m@ == message@,
    {
        GhrError::Generic(String::from_str(message))
    }

    /// The text shown to the user. Where the error wraps one of another
    /// library, that library words the part after the prefix.
    pub fn message(&self) -> (r: String)
        ensures
            match self {
                GhrError::GitHubApi(m) => r@ == "GitHub API error: "@ + m@,
                GhrError::RepositoryNotFound { owner, repo } => r@ == "Repository '"@ + owner@
                    + "/"@ + repo@ + "' not found or access denied"@,
                GhrError::ReleaseNotFound { tag } => r@ == "Release with tag '"@ + tag@
                    + "' not found"@,
                GhrError::GitCommand(m) => r@ == "Git command failed: "@ + m@,
                GhrError::GitNotInstalled => r@
                    == "Git is not installed or not available in PATH"@,
                GhrError::Network(_) => has_prefix(r@, "Network error: "@),
                GhrError::Io(_) => has_prefix(r@, "IO error: "@),
                GhrError::Auth(m) => r@ == "Authentication failed: "@ + m@,
                GhrError::InvalidUrl { url } => r@ == "Invalid URL format: "@ + url@,
                GhrError::RefNotFound { owner, repo, ref_name } => r@ == "Ref '"@ + ref_name@
                    + "' not found in "@ + owner@ + "/"@ + repo@,
                GhrError::InvalidSearchPattern(m) => r@ == "Invalid search pattern: "@ + m@,
                GhrError::MissingArgument(m) => r@ == "Missing required argument: "@ + m@,
                GhrError::NoReleases => r@ == "No releases found in repository"@,
                GhrError::InvalidHeaderValue(_) => has_prefix(r@, "Invalid header value: "@),
                GhrError::RegexError(_) => has_prefix(r@, "Invalid regex pattern: "@),
                GhrError::GlobError(_) => has_prefix(r@, "Invalid glob pattern: "@),
                GhrError::JsonError(_) => has_prefix(r@, "JSON error: "@),
                GhrError::Generic(m) => r@ == m@,
            },
    {
        match self {
            GhrError::GitHubApi(m) => prefixed("GitHub API error: ", m.as_str()),
            GhrError::RepositoryNotFound { owner, repo } => {
                let mut s = String::from_str("Repository '");
                s.append(owner.as_str());
                s.append("/");
                s.append(repo.as_str());
                s.append("' not found or access denied");
                s
            },
            GhrError::ReleaseNotFound { tag } => {
                let mut s = String::from_str("Release with tag '");
                s.append(tag.as_str());
                s.append("' not found");
                s
            },
            GhrError::GitCommand(m) => prefixed("Git command failed: ", m.as_str()),
            GhrError::GitNotInstalled => String::from_str(
                "Git is not installed or not available in PATH",
            ),
            GhrError::Network(e) => prefixed("Network error: ", network_error_text(e).as_str()),
            GhrError::Io(e) => prefixed("IO error: ", io_error_text(e).as_str()),
            GhrError::Auth(m) => prefixed("Authentication failed: ", m.as_str()),
            GhrError::InvalidUrl { url } => prefixed("Invalid URL format: ", url.as_str()),
            GhrError::RefNotFound { owner, repo, ref_name } => {
                let mut s = String::from_str("Ref '");
                s.append(ref_name.as_str());
                s.append("' not found in ");
                s.append(owner.as_str());
                s.append("/");
                s.append(repo.as_str());
                s
            },
            GhrError::InvalidSearchPattern(m) => prefixed("Invalid search pattern: ", m.as_str()),
            GhrError::MissingArgument(m) => prefixed("Missing required argument: ", m.as_str()),
            GhrError::NoReleases => String::from_str("No releases found in repository"),
            GhrError::InvalidHeaderValue(e) => prefixed(
                "Invalid header value: ",
                header_error_text(e).as_str(),
            ),
            GhrError::RegexError(e) => prefixed(
                "Invalid regex pattern: ",
                regex_error_text(e).as_str(),
            ),
            GhrError::GlobError(e) => prefixed("Invalid glob pattern: ", glob_error_text(e).as_str()),
            GhrError::JsonError(e) => prefixed("JSON error: ", json_error_text(e).as_str()),
            GhrError::Generic(m) => m.clone(),
        }
    }
}

/// `prefix` followed by `rest`.
fn prefixed(prefix: &str, rest: &str) -> (r: String)
    ensures
        r@ == prefix@ + rest@,
        has_prefix(r@, prefix@),
{
    let mut s = String::from_str(prefix);
    s.append(rest);
    assert(s@.take(prefix@.len() as int) =~= prefix@);
    s
}

impl From<String> for GhrError {
    fn from(s: String) -> (e: GhrError) {
        GhrError::Generic(s)
    }
}

impl vstd::std_specs::convert::FromSpecImpl<String> for GhrError {
    open spec fn obeys_from_spec() -> bool {
        true
    }

    open spec fn from_spec(s: String) -> GhrError {
        GhrError::Generic(s)
    }
}

impl<'a> From<&'a str> for GhrError {
    fn from(s: &'a str) -> (e: GhrError)
        ensures
            e matches GhrError::Generic(m) && m@ == s@,
    {
        GhrError::Generic(String::from_str(s))
    }
}

/// What `from` makes of a borrowed text is stated on `from` itself: a spec
/// function cannot build the owned copy.
impl<'a> vstd::std_specs::convert::FromSpecImpl<&'a str> for GhrError {
    open spec fn obeys_from_spec() -> bool {
        false
    }

    open spec fn from_spec(s: &'a str) -> GhrError {
        arbitrary()
    }
}

/// The outcome of an operation of this library.
pub type Result<T> = std::result::Result<T, GhrError>;

} // verus!

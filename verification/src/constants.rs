//! Fixed values of the tool: where the API lives, how requests identify
//! themselves, and the defaults of the command line.

use vstd::prelude::*;

pub mod endpoints;
pub mod headers;
pub mod retry;

verus! {

/// The base URL of the GitHub API.
pub const GITHUB_API_BASE: &'static str = "https://api.github.com";

/// The API version sent with every request.
pub const GITHUB_API_VERSION: &'static str = "2022-11-28";

/// How the tool names itself to the API.
pub const USER_AGENT: &'static str = "ghr/0.1.0";

/// How many downloads run at once unless told otherwise.
pub const DEFAULT_CONCURRENCY: usize = 5;

/// How many releases are fetched unless told otherwise.
pub const DEFAULT_NUM_RELEASES: usize = 10;

} // verus!

//! Values of the `Accept` header.

use vstd::prelude::*;

verus! {

/// Asks the API for version 3 JSON.
pub const ACCEPT_API_V3: &'static str = "application/vnd.github.v3+json";

/// Asks for the raw bytes of an asset.
pub const ACCEPT_OCTET_STREAM: &'static str = "application/octet-stream";

} // verus!

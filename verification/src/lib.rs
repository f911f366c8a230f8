//! The logic of a command-line tool for GitHub releases: which URL to ask,
//! how a response or an error is to be taken, which release and which
//! assets a request selects, and how a set of downloads is run within a
//! limit and summed up.
//!
//! Nothing here touches the network, the file system or a subprocess. The
//! program around this library sends the requests, reads and writes the
//! files and runs git; it hands what it saw to the functions here and does
//! what they answer. Regular expressions, glob patterns, percent-encoding,
//! header values and dates are left to the crates that own them, behind
//! small functions whose contracts say what is taken on trust.

pub mod auth;
pub mod cache;
pub mod cli;
pub mod constants;
pub mod download;
pub mod errors;
pub mod filters;
pub mod git;
pub mod github;
pub mod models;
pub mod release;
pub mod text;

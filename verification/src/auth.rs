//! Finding the credential: an explicit token, the content of a token file,
//! or the password that `.netrc` holds for `github.com`.
//!
//! Files are read by the caller, which hands in what it found.

use crate::cli::Cli;
use crate::errors::GhrError;
use crate::errors::Result;
use crate::text::concat2;
use crate::text::contains;
use crate::text::find_second_word;
use crate::text::has_prefix;
use crate::text::has_substring;
use crate::text::second_word;
use crate::text::split;
use crate::text::split_chars;
use crate::text::starts_with;
use crate::text::to_chars;
use crate::text::trim;
use crate::text::trimmed;
use crate::text::trim_bounds;
use vstd::prelude::*;
use vstd::string::StringExecFns;
use vstd::utf8::encode_utf8;

verus! {

/// What came of reading the token file.
#[derive(Debug)]
pub enum FileRead {
    /// The content of the file.
    Content(String),
    /// The file could not be read; the text says why.
    Failed(String),
}

/// A byte that may stand in a header value: a tab, or anything from the
/// space on but the delete character.
pub open spec fn header_byte_ok(b: u8) -> bool {
    (b >= 32 && b != 127) || b == 9
}

/// A text that may be sent as a header value: every byte of its UTF-8 form
/// may stand in one.
pub open spec fn header_value_ok(value: Seq<char>) -> bool {
    forall|i: int|
        0 <= i < encode_utf8(value).len() ==> header_byte_ok(#[trigger] encode_utf8(value)[i])
}

/// `reqwest::header::HeaderValue::from_str`, for its verdict only: `Ok`
/// exactly where every byte of the text may stand in a header value, else
/// the crate's error.
#[verifier::external_body]
fn header_value_check(value: &str) -> (r: std::result::Result<
    (),
    reqwest::header::InvalidHeaderValue,
>)
    ensures
        r is Ok <==> header_value_ok(value@),
{
    match reqwest::header::HeaderValue::from_str(value) {
        Ok(_) => Ok(()),
        Err(e) => Err(e),
    }
}

/// Where a scan of `.netrc` stands.
#[derive(Clone, Copy, Debug, PartialEq, Eq, Structural)]
pub enum NetrcState {
    /// No entry for `github.com` has been seen.
    Outside,
    /// The lines belong to the entry for `github.com`.
    Inside,
}

/// The password of the first entry for `github.com` among the lines.
///
/// A line that begins with `machine` opens an entry; the entry is the one
/// looked for where that line holds `github.com`. Inside it, the first line
/// that begins with `password` and has a second word gives the password.
/// The entry, and the search, ends at the next line that begins with
/// `machine`. Whitespace around a line does not count.
pub open spec fn netrc_scan(lines: Seq<Seq<char>>, state: NetrcState) -> Option<Seq<char>>
    decreases lines.len(),
{
    if lines.len() == 0 {
        None
    } else {
        let line = trim(lines[0]);
        let rest = lines.skip(1);
        if has_prefix(line, "machine"@) {
            if state == NetrcState::Inside {
                None
            } else if has_substring(line, "github.com"@) {
                netrc_scan(rest, NetrcState::Inside)
            } else {
                netrc_scan(rest, NetrcState::Outside)
            }
        } else if state == NetrcState::Inside && has_prefix(line, "password"@) && second_word(
            line,
        ) is Some {
            second_word(line)
        } else {
            netrc_scan(rest, state)
        }
    }
}

/// The password that the content of a `.netrc` file holds for `github.com`.
pub open spec fn netrc_password(content: Seq<char>) -> Option<Seq<char>> {
    netrc_scan(split(content, '\n'), NetrcState::Outside)
}

/// The password that the content of a `.netrc` file holds for `github.com`.
pub fn find_netrc_password(content: &str) -> (r: Option<String>)
    ensures
        match r {
            Some(p) => netrc_password(content@) == Some(p@),
            None => netrc_password(content@) is None,
        },
{
    let chars = to_chars(content);
    let lines = split_chars(chars.as_slice(), '\n');
    let machine = to_chars("machine");
    let password = to_chars("password");
    let github = to_chars("github.com");
    let ghost all = split(content@, '\n');
    let n = lines.len();
    let mut state = NetrcState::Outside;
    let mut i: usize = 0;
    assert(all.skip(0) =~= all);
    while i < n
        invariant
            i <= n,
            n == lines@.len(),
            all == lines@.map_values(|piece: Vec<char>| piece@),
            all == split(content@, '\n'),
            machine@ == "machine"@,
            password@ == "password"@,
            github@ == "github.com"@,
            netrc_scan(all.skip(i as int), state) == netrc_scan(all, NetrcState::Outside),
        decreases n - i,
    {
        let raw = lines[i].as_slice();
        let (a, b) = trim_bounds(raw);
        let line = &raw[a..b];
        proof {
            let here = all.skip(i as int);
            assert(here[0] == lines@[i as int]@);
            assert(here.skip(1) =~= all.skip(i + 1));
        }
        if starts_with(line, machine.as_slice()) {
            if state == NetrcState::Inside {
                return None;
            }
            if contains(line, github.as_slice()) {
                state = NetrcState::Inside;
            }
        } else if state == NetrcState::Inside && starts_with(line, password.as_slice()) {
            match find_second_word(line) {
                Some(word) => {
                    return Some(word);
                },
                None => {},
            }
        }
        i += 1;
    }
    None
}

/// The header value that presents a token.
pub open spec fn bearer(token: Seq<char>) -> Seq<char> {
    "Bearer "@ + token
}

/// Which token an invocation authenticates with, and from where.
///
/// A token on the command line goes first and a token file second; both are
/// taken without their surrounding whitespace. A token file that cannot be
/// read is an error, not a reason to look further. `.netrc` is looked at
/// only where neither was given.
pub open spec fn chosen_token(
    token: Option<Seq<char>>,
    token_file: Option<std::result::Result<Seq<char>, Seq<char>>>,
    netrc: Option<Seq<char>>,
) -> std::result::Result<Seq<char>, Seq<char>> {
    match token {
        Some(t) => Ok(trim(t)),
        None => match token_file {
            Some(Ok(content)) => Ok(trim(content)),
            Some(Err(why)) => Err("Failed to read token file: "@ + why),
            None => match netrc {
                Some(content) => match netrc_password(content) {
                    Some(p) => Ok(p),
                    None => Err("No authentication method provided"@),
                },
                None => Err("No authentication method provided"@),
            },
        },
    }
}

/// The token file as the contracts see it.
pub open spec fn file_view(file: Option<FileRead>) -> Option<std::result::Result<
    Seq<char>,
    Seq<char>,
>> {
    match file {
        Some(FileRead::Content(c)) => Some(Ok(c@)),
        Some(FileRead::Failed(why)) => Some(Err(why@)),
        None => None,
    }
}

/// The text of an optional string.
pub open spec fn text_of(s: Option<String>) -> Option<Seq<char>> {
    match s {
        Some(t) => Some(t@),
        None => None,
    }
}

/// The value of the `Authorization` header for an invocation.
///
/// `token_file` is what reading the file named on the command line gave,
/// where one is named; `netrc` is the content of the user's `.netrc`, where
/// it could be read. The result is `Bearer` and the chosen token. It is an
/// error if no token is found, if the token file cannot be read, or if the
/// value could not be sent as a header.
pub fn add_auth_header(cli: &Cli, token_file: Option<FileRead>, netrc: Option<&str>) -> (r: Result<
    String,
>)
    ensures
        match chosen_token(
            text_of(cli.token),
            file_view(token_file),
            match netrc {
                Some(n) => Some(n@),
                None => None,
            },
        ) {
            Ok(token) => if header_value_ok(bearer(token)) {
                r matches Ok(value) && value@ == bearer(token)
            } else {
                r matches Err(e) && e is InvalidHeaderValue
            },
            Err(why) => r matches Err(e) && (e matches GhrError::Auth(m) && m@ == why),
        },
{
    let token: String = match &cli.token {
        Some(t) => trimmed(t.as_str()),
        None => match token_file {
            Some(FileRead::Content(content)) => trimmed(content.as_str()),
            Some(FileRead::Failed(why)) => {
                return Err(GhrError::Auth(concat2("Failed to read token file: ", why.as_str())));
            },
            None => {
                let found = match netrc {
                    Some(content) => find_netrc_password(content),
                    None => None,
                };
                match found {
                    Some(p) => p,
                    None => {
                        return Err(
                            GhrError::Auth(String::from_str("No authentication method provided")),
                        );
                    },
                }
            },
        },
    };
    let value = concat2("Bearer ", token.as_str());
    match header_value_check(value.as_str()) {
        Ok(_) => Ok(value),
        Err(e) => Err(GhrError::InvalidHeaderValue(e)),
    }
}

/// Which token a clone is made with.
///
/// A token on the command line is taken as it is. The content of a token
/// file is taken without surrounding whitespace; a file that cannot be read
/// is passed over. Last comes the password of `.netrc`.
pub open spec fn clone_token(
    token: Option<Seq<char>>,
    token_file: Option<std::result::Result<Seq<char>, Seq<char>>>,
    netrc: Option<Seq<char>>,
) -> Option<Seq<char>> {
    match token {
        Some(t) => Some(t),
        None => match token_file {
            Some(Ok(content)) => Some(trim(content)),
            _ => match netrc {
                Some(content) => netrc_password(content),
                None => None,
            },
        },
    }
}

/// The token of an invocation, for use in a clone URL.
pub fn extract_token_from_cli(cli: &Cli, token_file: Option<FileRead>, netrc: Option<&str>) -> (r:
    Option<String>)
    ensures
        text_of(r) == clone_token(
            text_of(cli.token),
            file_view(token_file),
            match netrc {
                Some(n) => Some(n@),
                None => None,
            },
        ),
{
    match &cli.token {
        Some(t) => Some(t.clone()),
        None => match token_file {
            Some(FileRead::Content(content)) => Some(trimmed(content.as_str())),
            _ => match netrc {
                Some(content) => find_netrc_password(content),
                None => None,
            },
        },
    }
}

} // verus!

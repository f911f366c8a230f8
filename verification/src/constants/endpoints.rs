//! The URLs of the API operations.

use crate::constants::GITHUB_API_BASE;
use crate::text::decimal;
use crate::text::to_decimal;
use vstd::prelude::*;
use vstd::string::StringExecFns;
use vstd::utf8::encode_utf8;

verus! {

/// The bytes that a percent-encoding leaves as they are: ASCII letters,
/// digits, `-`, `.`, `_` and `~`.
pub open spec fn is_unreserved(b: u8) -> bool {
    ||| 0x30 <= b <= 0x39
    ||| 0x41 <= b <= 0x5A
    ||| 0x61 <= b <= 0x7A
    ||| b == 0x2D
    ||| b == 0x2E
    ||| b == 0x5F
    ||| b == 0x7E
}

/// The upper-case hexadecimal digit for `n`, which is below sixteen.
pub open spec fn hex_digit(n: int) -> char {
    if n < 10 {
        ((0x30 + n) as u8) as char
    } else {
        ((0x41 + n - 10) as u8) as char
    }
}

/// One byte, percent-encoded.
pub open spec fn percent_encoded_byte(b: u8) -> Seq<char> {
    if is_unreserved(b) {
        seq![b as char]
    } else {
        seq!['%', hex_digit(b as int / 16), hex_digit(b as int % 16)]
    }
}

/// A sequence of bytes, percent-encoded byte by byte.
pub open spec fn percent_encoded(bytes: Seq<u8>) -> Seq<char>
    decreases bytes.len(),
{
    if bytes.len() == 0 {
        Seq::empty()
    } else {
        percent_encoded(bytes.drop_last()) + percent_encoded_byte(bytes.last())
    }
}

/// `urlencoding::encode`: the UTF-8 bytes of `data`, each left as it is
/// where unreserved and else written as `%` and two upper-case hexadecimal
/// digits.
#[verifier::external_body]
fn url_encode(data: &str) -> (r: String)
    ensures
        r@ == percent_encoded(encode_utf8(data@)),
{
    urlencoding::encode(data).into_owned()
}

/// The URL of a repository.
pub open spec fn repository_url(base: Seq<char>, owner: Seq<char>, repo: Seq<char>) -> Seq<char> {
    base + "/repos/"@ + owner + "/"@ + repo
}

/// The URL of the release list of a repository on the public API.
pub fn releases(owner: &str, repo: &str) -> (r: String)
    ensures
        r@ == repository_url(GITHUB_API_BASE@, owner@, repo@) + "/releases"@,
{
    releases_with_base(GITHUB_API_BASE, owner, repo)
}

/// The URL of the release list of a repository.
pub fn releases_with_base(base_url: &str, owner: &str, repo: &str) -> (r: String)
    ensures
        r@ == repository_url(base_url@, owner@, repo@) + "/releases"@,
{
    let mut s = repository_with_base(base_url, owner, repo);
    s.append("/releases");
    s
}

/// The URL of the release with a tag on the public API.
pub fn release_by_tag(owner: &str, repo: &str, tag: &str) -> (r: String)
    ensures
        r@ == repository_url(GITHUB_API_BASE@, owner@, repo@) + "/releases/tags/"@ + tag@,
{
    release_by_tag_with_base(GITHUB_API_BASE, owner, repo, tag)
}

/// The URL of the release with a tag.
pub fn release_by_tag_with_base(base_url: &str, owner: &str, repo: &str, tag: &str) -> (r: String)
    ensures
        r@ == repository_url(base_url@, owner@, repo@) + "/releases/tags/"@ + tag@,
{
    let mut s = repository_with_base(base_url, owner, repo);
    s.append("/releases/tags/");
    s.append(tag);
    s
}

/// The URL of a repository on the public API.
pub fn repository(owner: &str, repo: &str) -> (r: String)
    ensures
        r@ == repository_url(GITHUB_API_BASE@, owner@, repo@),
{
    repository_with_base(GITHUB_API_BASE, owner, repo)
}

/// The URL of a repository.
pub fn repository_with_base(base_url: &str, owner: &str, repo: &str) -> (r: String)
    ensures
        r@ == repository_url(base_url@, owner@, repo@),
{
    let mut s = String::from_str(base_url);
    s.append("/repos/");
    s.append(owner);
    s.append("/");
    s.append(repo);
    s
}

/// The URL of a branch on the public API.
pub fn branch(owner: &str, repo: &str, name: &str) -> (r: String)
    ensures
        r@ == repository_url(GITHUB_API_BASE@, owner@, repo@) + "/branches/"@ + name@,
{
    branch_with_base(GITHUB_API_BASE, owner, repo, name)
}

/// The URL of a branch.
pub fn branch_with_base(base_url: &str, owner: &str, repo: &str, branch: &str) -> (r: String)
    ensures
        r@ == repository_url(base_url@, owner@, repo@) + "/branches/"@ + branch@,
{
    let mut s = repository_with_base(base_url, owner, repo);
    s.append("/branches/");
    s.append(branch);
    s
}

/// The URL of a tag reference on the public API.
pub fn tag(owner: &str, repo: &str, name: &str) -> (r: String)
    ensures
        r@ == repository_url(GITHUB_API_BASE@, owner@, repo@) + "/git/refs/tags/"@ + name@,
{
    tag_with_base(GITHUB_API_BASE, owner, repo, name)
}

/// The URL of a tag reference.
pub fn tag_with_base(base_url: &str, owner: &str, repo: &str, tag: &str) -> (r: String)
    ensures
        r@ == repository_url(base_url@, owner@, repo@) + "/git/refs/tags/"@ + tag@,
{
    let mut s = repository_with_base(base_url, owner, repo);
    s.append("/git/refs/tags/");
    s.append(tag);
    s
}

/// The URL of a commit on the public API.
pub fn commit(owner: &str, repo: &str, sha: &str) -> (r: String)
    ensures
        r@ == repository_url(GITHUB_API_BASE@, owner@, repo@) + "/commits/"@ + sha@,
{
    commit_with_base(GITHUB_API_BASE, owner, repo, sha)
}

/// The URL of a commit.
pub fn commit_with_base(base_url: &str, owner: &str, repo: &str, sha: &str) -> (r: String)
    ensures
        r@ == repository_url(base_url@, owner@, repo@) + "/commits/"@ + sha@,
{
    let mut s = repository_with_base(base_url, owner, repo);
    s.append("/commits/");
    s.append(sha);
    s
}

/// The URL of a repository search: the query percent-encoded, the results
/// ordered by stars, at most `num` of them.
pub open spec fn search_url(base: Seq<char>, query: Seq<char>, num: nat) -> Seq<char> {
    base + "/search/repositories?q="@ + percent_encoded(encode_utf8(query))
        + "&sort=stars&order=desc&per_page="@ + decimal(num)
}

/// The URL of a repository search on the public API.
pub fn search_repositories(query: &str, num: usize) -> (r: String)
    ensures
        r@ == search_url(GITHUB_API_BASE@, query@, num as nat),
{
    search_repositories_with_base(GITHUB_API_BASE, query, num)
}

/// The URL of a repository search.
pub fn search_repositories_with_base(base_url: &str, query: &str, num: usize) -> (r: String)
    ensures
        r@ == search_url(base_url@, query@, num as nat),
{
    let mut s = String::from_str(base_url);
    s.append("/search/repositories?q=");
    s.append(url_encode(query).as_str());
    s.append("&sort=stars&order=desc&per_page=");
    s.append(to_decimal(num as u64).as_str());
    s
}

/// The URL of the tag list of a repository on the public API.
pub fn tags(owner: &str, repo: &str, per_page: usize) -> (r: String)
    ensures
        r@ == repository_url(GITHUB_API_BASE@, owner@, repo@) + "/tags?per_page="@ + decimal(
            per_page as nat,
        ),
{
    tags_with_base(GITHUB_API_BASE, owner, repo, per_page)
}

/// The URL of the tag list of a repository.
pub fn tags_with_base(base_url: &str, owner: &str, repo: &str, per_page: usize) -> (r: String)
    ensures
        r@ == repository_url(base_url@, owner@, repo@) + "/tags?per_page="@ + decimal(
            per_page as nat,
        ),
{
    let mut s = repository_with_base(base_url, owner, repo);
    s.append("/tags?per_page=");
    s.append(to_decimal(per_page as u64).as_str());
    s
}

} // verus!

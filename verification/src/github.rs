//! The decisions of the API fetch layer: which URL to ask, what a response
//! means, when to try again, and how a search pattern is read.
//!
//! Sending a request is left to the caller. It hands the status code of the
//! response, or the error, to the functions here and does what they say.

use crate::constants::endpoints;
use crate::constants::endpoints::repository_url;
use crate::constants::retry::BASE_DELAY_SECS;
use crate::constants::retry::MAX_RETRIES;
use crate::errors::GhrError;
use crate::errors::Result;
use crate::text::after_first;
use crate::text::before_first;
use crate::text::concat2;
use crate::text::find_char;
use crate::text::from_chars;
use crate::text::to_chars;
use crate::text::trim;
use crate::text::trim_bounds;
use vstd::prelude::*;
use vstd::string::StringExecFns;

verus! {

/// What a search looks for.
#[derive(Debug)]
pub enum SearchPattern {
    /// Repositories of one account that mention a keyword.
    UserWithKeyword { username: String, keyword: String },
    /// Every repository of one account.
    UserAllRepos { username: String },
    /// Repositories of any account that mention a keyword.
    GlobalKeyword { keyword: String },
}

/// A search pattern as the contracts see it.
pub enum SearchPatternView {
    UserWithKeyword { username: Seq<char>, keyword: Seq<char> },
    UserAllRepos { username: Seq<char> },
    GlobalKeyword { keyword: Seq<char> },
}

impl View for SearchPattern {
    type V = SearchPatternView;

    open spec fn view(&self) -> SearchPatternView {
        match self {
            SearchPattern::UserWithKeyword { username, keyword } => {
                SearchPatternView::UserWithKeyword { username: username@, keyword: keyword@ }
            },
            SearchPattern::UserAllRepos { username } => SearchPatternView::UserAllRepos {
                username: username@,
            },
            SearchPattern::GlobalKeyword { keyword } => SearchPatternView::GlobalKeyword {
                keyword: keyword@,
            },
        }
    }
}

/// Why a search pattern cannot be read.
pub enum PatternFault {
    /// Nothing but whitespace.
    Empty,
    /// A `/` with nothing on either side.
    EmptyKeyword,
}

/// What a search pattern means. Surrounding whitespace is dropped. Without a
/// `/` the whole text is a keyword. The first `/` parts an account from a
/// keyword; an empty account makes the search global, an empty keyword asks
/// for all of the account's repositories.
pub open spec fn search_pattern(input: Seq<char>) -> std::result::Result<
    SearchPatternView,
    PatternFault,
> {
    let p = trim(input);
    if p.len() == 0 {
        Err(PatternFault::Empty)
    } else if !p.contains('/') {
        Ok(SearchPatternView::GlobalKeyword { keyword: p })
    } else {
        let username = before_first(p, '/');
        let keyword = after_first(p, '/');
        if username.len() == 0 {
            if keyword.len() == 0 {
                Err(PatternFault::EmptyKeyword)
            } else {
                Ok(SearchPatternView::GlobalKeyword { keyword })
            }
        } else if keyword.len() == 0 {
            Ok(SearchPatternView::UserAllRepos { username })
        } else {
            Ok(SearchPatternView::UserWithKeyword { username, keyword })
        }
    }
}

/// The message that reports a fault.
pub open spec fn pattern_fault_message(fault: PatternFault) -> Seq<char> {
    match fault {
        PatternFault::Empty => "Search pattern cannot be empty"@,
        PatternFault::EmptyKeyword => "Keyword cannot be empty for global search"@,
    }
}

/// Reads a search pattern: `user/keyword`, `user/`, `/keyword` or `keyword`.
pub fn parse_search_pattern(pattern: &str) -> (r: Result<SearchPattern>)
    ensures
        match r {
            Ok(p) => search_pattern(pattern@) == Ok::<SearchPatternView, PatternFault>(p@),
            Err(e) => search_pattern(pattern@) matches Err(fault) && e
                matches GhrError::InvalidSearchPattern(m) && m@ == pattern_fault_message(fault),
        },
{
    let all = to_chars(pattern);
    let (a, b) = trim_bounds(all.as_slice());
    let p = &all.as_slice()[a..b];
    assert(p@ == trim(pattern@));
    let n = p.len();
    if n == 0 {
        return Err(
            GhrError::InvalidSearchPattern(String::from_str("Search pattern cannot be empty")),
        );
    }
    match find_char(p, '/') {
        None => Ok(SearchPattern::GlobalKeyword { keyword: from_chars(p) }),
        Some(i) => {
            let username = &p[0..i];
            let keyword = &p[i + 1..n];
            if i == 0 {
                if keyword.len() == 0 {
                    Err(
                        GhrError::InvalidSearchPattern(
                            String::from_str("Keyword cannot be empty for global search"),
                        ),
                    )
                } else {
                    Ok(SearchPattern::GlobalKeyword { keyword: from_chars(keyword) })
                }
            } else if keyword.len() == 0 {
                Ok(SearchPattern::UserAllRepos { username: from_chars(username) })
            } else {
                Ok(
                    SearchPattern::UserWithKeyword {
                        username: from_chars(username),
                        keyword: from_chars(keyword),
                    },
                )
            }
        },
    }
}

/// The query that the search API is asked.
pub open spec fn search_query(pattern: SearchPatternView) -> Seq<char> {
    match pattern {
        SearchPatternView::UserWithKeyword { username, keyword } => "user:"@ + username + " "@
            + keyword + " in:name,description"@,
        SearchPatternView::UserAllRepos { username } => "user:"@ + username,
        SearchPatternView::GlobalKeyword { keyword } => keyword + " in:name,description"@,
    }
}

/// The query for a search pattern, before it is encoded for a URL.
pub fn build_search_query(pattern: &SearchPattern) -> (r: String)
    ensures
        r@ == search_query(pattern@),
{
    match pattern {
        SearchPattern::UserWithKeyword { username, keyword } => {
            let mut s = String::from_str("user:");
            s.append(username.as_str());
            s.append(" ");
            s.append(keyword.as_str());
            s.append(" in:name,description");
            s
        },
        SearchPattern::UserAllRepos { username } => concat2("user:", username.as_str()),
        SearchPattern::GlobalKeyword { keyword } => concat2(
            keyword.as_str(),
            " in:name,description",
        ),
    }
}

/// The URL that a search asks: the search endpoint of `base_url` with the
/// pattern's query, percent-encoded, and the number of results wanted.
pub fn search_request_url(base_url: &str, pattern: &SearchPattern, num: usize) -> (r: (
    String,
    String,
))
    ensures
        r.0@ == search_query(pattern@),
        r.1@ == endpoints::search_url(base_url@, search_query(pattern@), num as nat),
{
    let query = build_search_query(pattern);
    let url = endpoints::search_repositories_with_base(base_url, query.as_str(), num);
    (query, url)
}

/// Owner and name of a repository written `owner/name`: what stands before
/// and after the one `/`.
pub open spec fn repository_parts(repo: Seq<char>) -> Option<(Seq<char>, Seq<char>)> {
    if repo.contains('/') && !after_first(repo, '/').contains('/') {
        Some((before_first(repo, '/'), after_first(repo, '/')))
    } else {
        None
    }
}

/// Parts `owner/name`; any other number of `/` than one is refused.
pub fn split_repository(repo: &str) -> (r: Result<(String, String)>)
    ensures
        match r {
            Ok((owner, name)) => repository_parts(repo@) == Some((owner@, name@)),
            Err(e) => repository_parts(repo@) is None && (e matches GhrError::Generic(m) && m@
                == "Invalid repository format: "@ + repo@),
        },
{
    let chars = to_chars(repo);
    let s = chars.as_slice();
    let n = s.len();
    match find_char(s, '/') {
        Some(i) => {
            let rest = &s[i + 1..n];
            if find_char(rest, '/').is_none() {
                return Ok((from_chars(&s[0..i]), from_chars(rest)));
            }
        },
        None => {},
    }
    Err(GhrError::Generic(concat2("Invalid repository format: ", repo)))
}

/// The URL that lists the releases of a repository, or the one release with
/// a tag where a tag is given.
pub open spec fn release_url(base: Seq<char>, owner: Seq<char>, name: Seq<char>, tag: Option<
    Seq<char>,
>) -> Seq<char> {
    match tag {
        Some(t) => repository_url(base, owner, name) + "/releases/tags/"@ + t,
        None => repository_url(base, owner, name) + "/releases"@,
    }
}

/// The URL to fetch release information from, for a repository written
/// `owner/name`.
pub fn release_request_url(base_url: &str, repo: &str, tag: Option<&str>) -> (r: Result<String>)
    ensures
        match r {
            Ok(url) => repository_parts(repo@) matches Some((owner, name)) && url@ == release_url(
                base_url@,
                owner,
                name,
                match tag {
                    Some(t) => Some(t@),
                    None => None,
                },
            ),
            Err(e) => repository_parts(repo@) is None && (e matches GhrError::Generic(m) && m@
                == "Invalid repository format: "@ + repo@),
        },
{
    match split_repository(repo) {
        Err(e) => Err(e),
        Ok((owner, name)) => match tag {
            Some(t) => Ok(
                endpoints::release_by_tag_with_base(base_url, owner.as_str(), name.as_str(), t),
            ),
            None => Ok(endpoints::releases_with_base(base_url, owner.as_str(), name.as_str())),
        },
    }
}

/// Whether a status code reports success: 200 up to 299.
pub open spec fn is_success(code: u16) -> bool {
    200 <= code < 300
}

/// Whether a status code reports success.
pub fn status_is_success(code: u16) -> (b: bool)
    ensures
        b == is_success(code),
{
    200 <= code && code < 300
}

/// What the caller was doing when a response came back.
#[derive(Clone, Copy, Debug, PartialEq, Eq, Structural)]
pub enum Operation {
    /// Listing releases or getting one by its tag.
    FetchReleases,
    /// Searching repositories.
    SearchRepositories,
    /// Checking that a repository exists.
    ValidateRepository,
}

/// How a failed operation is worded.
pub open spec fn failure_context(op: Operation) -> Seq<char> {
    match op {
        Operation::FetchReleases => "Failed to fetch releases"@,
        Operation::SearchRepositories => "Failed to search repositories"@,
        Operation::ValidateRepository => "Failed to validate repository"@,
    }
}

/// What a response means for the operation: nothing to report on success;
/// for the check of a repository, 404 means that it is not there; any other
/// status is an API error that names the status. None of these is a
/// transport failure, so none is retried.
pub fn check_response(
    op: Operation,
    code: u16,
    status: &str,
    owner: &str,
    repo: &str,
) -> (r: Result<()>)
    ensures
        r is Ok <==> is_success(code),
        r matches Err(e) ==> !e.is_transport() && (if op == Operation::ValidateRepository && code
            == 404 {
            e matches GhrError::RepositoryNotFound { owner: o, repo: n } && o@ == owner@ && n@
                == repo@
        } else {
            e matches GhrError::GitHubApi(m) && m@ == failure_context(op) + ": HTTP "@ + status@
        }),
{
    if status_is_success(code) {
        return Ok(());
    }
    let context = match op {
        Operation::FetchReleases => "Failed to fetch releases",
        Operation::SearchRepositories => "Failed to search repositories",
        Operation::ValidateRepository => {
            if code == 404 {
                return Err(
                    GhrError::RepositoryNotFound {
                        owner: String::from_str(owner),
                        repo: String::from_str(repo),
                    },
                );
            }
            "Failed to validate repository"
        },
    };
    let mut m = String::from_str(context);
    m.append(": HTTP ");
    m.append(status);
    Err(GhrError::GitHubApi(m))
}

/// The wait before repetition number `attempt`, counted from zero: the base
/// delay, doubled once for each repetition before.
pub open spec fn backoff_delay(attempt: nat) -> nat
    decreases attempt,
{
    if attempt == 0 {
        BASE_DELAY_SECS as nat
    } else {
        2 * backoff_delay((attempt - 1) as nat)
    }
}

/// The time spent waiting over the first `retries` repetitions.
pub open spec fn total_backoff(retries: nat) -> nat
    decreases retries,
{
    if retries == 0 {
        0
    } else {
        total_backoff((retries - 1) as nat) + backoff_delay((retries - 1) as nat)
    }
}

/// What to do after a failed attempt.
#[derive(Clone, Copy, Debug, PartialEq, Eq, Structural)]
pub enum RetryDecision {
    /// Report the error.
    GiveUp,
    /// Wait that many seconds, then try again.
    RetryAfter { delay_secs: u64 },
}

/// The policy: a transport failure is retried while fewer than
/// `MAX_RETRIES` repetitions have been made; any other error, and any error
/// after the last repetition, is reported.
pub open spec fn retry_policy(transport: bool, attempts: u32) -> RetryDecision {
    if transport && attempts < MAX_RETRIES {
        RetryDecision::RetryAfter { delay_secs: backoff_delay(attempts as nat) as u64 }
    } else {
        RetryDecision::GiveUp
    }
}

/// What to do about `error` after `attempts` repetitions have been made.
pub fn retry_decision(error: &GhrError, attempts: u32) -> (d: RetryDecision)
    ensures
        d == retry_policy(error.is_transport(), attempts),
        d matches RetryDecision::RetryAfter { delay_secs } ==> delay_secs == backoff_delay(
            attempts as nat,
        ),
{
    if error.is_network() && attempts < MAX_RETRIES {
        let mut delay: u64 = BASE_DELAY_SECS;
        let mut k: u32 = 0;
        while k < attempts
            invariant
                k <= attempts < MAX_RETRIES,
                delay == backoff_delay(k as nat),
                delay <= 2 * pow2_small(k as nat),
            decreases attempts - k,
        {
            delay = delay * 2;
            k += 1;
        }
        RetryDecision::RetryAfter { delay_secs: delay }
    } else {
        RetryDecision::GiveUp
    }
}

/// Two to the power `k`, for the few `k` that the policy reaches.
pub open spec fn pow2_small(k: nat) -> nat {
    if k == 0 {
        1
    } else if k == 1 {
        2
    } else if k == 2 {
        4
    } else {
        8
    }
}

/// After `n` repetitions the waits add up to the base delay times
/// `2^n - 1`: each wait is as long as all the waits before it and the base
/// delay together.
pub proof fn law_backoff_total(n: nat)
    ensures
        total_backoff(n) + BASE_DELAY_SECS == backoff_delay(n),
    decreases n,
{
    if n > 0 {
        law_backoff_total((n - 1) as nat);
    }
}

/// An error that is no transport failure is never retried, and nothing is
/// retried once `MAX_RETRIES` repetitions have been made: an operation is
/// attempted at most `MAX_RETRIES + 1` times.
pub proof fn law_retry_bounds(transport: bool, attempts: u32)
    ensures
        !transport ==> retry_policy(transport, attempts) == RetryDecision::GiveUp,
        attempts >= MAX_RETRIES ==> retry_policy(transport, attempts) == RetryDecision::GiveUp,
        transport && attempts < MAX_RETRIES ==> retry_policy(transport, attempts)
            is RetryAfter,
{
}

/// What a name in a repository can be.
#[derive(Clone, Copy, Debug, PartialEq, Eq, Structural)]
pub enum RefKind {
    Branch,
    Tag,
    Commit,
}

/// Where the search for a reference stands.
#[derive(Clone, Copy, Debug, PartialEq, Eq, Structural)]
pub enum RefProbe {
    /// Ask whether the name is of this kind.
    Try(RefKind),
    /// The name is of this kind.
    Found(RefKind),
    /// The name is of no kind.
    NotFound,
}

/// The kind that is asked after `kind` was not it: branch, tag, commit, in
/// that order.
pub open spec fn kind_after(kind: RefKind) -> Option<RefKind> {
    match kind {
        RefKind::Branch => Some(RefKind::Tag),
        RefKind::Tag => Some(RefKind::Commit),
        RefKind::Commit => None,
    }
}

/// The step after the answer to `Try(kind)`.
pub open spec fn probe_after(kind: RefKind, success: bool) -> RefProbe {
    if success {
        RefProbe::Found(kind)
    } else {
        match kind_after(kind) {
            Some(next) => RefProbe::Try(next),
            None => RefProbe::NotFound,
        }
    }
}

/// What the search for a reference comes to where the three kinds would
/// answer as given: the first kind, in the order branch, tag, commit, that
/// answers with success.
pub open spec fn resolved_kind(branch: bool, tag: bool, commit: bool) -> Option<RefKind> {
    if branch {
        Some(RefKind::Branch)
    } else if tag {
        Some(RefKind::Tag)
    } else if commit {
        Some(RefKind::Commit)
    } else {
        None
    }
}

impl RefKind {
    /// The kind's name: `branch`, `tag` or `commit`.
    pub open spec fn label_spec(self) -> Seq<char> {
        match self {
            RefKind::Branch => "branch"@,
            RefKind::Tag => "tag"@,
            RefKind::Commit => "commit"@,
        }
    }

    /// The URL that tells whether `ref_name` is of this kind.
    pub open spec fn url_spec(self, base: Seq<char>, owner: Seq<char>, repo: Seq<char>, ref_name: Seq<char>) -> Seq<char> {
        match self {
            RefKind::Branch => repository_url(base, owner, repo) + "/branches/"@ + ref_name,
            RefKind::Tag => repository_url(base, owner, repo) + "/git/refs/tags/"@ + ref_name,
            RefKind::Commit => repository_url(base, owner, repo) + "/commits/"@ + ref_name,
        }
    }

    /// The kind's name.
    pub fn label(self) -> (r: String)
        ensures
            r@ == self.label_spec(),
    {
        match self {
            RefKind::Branch => String::from_str("branch"),
            RefKind::Tag => String::from_str("tag"),
            RefKind::Commit => String::from_str("commit"),
        }
    }

    /// The URL that tells whether `ref_name` is of this kind.
    pub fn url(self, base_url: &str, owner: &str, repo: &str, ref_name: &str) -> (r: String)
        ensures
            r@ == self.url_spec(base_url@, owner@, repo@, ref_name@),
    {
        match self {
            RefKind::Branch => endpoints::branch_with_base(base_url, owner, repo, ref_name),
            RefKind::Tag => endpoints::tag_with_base(base_url, owner, repo, ref_name),
            RefKind::Commit => endpoints::commit_with_base(base_url, owner, repo, ref_name),
        }
    }
}

/// The first step of the search for a reference: ask for a branch.
pub fn first_ref_probe() -> (p: RefProbe)
    ensures
        p == RefProbe::Try(RefKind::Branch),
{
    RefProbe::Try(RefKind::Branch)
}

/// The step after `Try(kind)` was answered with the status code `code`.
pub fn next_ref_probe(kind: RefKind, code: u16) -> (p: RefProbe)
    ensures
        p == probe_after(kind, is_success(code)),
{
    if status_is_success(code) {
        RefProbe::Found(kind)
    } else {
        match kind {
            RefKind::Branch => RefProbe::Try(RefKind::Tag),
            RefKind::Tag => RefProbe::Try(RefKind::Commit),
            RefKind::Commit => RefProbe::NotFound,
        }
    }
}

/// The error for a name that is of no kind.
pub fn ref_not_found(owner: &str, repo: &str, ref_name: &str) -> (e: GhrError)
    ensures
        e matches GhrError::RefNotFound { owner: o, repo: r, ref_name: n } && o@ == owner@ && r@
            == repo@ && n@ == ref_name@,
{
    GhrError::RefNotFound {
        owner: String::from_str(owner),
        repo: String::from_str(repo),
        ref_name: String::from_str(ref_name),
    }
}

/// Followed from its first step, the search ends with the first kind, in
/// the order branch, tag, commit, that answers with success, and with
/// `NotFound` where none does.
pub proof fn law_ref_search_order(branch: bool, tag: bool, commit: bool)
    ensures
        ({
            let first = probe_after(RefKind::Branch, branch);
            let second = match first {
                RefProbe::Try(k) => probe_after(k, tag),
                done => done,
            };
            let third = match second {
                RefProbe::Try(k) => probe_after(k, commit),
                done => done,
            };
            third == match resolved_kind(branch, tag, commit) {
                Some(k) => RefProbe::Found(k),
                None => RefProbe::NotFound,
            }
        }),
{
}

} // verus!

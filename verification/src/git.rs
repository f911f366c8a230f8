//! Repository addresses: reading what the user asked to clone, and writing
//! the URL that git is given.

use crate::auth::clone_token;
use crate::auth::extract_token_from_cli;
use crate::auth::file_view;
use crate::auth::text_of;
use crate::auth::FileRead;
use crate::cli::Cli;
use crate::errors::GhrError;
use crate::errors::Result;
use crate::models::CloneSpec;
use crate::models::CloneSpecView;
use crate::text::after_first;
use crate::text::after_last;
use crate::text::before_first;
use crate::text::concat2;
use crate::text::contains_char;
use crate::text::find_char;
use crate::text::first_index;
use crate::text::from_chars;
use crate::text::has_prefix;
use crate::text::prefix_run;
use crate::text::rfind_char;
use crate::text::starts_with;
use crate::text::strip_prefix_all;
use crate::text::strip_suffix_all;
use crate::text::suffix_cut;
use crate::text::to_chars;
use crate::text::trim;
use crate::text::trimmed;
use crate::text::trim_bounds;
use vstd::prelude::*;
use vstd::string::StringExecFns;

verus! {

/// Why a clone request cannot be read.
pub enum CloneFault {
    /// Nothing but whitespace.
    Empty,
    /// A web address of GitHub without a repository below the owner.
    InvalidHttps,
    /// An SSH address of GitHub without a repository below the owner.
    InvalidSsh,
    /// Neither an address of GitHub nor `owner/repo`.
    Unsupported,
    /// The owner or the repository name is empty.
    EmptyName,
}

/// The address part and the reference of a request. The first `:` parts
/// them, unless what stands before it holds `@` or begins with `http`: then
/// the colon belongs to the address and there is no reference.
pub open spec fn split_ref(url: Seq<char>) -> (Seq<char>, Option<Seq<char>>) {
    match first_index(url, ':') {
        Some(i) => {
            let head = url.take(i);
            if head.contains('@') || has_prefix(head, "http"@) {
                (url, None)
            } else {
                (head, Some(url.skip(i + 1)))
            }
        },
        None => (url, None),
    }
}

/// The path below the host in a web address: without the host, repeated or
/// not, and without `.git` at the end.
pub open spec fn web_path(address: Seq<char>) -> Seq<char> {
    strip_suffix_all(
        strip_prefix_all(
            strip_prefix_all(address, "https://github.com/"@),
            "http://github.com/"@,
        ),
        ".git"@,
    )
}

/// The path below the host in an SSH address.
pub open spec fn ssh_path(address: Seq<char>) -> Seq<char> {
    strip_suffix_all(strip_prefix_all(address, "git@github.com:"@), ".git"@)
}

/// The second segment of a path whose segments `/` parts.
pub open spec fn second_segment(path: Seq<char>) -> Seq<char> {
    before_first(after_first(path, '/'), '/')
}

/// Owner and repository name of an address.
pub open spec fn owner_and_repo(address: Seq<char>) -> std::result::Result<
    (Seq<char>, Seq<char>),
    CloneFault,
> {
    if has_prefix(address, "https://github.com/"@) || has_prefix(address, "http://github.com/"@) {
        let path = web_path(address);
        if path.contains('/') {
            Ok((before_first(path, '/'), second_segment(path)))
        } else {
            Err(CloneFault::InvalidHttps)
        }
    } else if has_prefix(address, "git@github.com:"@) {
        let path = ssh_path(address);
        if path.contains('/') {
            Ok((before_first(path, '/'), second_segment(path)))
        } else {
            Err(CloneFault::InvalidSsh)
        }
    } else if address.contains('/') {
        Ok((before_first(address, '/'), strip_suffix_all(second_segment(address), ".git"@)))
    } else {
        Err(CloneFault::Unsupported)
    }
}

/// What a clone request means: surrounding whitespace is dropped, the
/// reference is parted from the address, and the address gives owner and
/// repository, neither of which may be empty.
pub open spec fn clone_request(input: Seq<char>) -> std::result::Result<CloneSpecView, CloneFault> {
    let url = trim(input);
    if url.len() == 0 {
        Err(CloneFault::Empty)
    } else {
        let (address, ref_name) = split_ref(url);
        match owner_and_repo(address) {
            Err(fault) => Err(fault),
            Ok((owner, repo)) => if owner.len() == 0 || repo.len() == 0 {
                Err(CloneFault::EmptyName)
            } else {
                Ok(CloneSpecView { owner, repo, ref_name, original_url: address })
            },
        }
    }
}

/// The message that reports a fault; `address` is the request without its
/// reference.
pub open spec fn fault_message(fault: CloneFault, address: Seq<char>) -> Seq<char> {
    match fault {
        CloneFault::Empty => "Clone URL cannot be empty"@,
        CloneFault::InvalidHttps => "Invalid GitHub URL: "@ + address,
        CloneFault::InvalidSsh => "Invalid GitHub SSH URL: "@ + address,
        CloneFault::Unsupported => "Unsupported URL format: "@ + address
            + ". Use 'owner/repo', 'https://github.com/owner/repo', or 'git@github.com:owner/repo.git'"@,
        CloneFault::EmptyName => "Owner and repository name cannot be empty"@,
    }
}

/// The name that a clone gets where the request cannot be read: what follows
/// the last `/` once whitespace and `.git` are dropped, or `cloned-repo`
/// where nothing follows.
pub open spec fn fallback_repo_name(input: Seq<char>) -> Seq<char> {
    let last = after_last(strip_suffix_all(trim(input), ".git"@), '/');
    if last.len() > 0 {
        last
    } else {
        "cloned-repo"@
    }
}

/// The repository name that a request stands for.
pub open spec fn repo_name(input: Seq<char>) -> Seq<char> {
    match clone_request(input) {
        Ok(spec) => spec.repo,
        Err(_) => fallback_repo_name(input),
    }
}

/// The URL handed to git, with the token as the user part where there is
/// one.
pub open spec fn clone_url(owner: Seq<char>, repo: Seq<char>, token: Option<Seq<char>>) -> Seq<
    char,
> {
    match token {
        Some(t) => "https://"@ + t + "@github.com/"@ + owner + "/"@ + repo + ".git"@,
        None => "https://github.com/"@ + owner + "/"@ + repo + ".git"@,
    }
}

/// First and second segment of a path that holds a `/`.
fn two_segments(path: &[char]) -> (r: Option<(String, String)>)
    ensures
        r is Some <==> path@.contains('/'),
        r matches Some((a, b)) ==> a@ == before_first(path@, '/') && b@ == second_segment(path@),
{
    let n = path.len();
    match find_char(path, '/') {
        None => None,
        Some(i) => {
            let first = &path[0..i];
            let rest = &path[i + 1..n];
            let second = match find_char(rest, '/') {
                Some(j) => &rest[0..j],
                None => rest,
            };
            Some((from_chars(first), from_chars(second)))
        },
    }
}

/// Owner and repository name of an address, or the fault with its message.
fn read_address(address: &[char]) -> (r: std::result::Result<(String, String), GhrError>)
    ensures
        match r {
            Ok((owner, repo)) => owner_and_repo(address@) == Ok::<
                (Seq<char>, Seq<char>),
                CloneFault,
            >((owner@, repo@)),
            Err(e) => owner_and_repo(address@) matches Err(fault) && e matches GhrError::Generic(
                m,
            ) && m@ == fault_message(fault, address@),
        },
{
    proof {
        reveal_strlit("https://github.com/");
        reveal_strlit("http://github.com/");
        reveal_strlit("git@github.com:");
        reveal_strlit(".git");
    }
    let https = to_chars("https://github.com/");
    let http = to_chars("http://github.com/");
    let ssh = to_chars("git@github.com:");
    let git = to_chars(".git");
    let n = address.len();
    if starts_with(address, https.as_slice()) || starts_with(address, http.as_slice()) {
        let k1 = prefix_run(address, https.as_slice());
        let p1 = &address[k1..n];
        let k2 = prefix_run(p1, http.as_slice());
        let p2 = &p1[k2..p1.len()];
        let k3 = suffix_cut(p2, git.as_slice());
        let path = &p2[0..k3];
        assert(path@ == web_path(address@));
        match two_segments(path) {
            Some(pair) => Ok(pair),
            None => Err(
                GhrError::Generic(concat2("Invalid GitHub URL: ", from_chars(address).as_str())),
            ),
        }
    } else if starts_with(address, ssh.as_slice()) {
        let k1 = prefix_run(address, ssh.as_slice());
        let p1 = &address[k1..n];
        let k2 = suffix_cut(p1, git.as_slice());
        let path = &p1[0..k2];
        assert(path@ == ssh_path(address@));
        match two_segments(path) {
            Some(pair) => Ok(pair),
            None => Err(
                GhrError::Generic(
                    concat2("Invalid GitHub SSH URL: ", from_chars(address).as_str()),
                ),
            ),
        }
    } else {
        match two_segments(address) {
            Some((owner, repo)) => {
                let r = to_chars(repo.as_str());
                let k = suffix_cut(r.as_slice(), git.as_slice());
                let name = from_chars(&r.as_slice()[0..k]);
                Ok((owner, name))
            },
            None => {
                let mut m = concat2("Unsupported URL format: ", from_chars(address).as_str());
                m.append(
                    ". Use 'owner/repo', 'https://github.com/owner/repo', or 'git@github.com:owner/repo.git'",
                );
                Err(GhrError::Generic(m))
            },
        }
    }
}

/// Reads a clone request: an address of GitHub or `owner/repo`, with an
/// optional `:reference` behind the short form.
pub fn parse_clone_url(url: &str) -> (r: Result<CloneSpec>)
    ensures
        match r {
            Ok(spec) => clone_request(url@) == Ok::<CloneSpecView, CloneFault>(spec@),
            Err(e) => clone_request(url@) matches Err(fault) && e matches GhrError::Generic(m)
                && m@ == fault_message(fault, split_ref(trim(url@)).0),
        },
{
    let all = to_chars(url);
    let (a, b) = trim_bounds(all.as_slice());
    let t = &all.as_slice()[a..b];
    assert(t@ == trim(url@));
    if t.len() == 0 {
        return Err(GhrError::generic("Clone URL cannot be empty"));
    }
    let http = to_chars("http");
    let mut address: &[char] = t;
    let mut ref_name: Option<String> = None;
    match find_char(t, ':') {
        Some(i) => {
            let head = &t[0..i];
            if !(contains_char(head, '@') || starts_with(head, http.as_slice())) {
                address = head;
                ref_name = Some(from_chars(&t[i + 1..t.len()]));
            }
        },
        None => {},
    }
    assert(address@ == split_ref(t@).0);
    assert(match ref_name {
        Some(r) => split_ref(t@).1 == Some(r@),
        None => split_ref(t@).1 is None,
    });
    match read_address(address) {
        Err(e) => Err(e),
        Ok((owner, repo)) => {
            if owner.as_str().unicode_len() == 0 || repo.as_str().unicode_len() == 0 {
                Err(GhrError::generic("Owner and repository name cannot be empty"))
            } else {
                Ok(CloneSpec { owner, repo, ref_name, original_url: from_chars(address) })
            }
        },
    }
}

/// The directory name that a clone of `url` gets by default.
pub fn get_repo_name(url: &str) -> (r: String)
    ensures
        r@ == repo_name(url@),
{
    match parse_clone_url(url) {
        Ok(spec) => spec.repo,
        Err(_) => {
            proof {
                reveal_strlit(".git");
            }
            let all = to_chars(url);
            let (a, b) = trim_bounds(all.as_slice());
            let t = &all.as_slice()[a..b];
            let git = to_chars(".git");
            let k = suffix_cut(t, git.as_slice());
            let u = &t[0..k];
            let last = match rfind_char(u, '/') {
                Some(i) => &u[i + 1..u.len()],
                None => u,
            };
            if last.len() > 0 {
                from_chars(last)
            } else {
                String::from_str("cloned-repo")
            }
        },
    }
}

/// The URL that git clones from.
pub fn construct_clone_url(owner: &str, repo: &str, token: Option<&str>) -> (r: String)
    ensures
        r@ == clone_url(
            owner@,
            repo@,
            match token {
                Some(t) => Some(t@),
                None => None,
            },
        ),
{
    let mut s = String::from_str("https://");
    match token {
        Some(t) => {
            s.append(t);
            s.append("@github.com/");
        },
        None => {
            s.append("github.com/");
            proof {
                reveal_strlit("https://");
                reveal_strlit("github.com/");
                reveal_strlit("https://github.com/");
                assert("https://"@ + "github.com/"@ =~= "https://github.com/"@);
            }
        },
    }
    s.append(owner);
    s.append("/");
    s.append(repo);
    s.append(".git");
    s
}

/// The token of an invocation, for use in a clone URL.
pub fn extract_token_for_clone(cli: &Cli, token_file: Option<FileRead>, netrc: Option<&str>) -> (r:
    Option<String>)
    ensures
        text_of(r) == clone_token(
            text_of(cli.token),
            file_view(token_file),
            match netrc {
                Some(n) => Some(n@),
                None => None,
            },
        ),
{
    extract_token_from_cli(cli, token_file, netrc)
}

/// What running `git --version` showed: whether it could be run at all,
/// and whether it then succeeded.
pub fn check_git_installed(ran: bool, succeeded: bool) -> (r: Result<()>)
    ensures
        r is Ok <==> ran && succeeded,
        !ran ==> (r matches Err(e) && e is GitNotInstalled),
        ran && !succeeded ==> (r matches Err(e) && (e matches GhrError::GitCommand(m) && m@
            == "Git command failed. Please ensure git is properly installed."@)),
{
    if !ran {
        Err(GhrError::GitNotInstalled)
    } else if succeeded {
        Ok(())
    } else {
        Err(
            GhrError::GitCommand(
                String::from_str("Git command failed. Please ensure git is properly installed."),
            ),
        )
    }
}

/// Where a clone stands.
#[derive(Clone, Copy, Debug, PartialEq, Eq, Structural)]
pub enum ClonePhase {
    /// Looking whether the target directory exists.
    Checking,
    /// `git clone` is running.
    Cloning,
    /// `git checkout` is running.
    CheckingOut,
}

/// What the caller reports back.
#[derive(Debug)]
pub enum CloneEvent {
    /// The target directory exists already.
    TargetExists,
    /// The target directory does not exist.
    TargetFree,
    /// The command ran and succeeded.
    Succeeded,
    /// The command ran and failed, with this on its error output.
    Failed { stderr: String },
    /// The command could not be run, for this reason.
    NotRun { error: String },
}

/// What the caller does next.
#[derive(Debug)]
pub enum CloneAction {
    /// Run git with these arguments; the clone is then in `phase`.
    Run { phase: ClonePhase, args: Vec<String> },
    /// Stop with this error, after deleting the target directory where
    /// `cleanup` says so.
    Fail { cleanup: bool, error: GhrError },
    /// The clone is complete.
    Finish,
}

/// An event as the contracts see it.
pub enum CloneEventView {
    TargetExists,
    TargetFree,
    Succeeded,
    Failed { stderr: Seq<char> },
    NotRun { error: Seq<char> },
}

impl View for CloneEvent {
    type V = CloneEventView;

    open spec fn view(&self) -> CloneEventView {
        match self {
            CloneEvent::TargetExists => CloneEventView::TargetExists,
            CloneEvent::TargetFree => CloneEventView::TargetFree,
            CloneEvent::Succeeded => CloneEventView::Succeeded,
            CloneEvent::Failed { stderr } => CloneEventView::Failed { stderr: stderr@ },
            CloneEvent::NotRun { error } => CloneEventView::NotRun { error: error@ },
        }
    }
}

/// What the next step of a clone is, as the contracts see it. An error is
/// given by its message.
pub enum CloneActionView {
    Run { phase: ClonePhase, args: Seq<Seq<char>> },
    Fail { cleanup: bool, message: Seq<char> },
    Finish,
}

/// The arguments of `git clone`.
pub open spec fn clone_args(url: Seq<char>, dir: Seq<char>) -> Seq<Seq<char>> {
    seq!["clone"@, url, dir]
}

/// The arguments of `git checkout` inside the clone.
pub open spec fn checkout_args(dir: Seq<char>, ref_name: Seq<char>) -> Seq<Seq<char>> {
    seq!["-C"@, dir, "checkout"@, ref_name]
}

/// The step that follows an event.
///
/// A clone is refused where its target exists. Else `git clone` runs, and
/// after it `git checkout` where a reference was asked for. A command that
/// ran and failed leaves a partial clone behind, which is deleted before
/// the error is reported; a command that could not be run leaves nothing.
/// An event that a phase does not expect ends the clone with an error and
/// touches nothing.
pub open spec fn clone_step(
    phase: ClonePhase,
    event: CloneEventView,
    url: Seq<char>,
    dir: Seq<char>,
    ref_name: Option<Seq<char>>,
) -> CloneActionView {
    match (phase, event) {
        (ClonePhase::Checking, CloneEventView::TargetExists) => CloneActionView::Fail {
            cleanup: false,
            message: "Directory '"@ + dir
                + "' already exists. Please remove it or choose a different name."@,
        },
        (ClonePhase::Checking, CloneEventView::TargetFree) => CloneActionView::Run {
            phase: ClonePhase::Cloning,
            args: clone_args(url, dir),
        },
        (ClonePhase::Cloning, CloneEventView::Succeeded) => match ref_name {
            Some(r) => CloneActionView::Run {
                phase: ClonePhase::CheckingOut,
                args: checkout_args(dir, r),
            },
            None => CloneActionView::Finish,
        },
        (ClonePhase::Cloning, CloneEventView::Failed { stderr }) => CloneActionView::Fail {
            cleanup: true,
            message: "Git clone failed: "@ + trim(stderr),
        },
        (ClonePhase::Cloning, CloneEventView::NotRun { error }) => CloneActionView::Fail {
            cleanup: false,
            message: "Failed to execute git clone: "@ + error,
        },
        (ClonePhase::CheckingOut, CloneEventView::Succeeded) => CloneActionView::Finish,
        (ClonePhase::CheckingOut, CloneEventView::Failed { stderr }) => CloneActionView::Fail {
            cleanup: true,
            message: "Git checkout failed: "@ + trim(stderr),
        },
        (ClonePhase::CheckingOut, CloneEventView::NotRun { error }) => CloneActionView::Fail {
            cleanup: false,
            message: "Failed to execute git checkout: "@ + error,
        },
        _ => CloneActionView::Fail { cleanup: false, message: "Unexpected git event"@ },
    }
}

impl CloneAction {
    /// The action as the contracts see it, where its error is a failed git
    /// command.
    pub open spec fn view_of(&self) -> Option<CloneActionView> {
        match self {
            CloneAction::Run { phase, args } => Some(
                CloneActionView::Run { phase: *phase, args: args@.map_values(|a: String| a@) },
            ),
            CloneAction::Fail { cleanup, error: GhrError::GitCommand(m) } => Some(
                CloneActionView::Fail { cleanup: *cleanup, message: m@ },
            ),
            CloneAction::Fail { .. } => None,
            CloneAction::Finish => Some(CloneActionView::Finish),
        }
    }
}

/// `message` followed by `detail`, as a failed git command.
fn git_failure(cleanup: bool, message: &str, detail: &str) -> (r: CloneAction)
    ensures
        r.view_of() == Some(CloneActionView::Fail { cleanup, message: message@ + detail@ }),
{
    CloneAction::Fail { cleanup, error: GhrError::GitCommand(concat2(message, detail)) }
}

/// The end of a clone on an event that its phase does not expect.
fn unexpected_event() -> (r: CloneAction)
    ensures
        r.view_of() == Some(
            CloneActionView::Fail { cleanup: false, message: "Unexpected git event"@ },
        ),
{
    CloneAction::Fail {
        cleanup: false,
        error: GhrError::GitCommand(String::from_str("Unexpected git event")),
    }
}

/// The first step of a clone: look whether the target directory exists.
pub fn begin_git_clone() -> (phase: ClonePhase)
    ensures
        phase == ClonePhase::Checking,
{
    ClonePhase::Checking
}

/// The step of a clone that follows `event`, for a clone of `clone_url`
/// into `target_dir` that is to end on `ref_name`.
pub fn execute_git_clone(
    phase: ClonePhase,
    event: &CloneEvent,
    clone_url: &str,
    target_dir: &str,
    ref_name: Option<&str>,
) -> (action: CloneAction)
    ensures
        action.view_of() == Some(
            clone_step(
                phase,
                event@,
                clone_url@,
                target_dir@,
                match ref_name {
                    Some(r) => Some(r@),
                    None => None,
                },
            ),
        ),
{
    match phase {
        ClonePhase::Checking => match event {
            CloneEvent::TargetExists => {
                let mut m = concat2("Directory '", target_dir);
                m.append("' already exists. Please remove it or choose a different name.");
                CloneAction::Fail { cleanup: false, error: GhrError::GitCommand(m) }
            },
            CloneEvent::TargetFree => {
                let mut args: Vec<String> = Vec::new();
                args.push(String::from_str("clone"));
                args.push(String::from_str(clone_url));
                args.push(String::from_str(target_dir));
                assert(args@.map_values(|a: String| a@) =~= clone_args(clone_url@, target_dir@));
                CloneAction::Run { phase: ClonePhase::Cloning, args }
            },
            _ => unexpected_event(),
        },
        ClonePhase::Cloning => match event {
            CloneEvent::Succeeded => match ref_name {
                Some(r) => {
                    let mut args: Vec<String> = Vec::new();
                    args.push(String::from_str("-C"));
                    args.push(String::from_str(target_dir));
                    args.push(String::from_str("checkout"));
                    args.push(String::from_str(r));
                    assert(args@.map_values(|a: String| a@) =~= checkout_args(target_dir@, r@));
                    CloneAction::Run { phase: ClonePhase::CheckingOut, args }
                },
                None => CloneAction::Finish,
            },
            CloneEvent::Failed { stderr } => git_failure(
                true,
                "Git clone failed: ",
                trimmed(stderr.as_str()).as_str(),
            ),
            CloneEvent::NotRun { error } => git_failure(
                false,
                "Failed to execute git clone: ",
                error.as_str(),
            ),
            _ => unexpected_event(),
        },
        ClonePhase::CheckingOut => match event {
            CloneEvent::Succeeded => CloneAction::Finish,
            CloneEvent::Failed { stderr } => git_failure(
                true,
                "Git checkout failed: ",
                trimmed(stderr.as_str()).as_str(),
            ),
            CloneEvent::NotRun { error } => git_failure(
                false,
                "Failed to execute git checkout: ",
                error.as_str(),
            ),
            _ => unexpected_event(),
        },
    }
}

/// Whether the target directory is deleted before a clone stops: exactly
/// after a git command that ran and failed.
pub open spec fn cleans_up(phase: ClonePhase, event: CloneEventView) -> bool {
    phase != ClonePhase::Checking && event is Failed
}

/// Whether a partial clone is to be deleted after `event`.
pub fn cleanup_partial_clone(phase: ClonePhase, event: &CloneEvent) -> (b: bool)
    ensures
        b == cleans_up(phase, event@),
{
    match phase {
        ClonePhase::Checking => false,
        _ => match event {
            CloneEvent::Failed { .. } => true,
            _ => false,
        },
    }
}

/// A clone deletes its target directory exactly where `cleans_up` says so.
pub proof fn law_cleanup_only_after_failed_command(
    phase: ClonePhase,
    event: CloneEventView,
    url: Seq<char>,
    dir: Seq<char>,
    ref_name: Option<Seq<char>>,
)
    ensures
        (clone_step(phase, event, url, dir, ref_name) matches CloneActionView::Fail {
            cleanup,
            ..
        } && cleanup) <==> cleans_up(phase, event),
{
}

} // verus!

use gh_release::constants::endpoints::{
    branch, branch_with_base, commit, commit_with_base, release_by_tag, release_by_tag_with_base,
    releases, releases_with_base, repository, repository_with_base, search_repositories,
    search_repositories_with_base, tag, tag_with_base, tags, tags_with_base,
};
use gh_release::constants::headers::{ACCEPT_API_V3, ACCEPT_OCTET_STREAM};
use gh_release::constants::retry::{BASE_DELAY_SECS, MAX_RETRIES};
use gh_release::constants::{
    DEFAULT_CONCURRENCY, DEFAULT_NUM_RELEASES, GITHUB_API_BASE, GITHUB_API_VERSION, USER_AGENT,
};

const BASE: &str = "https://ghe.example.com/api/v3";

#[test]
fn constants_have_their_values() {
    assert_eq!(GITHUB_API_BASE, "https://api.github.com");
    assert_eq!(GITHUB_API_VERSION, "2022-11-28");
    assert!(USER_AGENT.starts_with("ghr/"));
    assert_eq!(DEFAULT_CONCURRENCY, 5);
    assert_eq!(DEFAULT_NUM_RELEASES, 10);
    assert_eq!(ACCEPT_API_V3, "application/vnd.github.v3+json");
    assert_eq!(ACCEPT_OCTET_STREAM, "application/octet-stream");
    assert_eq!(MAX_RETRIES, 3);
    assert_eq!(BASE_DELAY_SECS, 2);
}

#[test]
fn release_endpoints() {
    assert_eq!(
        releases("o", "r"),
        "https://api.github.com/repos/o/r/releases"
    );
    assert_eq!(
        releases_with_base(BASE, "o", "r"),
        "https://ghe.example.com/api/v3/repos/o/r/releases"
    );
    assert_eq!(
        release_by_tag("o", "r", "v1.0"),
        "https://api.github.com/repos/o/r/releases/tags/v1.0"
    );
    assert_eq!(
        release_by_tag_with_base(BASE, "o", "r", "v1.0"),
        "https://ghe.example.com/api/v3/repos/o/r/releases/tags/v1.0"
    );
}

#[test]
fn repository_endpoints() {
    assert_eq!(repository("o", "r"), "https://api.github.com/repos/o/r");
    assert_eq!(
        repository_with_base(BASE, "o", "r"),
        "https://ghe.example.com/api/v3/repos/o/r"
    );
    assert_eq!(repository_with_base("", "", ""), "/repos//");
}

#[test]
fn reference_endpoints() {
    assert_eq!(
        branch("o", "r", "main"),
        "https://api.github.com/repos/o/r/branches/main"
    );
    assert_eq!(
        branch_with_base(BASE, "o", "r", "feature/x"),
        "https://ghe.example.com/api/v3/repos/o/r/branches/feature/x"
    );
    assert_eq!(
        tag("o", "r", "v1"),
        "https://api.github.com/repos/o/r/git/refs/tags/v1"
    );
    assert_eq!(
        tag_with_base(BASE, "o", "r", "v1"),
        "https://ghe.example.com/api/v3/repos/o/r/git/refs/tags/v1"
    );
    assert_eq!(
        commit("o", "r", "abc"),
        "https://api.github.com/repos/o/r/commits/abc"
    );
    assert_eq!(
        commit_with_base(BASE, "o", "r", "abc"),
        "https://ghe.example.com/api/v3/repos/o/r/commits/abc"
    );
}

#[test]
fn tag_list_endpoints() {
    assert_eq!(
        tags("o", "r", 30),
        "https://api.github.com/repos/o/r/tags?per_page=30"
    );
    assert_eq!(
        tags_with_base(BASE, "o", "r", 0),
        "https://ghe.example.com/api/v3/repos/o/r/tags?per_page=0"
    );
    assert_eq!(
        tags("o", "r", usize::MAX),
        format!("https://api.github.com/repos/o/r/tags?per_page={}", usize::MAX)
    );
}

#[test]
fn search_endpoint_encodes_its_query() {
    assert_eq!(
        search_repositories("docker in:name,description", 10),
        "https://api.github.com/search/repositories?q=docker%20in%3Aname%2Cdescription&sort=stars&order=desc&per_page=10"
    );
    assert_eq!(
        search_repositories_with_base(BASE, "a-b_c.d~e", 1),
        "https://ghe.example.com/api/v3/search/repositories?q=a-b_c.d~e&sort=stars&order=desc&per_page=1"
    );
    assert_eq!(
        search_repositories_with_base(BASE, "é/?&=", 100),
        "https://ghe.example.com/api/v3/search/repositories?q=%C3%A9%2F%3F%26%3D&sort=stars&order=desc&per_page=100"
    );
    assert_eq!(
        search_repositories("", 5),
        "https://api.github.com/search/repositories?q=&sort=stars&order=desc&per_page=5"
    );
}

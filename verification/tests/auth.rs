use gh_release::auth::{add_auth_header, extract_token_from_cli, find_netrc_password, FileRead};
use gh_release::cli::{Cli, OutputFormat};
use gh_release::errors::GhrError;
use gh_release::git::extract_token_for_clone;

fn cli(token: Option<&str>, token_file: Option<&str>) -> Cli {
    Cli {
        repo: None,
        token: token.map(|t| t.to_string()),
        token_file: token_file.map(|t| t.to_string()),
        download: None,
        filter: None,
        search: None,
        info: None,
        num: 10,
        concurrency: 5,
        clone: None,
        directory: None,
        dry_run: false,
        format: OutputFormat::Table,
        api_url: "https://api.github.com".to_string(),
        cache: false,
        verbose: 0,
    }
}

const NETRC: &str = "machine example.com\n  login me\n  password wrong\nmachine github.com\n  login me\n  password s3cret\nmachine other.org\n  password other\n";

#[test]
fn netrc_gives_the_password_for_github() {
    assert_eq!(find_netrc_password(NETRC), Some("s3cret".to_string()));
}

#[test]
fn netrc_without_github_gives_nothing() {
    assert_eq!(
        find_netrc_password("machine example.com\npassword x\n"),
        None
    );
    assert_eq!(find_netrc_password(""), None);
    assert_eq!(find_netrc_password("password x\n"), None);
}

#[test]
fn netrc_search_ends_with_the_entry() {
    let text = "machine github.com\n  login me\nmachine github.com\n  password late\n";
    assert_eq!(find_netrc_password(text), None);
    let text = "machine github.com\nmachine other\npassword x\n";
    assert_eq!(find_netrc_password(text), None);
}

#[test]
fn netrc_lines_may_be_indented_and_end_in_carriage_returns() {
    let text = "\tmachine api.github.com\r\n\t\tpassword   tok   extra\r\n";
    assert_eq!(find_netrc_password(text), Some("tok".to_string()));
}

#[test]
fn netrc_password_line_without_a_password_is_passed_over() {
    let text = "machine github.com\npassword\npassword real\n";
    assert_eq!(find_netrc_password(text), Some("real".to_string()));
}

#[test]
fn netrc_match_is_case_sensitive() {
    assert_eq!(
        find_netrc_password("machine GitHub.com\npassword x\n"),
        None
    );
    assert_eq!(
        find_netrc_password("Machine github.com\npassword x\n"),
        None
    );
}

#[test]
fn a_token_on_the_command_line_goes_first() {
    let value = add_auth_header(
        &cli(Some("  abc  "), Some("f")),
        Some(FileRead::Content("from-file".to_string())),
        Some(NETRC),
    )
    .unwrap();
    assert_eq!(value, "Bearer abc");
}

#[test]
fn a_token_file_goes_before_netrc() {
    let value = add_auth_header(
        &cli(None, Some("f")),
        Some(FileRead::Content("from-file\n".to_string())),
        Some(NETRC),
    )
    .unwrap();
    assert_eq!(value, "Bearer from-file");
}

#[test]
fn an_unreadable_token_file_is_an_error() {
    match add_auth_header(
        &cli(None, Some("f")),
        Some(FileRead::Failed("No such file".to_string())),
        Some(NETRC),
    ) {
        Err(GhrError::Auth(message)) => {
            assert_eq!(message, "Failed to read token file: No such file")
        }
        other => panic!("Expected Auth, got {:?}", other),
    }
}

#[test]
fn netrc_is_the_last_resort() {
    let value = add_auth_header(&cli(None, None), None, Some(NETRC)).unwrap();
    assert_eq!(value, "Bearer s3cret");
}

#[test]
fn no_credential_is_an_error() {
    for netrc in [None, Some("machine example.com\npassword x\n")] {
        match add_auth_header(&cli(None, None), None, netrc) {
            Err(GhrError::Auth(message)) => {
                assert_eq!(message, "No authentication method provided")
            }
            other => panic!("Expected Auth, got {:?}", other),
        }
    }
}

#[test]
fn a_token_that_cannot_be_a_header_is_refused() {
    match add_auth_header(&cli(Some("a\nb"), None), None, None) {
        Err(GhrError::InvalidHeaderValue(_)) => {}
        other => panic!("Expected InvalidHeaderValue, got {:?}", other),
    }
    match add_auth_header(&cli(Some("a\u{7f}b"), None), None, None) {
        Err(e) => assert!(e.message().starts_with("Invalid header value: ")),
        Ok(v) => panic!("Expected an error, got {:?}", v),
    }
    assert_eq!(
        add_auth_header(&cli(Some("a\tb"), None), None, None).unwrap(),
        "Bearer a\tb"
    );
    assert_eq!(
        add_auth_header(&cli(Some("tök"), None), None, None).unwrap(),
        "Bearer tök"
    );
}

#[test]
fn the_clone_token_is_taken_as_it_is() {
    assert_eq!(
        extract_token_from_cli(&cli(Some(" abc "), None), None, Some(NETRC)),
        Some(" abc ".to_string())
    );
    assert_eq!(
        extract_token_from_cli(
            &cli(None, Some("f")),
            Some(FileRead::Content(" t \n".to_string())),
            Some(NETRC)
        ),
        Some("t".to_string())
    );
    assert_eq!(
        extract_token_from_cli(
            &cli(None, Some("f")),
            Some(FileRead::Failed("gone".to_string())),
            Some(NETRC)
        ),
        Some("s3cret".to_string())
    );
    assert_eq!(extract_token_from_cli(&cli(None, None), None, None), None);
    assert_eq!(
        extract_token_for_clone(&cli(None, None), None, Some(NETRC)),
        Some("s3cret".to_string())
    );
}

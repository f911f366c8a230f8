use gh_release::cli::{Cli, LogLevel, Mode, OutputFormat};
use gh_release::errors::GhrError;

fn cli() -> Cli {
    Cli {
        repo: None,
        token: None,
        token_file: None,
        download: None,
        filter: None,
        search: None,
        info: None,
        num: 10,
        concurrency: 5,
        clone: None,
        directory: None,
        dry_run: false,
        format: OutputFormat::default(),
        api_url: "https://api.github.com".to_string(),
        cache: false,
        verbose: 0,
    }
}

#[test]
fn tables_are_the_default() {
    assert_eq!(OutputFormat::default(), OutputFormat::Table);
}

#[test]
fn an_invocation_without_a_subject_has_no_mode() {
    let mut c = cli();
    c.download = Some("latest".to_string());
    match c.select_mode() {
        Err(GhrError::MissingArgument(message)) => assert_eq!(
            message,
            "Either --repo, --search, or --clone must be provided. Use --help for more information."
        ),
        other => panic!("Expected MissingArgument, got {:?}", other),
    }
}

#[test]
fn modes_in_their_order() {
    let mut c = cli();
    c.repo = Some("o/r".to_string());
    assert_eq!(c.select_mode().unwrap(), Mode::List);
    c.info = Some("v1".to_string());
    assert_eq!(c.select_mode().unwrap(), Mode::Info);
    c.download = Some("latest".to_string());
    assert_eq!(c.select_mode().unwrap(), Mode::Download);
    c.search = Some("x".to_string());
    assert_eq!(c.select_mode().unwrap(), Mode::Search);
    c.clone = Some("o/r".to_string());
    assert_eq!(c.select_mode().unwrap(), Mode::Clone);
    let mut only_search = cli();
    only_search.search = Some("x".to_string());
    assert_eq!(only_search.select_mode().unwrap(), Mode::Search);
}

#[test]
fn verbosity_sets_the_log_level() {
    let mut c = cli();
    assert_eq!(c.log_level(), LogLevel::Info);
    c.verbose = 1;
    assert_eq!(c.log_level(), LogLevel::Debug);
    c.verbose = 2;
    assert_eq!(c.log_level(), LogLevel::Trace);
    c.verbose = 3;
    assert_eq!(c.log_level(), LogLevel::Info);
}

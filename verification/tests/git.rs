use gh_release::errors::GhrError;
use gh_release::git::{
    begin_git_clone, check_git_installed, cleanup_partial_clone, construct_clone_url,
    execute_git_clone, get_repo_name, parse_clone_url, CloneAction, CloneEvent, ClonePhase,
};

#[test]
fn git_test_parse_clone_url_https() {
    let spec = parse_clone_url("https://github.com/owner/repo").unwrap();
    assert_eq!(spec.owner, "owner");
    assert_eq!(spec.repo, "repo");
    assert_eq!(spec.ref_name, None);
}

#[test]
fn git_test_parse_clone_url_https_with_git() {
    let spec = parse_clone_url("https://github.com/owner/repo.git").unwrap();
    assert_eq!(spec.owner, "owner");
    assert_eq!(spec.repo, "repo");
    assert_eq!(spec.ref_name, None);
}

#[test]
fn git_test_parse_clone_url_ssh() {
    let spec = parse_clone_url("git@github.com:owner/repo.git").unwrap();
    assert_eq!(spec.owner, "owner");
    assert_eq!(spec.repo, "repo");
    assert_eq!(spec.ref_name, None);
}

#[test]
fn git_test_parse_clone_url_short_format() {
    let spec = parse_clone_url("owner/repo").unwrap();
    assert_eq!(spec.owner, "owner");
    assert_eq!(spec.repo, "repo");
    assert_eq!(spec.ref_name, None);
}

#[test]
fn git_test_parse_clone_url_with_ref() {
    let spec = parse_clone_url("owner/repo:main").unwrap();
    assert_eq!(spec.owner, "owner");
    assert_eq!(spec.repo, "repo");
    assert_eq!(spec.ref_name, Some("main".to_string()));
}

#[test]
fn git_test_parse_clone_url_with_branch() {
    let spec = parse_clone_url("saimizi/gh_release:feature/new-feature").unwrap();
    assert_eq!(spec.owner, "saimizi");
    assert_eq!(spec.repo, "gh_release");
    assert_eq!(spec.ref_name, Some("feature/new-feature".to_string()));
}

#[test]
fn git_test_parse_clone_url_with_tag() {
    let spec = parse_clone_url("owner/repo:v1.2.3").unwrap();
    assert_eq!(spec.owner, "owner");
    assert_eq!(spec.repo, "repo");
    assert_eq!(spec.ref_name, Some("v1.2.3".to_string()));
}

#[test]
fn git_test_parse_clone_url_invalid_empty() {
    let result = parse_clone_url("");
    assert!(result.is_err());
    assert!(result.unwrap_err().message().contains("empty"));
}

#[test]
fn git_test_parse_clone_url_invalid_format() {
    let result = parse_clone_url("invalid");
    assert!(result.is_err());
}

#[test]
fn git_test_get_repo_name_https() {
    assert_eq!(get_repo_name("https://github.com/owner/my-repo"), "my-repo");
}

#[test]
fn git_test_get_repo_name_https_with_git() {
    assert_eq!(get_repo_name("https://github.com/owner/repo.git"), "repo");
}

#[test]
fn git_test_get_repo_name_short() {
    assert_eq!(get_repo_name("owner/my-repo"), "my-repo");
}

#[test]
fn git_test_get_repo_name_ssh() {
    assert_eq!(get_repo_name("git@github.com:owner/repo.git"), "repo");
}

#[test]
fn git_test_get_repo_name_with_ref() {
    assert_eq!(get_repo_name("owner/repo:main"), "repo");
}

#[test]
fn main_test_parse_clone_url_https() {
    let spec = parse_clone_url("https://github.com/owner/repo").unwrap();
    assert_eq!(spec.owner, "owner");
    assert_eq!(spec.repo, "repo");
    assert_eq!(spec.ref_name, None);
}

#[test]
fn main_test_parse_clone_url_https_with_git() {
    let spec = parse_clone_url("https://github.com/owner/repo.git").unwrap();
    assert_eq!(spec.owner, "owner");
    assert_eq!(spec.repo, "repo");
    assert_eq!(spec.ref_name, None);
}

#[test]
fn main_test_parse_clone_url_ssh() {
    let spec = parse_clone_url("git@github.com:owner/repo.git").unwrap();
    assert_eq!(spec.owner, "owner");
    assert_eq!(spec.repo, "repo");
    assert_eq!(spec.ref_name, None);
}

#[test]
fn main_test_parse_clone_url_short_format() {
    let spec = parse_clone_url("owner/repo").unwrap();
    assert_eq!(spec.owner, "owner");
    assert_eq!(spec.repo, "repo");
    assert_eq!(spec.ref_name, None);
}

#[test]
fn main_test_parse_clone_url_with_ref() {
    let spec = parse_clone_url("owner/repo:main").unwrap();
    assert_eq!(spec.owner, "owner");
    assert_eq!(spec.repo, "repo");
    assert_eq!(spec.ref_name, Some("main".to_string()));
}

#[test]
fn main_test_parse_clone_url_with_branch() {
    let spec = parse_clone_url("saimizi/gh_release:feature/new-feature").unwrap();
    assert_eq!(spec.owner, "saimizi");
    assert_eq!(spec.repo, "gh_release");
    assert_eq!(spec.ref_name, Some("feature/new-feature".to_string()));
}

#[test]
fn main_test_parse_clone_url_with_tag() {
    let spec = parse_clone_url("owner/repo:v1.2.3").unwrap();
    assert_eq!(spec.owner, "owner");
    assert_eq!(spec.repo, "repo");
    assert_eq!(spec.ref_name, Some("v1.2.3".to_string()));
}

#[test]
fn main_test_parse_clone_url_invalid_empty() {
    let result = parse_clone_url("");
    assert!(result.is_err());
    assert!(result.unwrap_err().message().contains("empty"));
}

#[test]
fn main_test_parse_clone_url_invalid_format() {
    let result = parse_clone_url("invalid");
    assert!(result.is_err());
}

#[test]
fn main_test_get_repo_name_https() {
    assert_eq!(get_repo_name("https://github.com/owner/my-repo"), "my-repo");
}

#[test]
fn main_test_get_repo_name_https_with_git() {
    assert_eq!(get_repo_name("https://github.com/owner/repo.git"), "repo");
}

#[test]
fn main_test_get_repo_name_short() {
    assert_eq!(get_repo_name("owner/my-repo"), "my-repo");
}

#[test]
fn main_test_get_repo_name_ssh() {
    assert_eq!(get_repo_name("git@github.com:owner/repo.git"), "repo");
}

#[test]
fn main_test_get_repo_name_with_ref() {
    assert_eq!(get_repo_name("owner/repo:main"), "repo");
}

#[test]
fn test_construct_clone_url() {
    let url = construct_clone_url("owner", "repo", Some("token123"));
    assert_eq!(url, "https://token123@github.com/owner/repo.git");

    let url = construct_clone_url("owner", "repo", None);
    assert_eq!(url, "https://github.com/owner/repo.git");
}

fn message_of(result: Result<gh_release::models::CloneSpec, GhrError>) -> String {
    match result {
        Err(GhrError::Generic(message)) => message,
        other => panic!("Expected an error, got {:?}", other),
    }
}

#[test]
fn clone_requests_that_cannot_be_read() {
    assert_eq!(message_of(parse_clone_url("   ")), "Clone URL cannot be empty");
    assert_eq!(
        message_of(parse_clone_url("invalid")),
        "Unsupported URL format: invalid. Use 'owner/repo', 'https://github.com/owner/repo', or 'git@github.com:owner/repo.git'"
    );
    assert_eq!(
        message_of(parse_clone_url("https://github.com/owner")),
        "Invalid GitHub URL: https://github.com/owner"
    );
    assert_eq!(
        message_of(parse_clone_url("git@github.com:owner")),
        "Invalid GitHub SSH URL: git@github.com:owner"
    );
    assert_eq!(
        message_of(parse_clone_url("/repo")),
        "Owner and repository name cannot be empty"
    );
    assert_eq!(
        message_of(parse_clone_url("owner/")),
        "Owner and repository name cannot be empty"
    );
    assert_eq!(
        message_of(parse_clone_url("owner/.git")),
        "Owner and repository name cannot be empty"
    );
    assert_eq!(
        message_of(parse_clone_url("https://github.com//repo")),
        "Owner and repository name cannot be empty"
    );
}

#[test]
fn clone_request_keeps_the_address_without_the_reference() {
    let spec = parse_clone_url("  owner/repo.git:v1  ").unwrap();
    assert_eq!(spec.owner, "owner");
    assert_eq!(spec.repo, "repo");
    assert_eq!(spec.ref_name, Some("v1".to_string()));
    assert_eq!(spec.original_url, "owner/repo.git");
    let spec = parse_clone_url("https://github.com/owner/repo.git").unwrap();
    assert_eq!(spec.original_url, "https://github.com/owner/repo.git");
    let spec = parse_clone_url("http://github.com/owner/repo/tree/main").unwrap();
    assert_eq!(spec.owner, "owner");
    assert_eq!(spec.repo, "repo");
    let spec = parse_clone_url("owner/repo:").unwrap();
    assert_eq!(spec.ref_name, Some(String::new()));
    let spec = parse_clone_url("owner/repo:a:b").unwrap();
    assert_eq!(spec.ref_name, Some("a:b".to_string()));
}

#[test]
fn a_colon_behind_an_address_is_no_reference() {
    let spec = parse_clone_url("git@github.com:owner/repo.git").unwrap();
    assert_eq!(spec.ref_name, None);
    let spec = parse_clone_url("https://github.com/owner/repo:main").unwrap();
    assert_eq!(spec.ref_name, None);
    assert_eq!(spec.repo, "repo:main");
    let spec = parse_clone_url("httpd/conf:main").unwrap();
    assert_eq!(spec.ref_name, None);
    assert_eq!(spec.owner, "httpd");
    assert_eq!(spec.repo, "conf:main");
}

#[test]
fn repo_name_falls_back_to_the_last_segment() {
    assert_eq!(get_repo_name("invalid"), "invalid");
    assert_eq!(get_repo_name("invalid.git"), "invalid");
    assert_eq!(get_repo_name(""), "cloned-repo");
    assert_eq!(get_repo_name("  "), "cloned-repo");
    assert_eq!(get_repo_name("owner/"), "cloned-repo");
    assert_eq!(get_repo_name("/repo"), "repo");
    assert_eq!(get_repo_name("https://github.com/owner"), "owner");
    assert_eq!(get_repo_name("owner/repo.git"), "repo");
}

#[test]
fn git_check_outcomes() {
    assert!(check_git_installed(true, true).is_ok());
    assert!(matches!(
        check_git_installed(false, false),
        Err(GhrError::GitNotInstalled)
    ));
    assert!(matches!(
        check_git_installed(false, true),
        Err(GhrError::GitNotInstalled)
    ));
    match check_git_installed(true, false) {
        Err(GhrError::GitCommand(message)) => assert_eq!(
            message,
            "Git command failed. Please ensure git is properly installed."
        ),
        other => panic!("Expected GitCommand, got {:?}", other),
    }
}

fn failure_of(action: CloneAction) -> (bool, String) {
    match action {
        CloneAction::Fail {
            cleanup,
            error: GhrError::GitCommand(message),
        } => (cleanup, message),
        other => panic!("Expected a failure, got {:?}", other),
    }
}

#[test]
fn a_clone_goes_through_its_steps() {
    let phase = begin_git_clone();
    assert_eq!(phase, ClonePhase::Checking);
    let phase = match execute_git_clone(phase, &CloneEvent::TargetFree, "u", "d", Some("main")) {
        CloneAction::Run { phase, args } => {
            assert_eq!(args, vec!["clone", "u", "d"]);
            phase
        }
        other => panic!("Expected a command, got {:?}", other),
    };
    assert_eq!(phase, ClonePhase::Cloning);
    let phase = match execute_git_clone(phase, &CloneEvent::Succeeded, "u", "d", Some("main")) {
        CloneAction::Run { phase, args } => {
            assert_eq!(args, vec!["-C", "d", "checkout", "main"]);
            phase
        }
        other => panic!("Expected a command, got {:?}", other),
    };
    assert_eq!(phase, ClonePhase::CheckingOut);
    assert!(matches!(
        execute_git_clone(phase, &CloneEvent::Succeeded, "u", "d", Some("main")),
        CloneAction::Finish
    ));
    assert!(matches!(
        execute_git_clone(ClonePhase::Cloning, &CloneEvent::Succeeded, "u", "d", None),
        CloneAction::Finish
    ));
}

#[test]
fn a_clone_that_fails_cleans_up_after_git() {
    let exists = execute_git_clone(ClonePhase::Checking, &CloneEvent::TargetExists, "u", "d", None);
    assert_eq!(
        failure_of(exists),
        (
            false,
            "Directory 'd' already exists. Please remove it or choose a different name."
                .to_string()
        )
    );
    let failed = CloneEvent::Failed {
        stderr: "  fatal: nope\n".to_string(),
    };
    assert_eq!(
        failure_of(execute_git_clone(ClonePhase::Cloning, &failed, "u", "d", None)),
        (true, "Git clone failed: fatal: nope".to_string())
    );
    assert_eq!(
        failure_of(execute_git_clone(ClonePhase::CheckingOut, &failed, "u", "d", Some("x"))),
        (true, "Git checkout failed: fatal: nope".to_string())
    );
    let not_run = CloneEvent::NotRun {
        error: "no git".to_string(),
    };
    assert_eq!(
        failure_of(execute_git_clone(ClonePhase::Cloning, &not_run, "u", "d", None)),
        (false, "Failed to execute git clone: no git".to_string())
    );
    assert_eq!(
        failure_of(execute_git_clone(ClonePhase::CheckingOut, &not_run, "u", "d", Some("x"))),
        (false, "Failed to execute git checkout: no git".to_string())
    );
    assert_eq!(
        failure_of(execute_git_clone(ClonePhase::Checking, &CloneEvent::Succeeded, "u", "d", None)),
        (false, "Unexpected git event".to_string())
    );
    assert!(cleanup_partial_clone(ClonePhase::Cloning, &failed));
    assert!(cleanup_partial_clone(ClonePhase::CheckingOut, &failed));
    assert!(!cleanup_partial_clone(ClonePhase::Checking, &failed));
    assert!(!cleanup_partial_clone(ClonePhase::Cloning, &not_run));
    assert!(!cleanup_partial_clone(ClonePhase::Cloning, &CloneEvent::Succeeded));
}

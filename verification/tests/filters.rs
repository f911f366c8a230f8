use gh_release::errors::GhrError;
use gh_release::filters::{apply_filters, parse_filter, parse_filter_list, FilterType};

#[test]
fn test_substring_filter() {
    let filter = parse_filter("linux").unwrap();
    assert!(filter.matches("linux-amd64"));
    assert!(filter.matches("my-linux-app"));
    assert!(!filter.matches("windows-x86"));
}

#[test]
fn test_glob_filter() {
    let filter = parse_filter("*.deb").unwrap();
    assert!(filter.matches("app-1.0.0.deb"));
    assert!(filter.matches("package.deb"));
    assert!(!filter.matches("app.tar.gz"));
}

#[test]
fn test_regex_filter() {
    let filter = parse_filter("linux-.*-amd64").unwrap();
    assert!(filter.matches("linux-musl-amd64"));
    assert!(filter.matches("linux-gnu-amd64"));
    assert!(!filter.matches("linux-arm64"));
}

#[test]
fn test_exclude_filter() {
    let filter = parse_filter("!windows").unwrap();
    assert!(filter.matches("linux-amd64"));
    assert!(!filter.matches("windows-x86"));
    assert!(!filter.matches("app-windows.exe"));
}

#[test]
fn test_apply_multiple_filters() {
    let filters = vec![
        parse_filter("*.deb").unwrap(),
        parse_filter("!test").unwrap(),
    ];

    assert!(apply_filters("app-1.0.0.deb", &filters));
    assert!(!apply_filters("test-1.0.0.deb", &filters));
    assert!(!apply_filters("app-1.0.0.tar.gz", &filters));
}

#[test]
fn test_empty_filters() {
    let filters: Vec<FilterType> = vec![];
    assert!(apply_filters("any-file.txt", &filters));
}

#[test]
fn plain_expression_matches_itself() {
    for s in ["linux", "x86_64", "a b", "-", "release.tar"] {
        let filter = parse_filter(s).unwrap();
        assert!(matches!(filter, FilterType::Substring(_)));
        assert!(filter.matches(s));
    }
}

#[test]
fn negation_inverts_the_outcome() {
    for p in ["linux", "*.deb", "linux-.*-amd64", "!windows", ""] {
        let plain = parse_filter(p).unwrap();
        let negated = parse_filter(&format!("!{}", p)).unwrap();
        for n in ["linux-amd64", "app.deb", "windows.exe", "linux-gnu-amd64", ""] {
            assert_eq!(negated.matches(n), !plain.matches(n));
        }
    }
}

#[test]
fn negation_of_a_bad_pattern_is_bad_too() {
    assert!(parse_filter("(unclosed").is_err());
    assert!(parse_filter("!(unclosed").is_err());
    assert!(parse_filter("!!(unclosed").is_err());
}

#[test]
fn empty_expression_matches_everything() {
    let filter = parse_filter("").unwrap();
    assert!(matches!(filter, FilterType::Substring(_)));
    assert!(filter.matches(""));
    assert!(filter.matches("anything"));
}

#[test]
fn first_rule_that_applies_decides() {
    assert!(matches!(parse_filter("a.*b").unwrap(), FilterType::Regex(_)));
    assert!(matches!(parse_filter("^app").unwrap(), FilterType::Regex(_)));
    assert!(matches!(parse_filter("gz$").unwrap(), FilterType::Regex(_)));
    assert!(matches!(parse_filter("a\\.b").unwrap(), FilterType::Regex(_)));
    assert!(matches!(parse_filter("(a|b)").unwrap(), FilterType::Regex(_)));
    assert!(matches!(parse_filter("[ab]x").unwrap(), FilterType::Regex(_)));
    assert!(matches!(parse_filter("(a|b)*").unwrap(), FilterType::Regex(_)));
    assert!(matches!(parse_filter("a*").unwrap(), FilterType::Glob(_)));
    assert!(matches!(parse_filter("a?").unwrap(), FilterType::Glob(_)));
    assert!(matches!(parse_filter("a.b").unwrap(), FilterType::Substring(_)));
    assert!(matches!(parse_filter("!a").unwrap(), FilterType::Exclude(_)));
    assert!(matches!(parse_filter("a!").unwrap(), FilterType::Substring(_)));
}

#[test]
fn glob_covers_the_whole_name() {
    let filter = parse_filter("app-?.deb").unwrap();
    assert!(filter.matches("app-1.deb"));
    assert!(!filter.matches("app-12.deb"));
    assert!(!filter.matches("my-app-1.deb"));
    let star = parse_filter("*linux*").unwrap();
    assert!(star.matches("a-linux-b"));
    assert!(star.matches("linux"));
    assert!(!star.matches("windows"));
}

#[test]
fn regex_finds_a_match_anywhere() {
    let filter = parse_filter("^app-[0-9]+").unwrap();
    assert!(filter.matches("app-12.deb"));
    assert!(!filter.matches("my-app-12.deb"));
    let inner = parse_filter("v(1|2)").unwrap();
    assert!(inner.matches("app-v2.tar"));
    assert!(!inner.matches("app-v3.tar"));
}

#[test]
fn a_bad_regex_is_a_regex_error() {
    match parse_filter("(unclosed") {
        Err(GhrError::RegexError(_)) => {}
        other => panic!("Expected RegexError, got {:?}", other),
    }
    match parse_filter("[z-a]") {
        Err(e) => assert!(e.message().starts_with("Invalid regex pattern: ")),
        Ok(f) => panic!("Expected an error, got {:?}", f),
    }
}

#[test]
fn a_bad_glob_is_a_glob_error() {
    match parse_filter("a{b*") {
        Err(GhrError::GlobError(_)) => {}
        other => panic!("Expected GlobError, got {:?}", other),
    }
    match parse_filter("a{b*") {
        Err(e) => assert!(e.message().starts_with("Invalid glob pattern: ")),
        Ok(f) => panic!("Expected an error, got {:?}", f),
    }
}

#[test]
fn a_glob_beyond_the_limit_is_refused() {
    let long = format!("{}*", "a".repeat(128));
    match parse_filter(&long) {
        Err(GhrError::Generic(message)) => assert_eq!(message, "Glob pattern is too long"),
        other => panic!("Expected an error, got {:?}", other),
    }
    let at_limit = format!("{}*", "a".repeat(127));
    let filter = parse_filter(&at_limit).unwrap();
    assert!(filter.matches(&"a".repeat(130)));
    let unchecked = FilterType::Glob(long);
    assert!(!unchecked.matches(&"a".repeat(130)));
}

#[test]
fn deeply_nested_alternates_within_the_limit_compile() {
    let depth = 63;
    let pattern = format!("{}*{}", "{".repeat(depth), "}".repeat(depth));
    assert_eq!(pattern.chars().count(), 127);
    let filter = parse_filter(&pattern).unwrap();
    assert!(filter.matches("anything"));
}

#[test]
fn a_filter_made_by_hand_with_a_bad_pattern_matches_nothing() {
    assert!(!FilterType::Regex("(".to_string()).matches("("));
    assert!(!FilterType::Glob("a{b*".to_string()).matches("a{b*"));
}

#[test]
fn filter_list_is_parted_by_commas() {
    let filters = parse_filter_list("*.deb,!test,amd64").unwrap();
    assert_eq!(filters.len(), 3);
    assert!(matches!(filters[0], FilterType::Glob(_)));
    assert!(matches!(filters[1], FilterType::Exclude(_)));
    assert!(matches!(filters[2], FilterType::Substring(_)));
    assert!(apply_filters("app-amd64.deb", &filters));
    assert!(!apply_filters("app-arm64.deb", &filters));
    assert!(!apply_filters("test-amd64.deb", &filters));
    let one = parse_filter_list("").unwrap();
    assert_eq!(one.len(), 1);
    assert!(apply_filters("anything", &one));
    let with_gap = parse_filter_list("a,,b").unwrap();
    assert_eq!(with_gap.len(), 3);
}

#[test]
fn filter_list_fails_with_its_first_bad_expression() {
    match parse_filter_list("linux,(bad,a{b*") {
        Err(GhrError::RegexError(_)) => {}
        other => panic!("Expected RegexError, got {:?}", other),
    }
    match parse_filter_list("a{b*,(bad") {
        Err(GhrError::GlobError(_)) => {}
        other => panic!("Expected GlobError, got {:?}", other),
    }
}

#[test]
fn order_of_filters_does_not_matter() {
    let a = vec![parse_filter("*.deb").unwrap(), parse_filter("!test").unwrap()];
    let b = vec![parse_filter("!test").unwrap(), parse_filter("*.deb").unwrap()];
    for n in ["app.deb", "test.deb", "app.rpm", ""] {
        assert_eq!(apply_filters(n, &a), apply_filters(n, &b));
    }
}

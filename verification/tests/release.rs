use gh_release::errors::GhrError;
use gh_release::filters::{parse_filter, parse_filter_list, FilterType};
use gh_release::models::{Asset, Release};
use gh_release::release::{
    destination_for, plan_downloads, select_listed, select_release, select_release_index,
};

fn release(tag: &str, assets: &[(&str, u64)]) -> Release {
    Release {
        tag_name: tag.to_string(),
        name: None,
        created_at: None,
        published_at: "2024-01-01T00:00:00Z".to_string(),
        draft: false,
        prerelease: false,
        assets: assets
            .iter()
            .map(|(name, size)| Asset {
                name: name.to_string(),
                browser_download_url: format!("https://example.com/{}", name),
                size: *size,
                download_count: 0,
            })
            .collect(),
        body: None,
    }
}

#[test]
fn latest_is_the_first_of_the_list() {
    let releases = vec![release("v2", &[]), release("v1", &[])];
    assert_eq!(select_release(&releases, "latest").unwrap().tag_name, "v2");
    assert_eq!(select_release_index(&releases, "latest").unwrap(), 0);
}

#[test]
fn a_tag_selects_its_release() {
    let releases = vec![release("v2", &[]), release("v1", &[])];
    assert_eq!(select_release(&releases, "v1").unwrap().tag_name, "v1");
    assert_eq!(select_release_index(&releases, "v1").unwrap(), 1);
    assert_eq!(select_release_index(&releases, "v2").unwrap(), 0);
}

#[test]
fn an_unknown_tag_is_release_not_found() {
    let releases = vec![release("v2", &[]), release("v1", &[])];
    match select_release(&releases, "v9") {
        Err(GhrError::ReleaseNotFound { tag }) => assert_eq!(tag, "v9"),
        other => panic!("Expected ReleaseNotFound, got {:?}", other.map(|r| &r.tag_name)),
    }
    match select_release(&releases, "V1") {
        Err(GhrError::ReleaseNotFound { tag }) => assert_eq!(tag, "V1"),
        other => panic!("Expected ReleaseNotFound, got {:?}", other.map(|r| &r.tag_name)),
    }
    match select_release(&releases, "v") {
        Err(GhrError::ReleaseNotFound { tag }) => assert_eq!(tag, "v"),
        other => panic!("Expected ReleaseNotFound, got {:?}", other.map(|r| &r.tag_name)),
    }
}

#[test]
fn latest_of_nothing_is_no_releases() {
    let releases: Vec<Release> = vec![];
    assert!(matches!(
        select_release(&releases, "latest"),
        Err(GhrError::NoReleases)
    ));
    assert!(matches!(
        select_release(&releases, "v1"),
        Err(GhrError::ReleaseNotFound { .. })
    ));
}

#[test]
fn the_first_of_two_equal_tags_is_selected() {
    let releases = vec![
        release("v1", &[("first", 1)]),
        release("v1", &[("second", 2)]),
    ];
    assert_eq!(select_release_index(&releases, "v1").unwrap(), 0);
}

#[test]
fn a_release_tagged_latest_does_not_change_what_latest_means() {
    let releases = vec![release("v2", &[]), release("latest", &[])];
    assert_eq!(select_release_index(&releases, "latest").unwrap(), 0);
}

#[test]
fn destination_is_inside_the_directory() {
    assert_eq!(destination_for(None, "a.deb"), "a.deb");
    assert_eq!(destination_for(Some("out"), "a.deb"), "out/a.deb");
    assert_eq!(destination_for(Some("out/"), "a.deb"), "out/a.deb");
    assert_eq!(destination_for(Some(""), "a.deb"), "a.deb");
    assert_eq!(destination_for(Some("/"), "a.deb"), "/a.deb");
}

#[test]
fn plan_holds_the_assets_that_pass() {
    let r = release(
        "v1",
        &[
            ("app-1.0.0.deb", 10),
            ("test-1.0.0.deb", 20),
            ("app-1.0.0.tar.gz", 30),
            ("lib-1.0.0.deb", 40),
        ],
    );
    let filters = parse_filter_list("*.deb,!test").unwrap();
    let tasks = plan_downloads(&r, &filters, Some("out"));
    assert_eq!(tasks.len(), 2);
    assert_eq!(tasks[0].name, "app-1.0.0.deb");
    assert_eq!(tasks[0].url, "https://example.com/app-1.0.0.deb");
    assert_eq!(tasks[0].destination, "out/app-1.0.0.deb");
    assert_eq!(tasks[0].size, 10);
    assert_eq!(tasks[1].name, "lib-1.0.0.deb");
    assert_eq!(tasks[1].destination, "out/lib-1.0.0.deb");
    assert_eq!(tasks[1].size, 40);
}

#[test]
fn plan_without_filters_holds_every_asset() {
    let r = release("v1", &[("a", 1), ("b", 2), ("c", 3)]);
    let none: Vec<FilterType> = vec![];
    let tasks = plan_downloads(&r, &none, None);
    assert_eq!(tasks.len(), 3);
    assert_eq!(tasks[0].destination, "a");
    assert_eq!(tasks[2].name, "c");
}

#[test]
fn plan_can_be_empty() {
    let r = release("v1", &[("a", 1), ("b", 2)]);
    let filters = vec![parse_filter("zzz").unwrap()];
    assert!(plan_downloads(&r, &filters, None).is_empty());
    let nothing = release("v1", &[]);
    assert!(plan_downloads(&nothing, &filters, None).is_empty());
}

#[test]
fn a_list_of_tags_selects_each_release() {
    let releases = vec![release("v3", &[]), release("v2", &[]), release("v1", &[])];
    assert_eq!(select_listed(&releases, "v1,v3").unwrap(), vec![2, 0]);
    assert_eq!(select_listed(&releases, "v2").unwrap(), vec![1]);
    assert_eq!(select_listed(&releases, "latest,v2").unwrap(), vec![0, 1]);
    match select_listed(&releases, "v1,v9,v8") {
        Err(GhrError::ReleaseNotFound { tag }) => assert_eq!(tag, "v9"),
        other => panic!("Expected ReleaseNotFound, got {:?}", other),
    }
    match select_listed(&releases, "") {
        Err(GhrError::ReleaseNotFound { tag }) => assert_eq!(tag, ""),
        other => panic!("Expected ReleaseNotFound, got {:?}", other),
    }
}

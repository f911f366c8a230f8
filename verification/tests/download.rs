use gh_release::download::{
    check_download_status, completed, failure, on_chunk, DownloadOutcome, DownloadPool,
    FailureKind, Progress,
};
use gh_release::errors::GhrError;
use gh_release::release::DownloadTask;

fn task(name: &str, size: u64) -> DownloadTask {
    DownloadTask {
        name: name.to_string(),
        url: format!("https://example.com/{}", name),
        destination: format!("out/{}", name),
        size,
    }
}

#[test]
fn one_failure_among_three_downloads() {
    let tasks = vec![task("one", 10), task("two", 20), task("three", 30)];
    let mut pool = DownloadPool::new(tasks.len(), 5);
    let mut started = vec![];
    while let Some(i) = pool.next_to_start() {
        started.push(i);
    }
    assert_eq!(started, vec![0, 1, 2]);
    assert!(!pool.is_finished());
    pool.complete(2, completed(30));
    let not_found = check_download_status(&tasks[1], 404, "404 Not Found")
        .expect("404 ends the download");
    pool.complete(1, not_found);
    assert!(!pool.is_finished());
    pool.complete(0, completed(10));
    assert!(pool.is_finished());
    let report = pool.report(&tasks);
    assert_eq!(report.succeeded, vec!["one".to_string(), "three".to_string()]);
    assert_eq!(
        report.failed,
        vec![("two".to_string(), "HTTP 404 Not Found for 'two'".to_string())]
    );
    assert!(!report.is_success());
    assert_eq!(report.summary(), "Download complete: 2 succeeded, 1 failed");
    match report.to_result() {
        Err(GhrError::Generic(message)) => assert_eq!(
            message,
            "Failed to download 1 asset(s): HTTP 404 Not Found for 'two'"
        ),
        other => panic!("Expected an error, got {:?}", other),
    }
}

#[test]
fn all_failures_are_listed() {
    let tasks = vec![task("a", 1), task("b", 2), task("c", 3)];
    let mut pool = DownloadPool::new(3, 3);
    while pool.next_to_start().is_some() {}
    pool.complete(0, failure(FailureKind::Request, &tasks[0], "refused"));
    pool.complete(1, failure(FailureKind::Transfer, &tasks[1], "reset"));
    pool.complete(2, failure(FailureKind::Write, &tasks[2], "disk full"));
    let report = pool.report(&tasks);
    assert!(report.succeeded.is_empty());
    assert_eq!(report.failed.len(), 3);
    match report.to_result() {
        Err(GhrError::Generic(message)) => assert_eq!(
            message,
            "Failed to download 3 asset(s): Failed to download 'a': refused, Failed to read chunk for 'b': reset, Failed to save 'out/c': disk full"
        ),
        other => panic!("Expected an error, got {:?}", other),
    }
}

#[test]
fn no_failure_is_success() {
    let tasks = vec![task("a", 1)];
    let mut pool = DownloadPool::new(1, 1);
    assert_eq!(pool.next_to_start(), Some(0));
    pool.complete(0, completed(1));
    let report = pool.report(&tasks);
    assert!(report.is_success());
    assert!(report.to_result().is_ok());
    assert_eq!(report.summary(), "Download complete: 1 succeeded, 0 failed");
}

#[test]
fn an_empty_plan_is_finished_and_succeeds() {
    let tasks: Vec<DownloadTask> = vec![];
    let mut pool = DownloadPool::new(0, 5);
    assert!(pool.is_finished());
    assert_eq!(pool.next_to_start(), None);
    let report = pool.report(&tasks);
    assert!(report.to_result().is_ok());
    assert_eq!(report.summary(), "Download complete: 0 succeeded, 0 failed");
}

#[test]
fn the_pool_keeps_within_its_limit() {
    let mut pool = DownloadPool::new(5, 2);
    assert_eq!(pool.total(), 5);
    assert_eq!(pool.in_flight(), 0);
    assert_eq!(pool.next_to_start(), Some(0));
    assert_eq!(pool.next_to_start(), Some(1));
    assert_eq!(pool.in_flight(), 2);
    assert_eq!(pool.next_to_start(), None);
    assert!(pool.is_in_flight(0));
    assert!(pool.is_in_flight(1));
    assert!(!pool.is_in_flight(2));
    assert!(!pool.is_in_flight(7));
    pool.complete(1, completed(1));
    assert!(!pool.is_in_flight(1));
    assert_eq!(pool.in_flight(), 1);
    assert_eq!(pool.next_to_start(), Some(2));
    assert_eq!(pool.next_to_start(), None);
    pool.complete(0, completed(1));
    pool.complete(2, completed(1));
    assert_eq!(pool.next_to_start(), Some(3));
    assert_eq!(pool.next_to_start(), Some(4));
    assert_eq!(pool.next_to_start(), None);
    assert!(!pool.is_finished());
    pool.complete(4, completed(1));
    pool.complete(3, completed(1));
    assert!(pool.is_finished());
    assert_eq!(pool.in_flight(), 0);
    assert_eq!(pool.next_to_start(), None);
}

#[test]
fn a_limit_of_one_runs_downloads_one_by_one() {
    let mut pool = DownloadPool::new(3, 1);
    for i in 0..3 {
        assert_eq!(pool.next_to_start(), Some(i));
        assert_eq!(pool.next_to_start(), None);
        pool.complete(i, completed(0));
    }
    assert!(pool.is_finished());
}

#[test]
fn failure_messages_name_the_asset() {
    let t = task("app.deb", 5);
    let cases = [
        (FailureKind::Request, "timed out", "Failed to download 'app.deb': timed out"),
        (FailureKind::Status, "500 Internal Server Error", "HTTP 500 Internal Server Error for 'app.deb'"),
        (FailureKind::Transfer, "reset", "Failed to read chunk for 'app.deb': reset"),
        (FailureKind::Write, "denied", "Failed to save 'out/app.deb': denied"),
    ];
    for (kind, detail, expected) in cases {
        match failure(kind, &t, detail) {
            DownloadOutcome::Failure { kind: k, message } => {
                assert_eq!(k, kind);
                assert_eq!(message, expected);
            }
            other => panic!("Expected a failure, got {:?}", other),
        }
    }
}

#[test]
fn a_good_status_lets_the_download_go_on() {
    let t = task("a", 1);
    assert!(check_download_status(&t, 200, "200 OK").is_none());
    assert!(check_download_status(&t, 206, "206 Partial Content").is_none());
    assert!(check_download_status(&t, 302, "302 Found").is_some());
}

#[test]
fn progress_adds_up_the_chunks() {
    let t = task("a", 100);
    let p = on_chunk(3, &t, 0, 40);
    assert_eq!(
        p,
        Progress {
            task: 3,
            received: 40,
            total: 100
        }
    );
    let p = on_chunk(3, &t, p.received, 60);
    assert_eq!(p.received, 100);
    let p = on_chunk(3, &t, u64::MAX - 1, 10);
    assert_eq!(p.received, u64::MAX);
    match completed(100) {
        DownloadOutcome::Success { bytes } => assert_eq!(bytes, 100),
        other => panic!("Expected success, got {:?}", other),
    }
}

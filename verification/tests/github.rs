use pullbell::github::{notification_thread_url, pr_id, repo_name_from_repository_url};

#[test]
fn extracts_repo_name_from_api_url() {
    assert_eq!(
        repo_name_from_repository_url("https://api.github.com/repos/tokium/example"),
        "tokium/example"
    );
}

#[test]
fn builds_stable_pr_id() {
    assert_eq!(pr_id("tokium/example", 123), "tokium/example#123");
}

#[test]
fn builds_notification_thread_url() {
    assert_eq!(
        notification_thread_url("123"),
        "https://api.github.com/notifications/threads/123"
    );
}

use pullbell::model::{PrKind, PullRequestItem};
use pullbell::state::AppState;

fn item(id: &str, kind: PrKind) -> PullRequestItem {
    PullRequestItem {
        id: id.to_string(),
        repo: "org/repo".to_string(),
        title: format!("PR {id}"),
        url: format!("https://github.com/org/repo/pull/{id}"),
        number: id.parse().unwrap_or(1),
        updated_at: None,
        kind,
        notification_thread_id: None,
        author: None,
        reason: None,
        preview: None,
        locally_done: false,
    }
}

#[test]
fn tray_title_counts_todo_items_only() {
    let state = AppState {
        pull_requests: vec![
            item("1", PrKind::ReviewRequested),
            item("2", PrKind::Authored),
            item("3", PrKind::Notification),
        ],
        ..Default::default()
    };

    assert_eq!(state.todo_done_counts(), (2, 1));
    assert_eq!(state.todo_count(), 2);
    assert_eq!(state.done_count(), 1);
    assert_eq!(state.tray_title(), "PR 2");
}

#[test]
fn local_done_review_requests_count_as_done() {
    let state = AppState {
        pull_requests: vec![
            PullRequestItem { locally_done: true, ..item("1", PrKind::ReviewRequested) },
            item("2", PrKind::Notification),
        ],
        ..Default::default()
    };

    assert_eq!(state.todo_done_counts(), (1, 1));
    assert_eq!(state.todo_count(), 1);
    assert_eq!(state.done_count(), 1);
}

#[test]
fn tray_title_without_todo_items() {
    let state = AppState { pull_requests: vec![item("1", PrKind::Authored)], ..Default::default() };

    assert_eq!(state.tray_title(), "PR");
    assert_eq!(state.todo_done_counts(), (0, 1));
}

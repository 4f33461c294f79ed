use pullbell::model::{merge_pr_items, LocalDonePr, LocalDonePrs, PrKind, PullRequestItem};

fn item(id: &str, kind: PrKind, updated_at: i64) -> PullRequestItem {
    PullRequestItem {
        id: id.to_string(),
        repo: "org/repo".to_string(),
        title: format!("PR {id}"),
        url: format!("https://github.com/org/repo/pull/{id}"),
        number: id.parse().unwrap_or(1),
        updated_at: Some((updated_at, 0)),
        kind,
        notification_thread_id: None,
        author: None,
        reason: None,
        preview: None,
        locally_done: false,
    }
}

fn notification_item(id: &str, thread_id: &str, updated_at: i64) -> PullRequestItem {
    PullRequestItem {
        notification_thread_id: Some(thread_id.to_string()),
        ..item(id, PrKind::Notification, updated_at)
    }
}

#[test]
fn merge_prefers_the_most_actionable_kind_for_duplicates() {
    let merged = merge_pr_items(vec![
        item("1", PrKind::Notification, 10),
        item("1", PrKind::ReviewRequested, 20),
        item("2", PrKind::Authored, 30),
        item("2", PrKind::Notification, 40),
        item("3", PrKind::Authored, 50),
    ]);

    assert_eq!(merged.len(), 3);
    assert_eq!(merged[0].id, "1");
    assert_eq!(merged[0].kind, PrKind::ReviewRequested);
    assert_eq!(merged[0].updated_at, Some((20, 0)));
    assert_eq!(merged[1].id, "2");
    assert_eq!(merged[1].kind, PrKind::Notification);
    assert_eq!(merged[1].updated_at, Some((40, 0)));
    assert_eq!(merged[2].kind, PrKind::Authored);
}

#[test]
fn merge_prefers_unread_notifications_over_authored_prs() {
    let merged = merge_pr_items(vec![
        item("2", PrKind::Authored, 30),
        notification_item("2", "thread-2", 40),
    ]);

    assert_eq!(merged.len(), 1);
    assert_eq!(merged[0].id, "2");
    assert_eq!(merged[0].kind, PrKind::Notification);
    assert_eq!(merged[0].notification_thread_id.as_deref(), Some("thread-2"));
    assert_eq!(merged[0].updated_at, Some((40, 0)));
}

#[test]
fn merge_preserves_notification_thread_id_when_review_request_is_more_actionable() {
    let merged = merge_pr_items(vec![
        notification_item("1", "thread-1", 10),
        item("1", PrKind::ReviewRequested, 20),
    ]);

    assert_eq!(merged.len(), 1);
    assert_eq!(merged[0].kind, PrKind::ReviewRequested);
    assert_eq!(merged[0].notification_thread_id.as_deref(), Some("thread-1"));
}

#[test]
fn merge_preserves_preview_metadata_from_duplicates() {
    let merged = merge_pr_items(vec![
        PullRequestItem {
            author: Some("octo".to_string()),
            reason: Some("comment".to_string()),
            preview: Some("Looks good".to_string()),
            ..notification_item("1", "thread-1", 10)
        },
        item("1", PrKind::ReviewRequested, 20),
    ]);

    assert_eq!(merged.len(), 1);
    assert_eq!(merged[0].author.as_deref(), Some("octo"));
    assert_eq!(merged[0].reason.as_deref(), Some("comment"));
    assert_eq!(merged[0].preview.as_deref(), Some("Looks good"));
}

#[test]
fn merge_sorts_by_actionability_then_recency() {
    let merged = merge_pr_items(vec![
        item("3", PrKind::Notification, 300),
        item("1", PrKind::Authored, 100),
        item("2", PrKind::ReviewRequested, 10),
        item("4", PrKind::Authored, 400),
    ]);

    let ids: Vec<_> = merged.into_iter().map(|item| item.id).collect();
    assert_eq!(ids, vec!["2", "3", "4", "1"]);
}

#[test]
fn identifies_items_that_need_action() {
    assert!(item("1", PrKind::ReviewRequested, 10).is_todo());
    assert!(item("2", PrKind::Notification, 10).is_todo());
    assert!(!item("3", PrKind::Authored, 10).is_todo());
}

#[test]
fn merge_keeps_one_entry_per_id() {
    let merged = merge_pr_items(vec![
        item("1", PrKind::Authored, 10),
        item("1", PrKind::Authored, 30),
        item("1", PrKind::Authored, 20),
    ]);

    assert_eq!(merged.len(), 1);
    assert_eq!(merged[0].updated_at, Some((30, 0)));
}

#[test]
fn locally_done_items_need_no_action() {
    let done = PullRequestItem { locally_done: true, ..item("1", PrKind::ReviewRequested, 10) };
    assert!(!done.is_todo());
    assert!(PrKind::ReviewRequested.is_todo());
    assert_eq!(PrKind::Notification.label(), "Unread PR notifications");
    assert_eq!(item("7", PrKind::Authored, 1).display_title(), "org/repo #7: PR 7");
}

#[test]
fn merging_a_merged_list_changes_nothing() {
    let merged = merge_pr_items(vec![
        item("3", PrKind::Notification, 300),
        item("1", PrKind::Authored, 100),
        item("1", PrKind::ReviewRequested, 50),
        item("2", PrKind::ReviewRequested, 10),
    ]);
    assert_eq!(merge_pr_items(merged.clone()), merged);
}

#[test]
fn merge_orders_by_nanoseconds_within_a_second() {
    let earlier = PullRequestItem { updated_at: Some((10, 1)), ..item("1", PrKind::Authored, 10) };
    let later = PullRequestItem { updated_at: Some((10, 5)), ..item("2", PrKind::Authored, 10) };
    let merged = merge_pr_items(vec![earlier.clone(), later.clone()]);
    let ids: Vec<_> = merged.into_iter().map(|item| item.id).collect();
    assert_eq!(ids, vec!["2", "1"]);

    let merged = merge_pr_items(vec![earlier, PullRequestItem { updated_at: Some((10, 9)), ..item("1", PrKind::Authored, 10) }]);
    assert_eq!(merged[0].updated_at, Some((10, 9)));
}

#[test]
fn done_pull_requests_keep_each_id_once_in_order() {
    let mut done = LocalDonePrs::new();
    done.insert("owner/repo#42".to_string(), LocalDonePr { updated_at: Some((42, 0)), item: None });
    done.insert("owner/a#1".to_string(), LocalDonePr { updated_at: None, item: None });
    done.insert("owner/repo#42".to_string(), LocalDonePr { updated_at: Some((43, 0)), item: None });
    let ids: Vec<&str> = done.entries().iter().map(|(id, _)| id.as_str()).collect();
    assert_eq!(ids, vec!["owner/a#1", "owner/repo#42"]);
    assert_eq!(done.entries()[1].1.updated_at, Some((43, 0)));
    assert_eq!(done.clone().entries().len(), 2);
    assert!(LocalDonePrs::default().entries().is_empty());
}

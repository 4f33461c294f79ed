use pullbell::model::{AppSettings, AvailableUpdate, PrKind, PullRequestItem};
use pullbell::panel::{
    clock_time, html, html_at, humanize_reason, reason_label, relative_age, render_body,
    render_body_at, render_item, render_muted_chips, render_repository_settings, sorted_values,
};
use pullbell::state::{AppState, PendingAuth};

fn item(kind: PrKind) -> PullRequestItem {
    PullRequestItem {
        id: "owner/repo#42".to_string(),
        repo: "owner/repo".to_string(),
        title: "Tighten notification layout".to_string(),
        url: "https://github.com/owner/repo/pull/42".to_string(),
        number: 42,
        updated_at: Some((7_200, 0)),
        kind,
        notification_thread_id: None,
        author: Some("octo".to_string()),
        reason: Some("review_requested".to_string()),
        preview: Some("Review the updated notification layout before merging.".to_string()),
        locally_done: false,
    }
}

fn notification_item() -> PullRequestItem {
    PullRequestItem { notification_thread_id: Some("thread-42".to_string()), ..item(PrKind::Notification) }
}

#[test]
fn renders_neat_like_sections_and_rows() {
    let snapshot = AppState {
        token_loaded: true,
        signed_in_as: Some("octo".to_string()),
        pull_requests: vec![item(PrKind::ReviewRequested), item(PrKind::Notification), item(PrKind::Authored)],
        ..Default::default()
    };

    let body = render_body(&snapshot);

    assert!(body.contains(">Pinned<"));
    assert!(body.contains(">To do<"));
    assert!(body.contains(">Done<"));
    assert!(body.contains("Review requested"));
    assert!(body.contains("Unread notification"));
    assert!(body.contains("Authored"));
    assert!(body.contains("data-cmd=\"open:https://github.com/owner/repo/pull/42\""));
    assert!(body.contains("data-copy-cmd=\"copy-url:https://github.com/owner/repo/pull/42\""));
    assert!(body.contains("aria-label=\"Copy PR URL\""));
}

#[test]
fn renders_keyboard_first_panel_behavior() {
    let snapshot = AppState {
        token_loaded: true,
        pull_requests: vec![item(PrKind::ReviewRequested)],
        ..Default::default()
    };

    let markup = html(&snapshot);

    assert!(markup.contains("data-selectable=\"true\""));
    assert!(markup.contains("window.PullbellSelect"));
    assert!(markup.contains("window.PullbellActivateSelected"));
    assert!(markup.contains("window.PullbellCopySelected"));
    assert!(markup.contains("window.PullbellActOnSelected"));
    assert!(markup.contains("window.PullbellTogglePreview"));
    assert!(markup.contains("rememberSelectionAfterDone"));
    assert!(markup.contains("restorePendingSelection"));
    assert!(markup.contains("pendingSelectionDoneCmd"));
    assert!(
        markup.contains("row.dataset.todoRow === &quot;true&quot;")
            || markup.contains(r#"row.dataset.todoRow === "true""#)
    );
    assert!(
        markup.contains("currentView === &quot;notifications&quot;")
            || markup.contains(r#"currentView === "notifications""#)
    );
    assert!(markup.contains("window.PullbellShowSettings"));
    assert!(markup.contains("window.PullbellShowNotifications"));
    assert!(markup.contains("window.PullbellToggleGroupByRepository"));
    assert!(markup.contains("window.PullbellSyncGroupByRepository"));
    assert!(markup.contains("ArrowDown"));
    assert!(
        markup.contains("currentView !== &quot;notifications&quot;")
            || markup.contains(r#"currentView !== "notifications""#)
    );
    assert!(
        markup.contains("currentView === &quot;settings&quot;")
            || markup.contains(r#"currentView === "settings""#)
    );
    assert!(
        markup.contains("event.target.dataset.rowShortcut !== &quot;true&quot;")
            || markup.contains("event.target.dataset.rowShortcut !== \"true\"")
    );
    assert!(markup.contains("^(SELECT|INPUT|TEXTAREA)$"));
    assert!(markup.contains("event.key === &quot; &quot;") || markup.contains(r#"event.key === " ""#));
    assert!(markup.contains("key === &quot;c&quot;") || markup.contains(r#"key === "c""#));
    assert!(markup.contains("window.PullbellCopySelected()"));
    assert!(markup.contains("window.PullbellActOnSelected(\"done\")"));
    assert!(markup.contains("window.PullbellActOnSelected(\"undo\")"));
    assert!(markup.contains("window.PullbellActOnSelected(\"mute\")"));
    assert!(markup.contains("window.send(\"refresh\")"));
    assert!(markup.contains("window.send(\"inbox\")"));
    assert!(markup.contains("window.send(\"hide\")"));

    let form_guard = markup.find("SELECT|INPUT|TEXTAREA").expect("form-control keyboard guard");
    let escape_handler = markup.find("key === \"escape\"").expect("escape handler");
    assert!(form_guard < escape_handler);
}

#[test]
fn renders_settings_entrypoint_and_controls_view() {
    let snapshot = AppState {
        token_loaded: true,
        pull_requests: vec![item(PrKind::ReviewRequested)],
        ..Default::default()
    };

    let body = render_body(&snapshot);

    assert!(body.contains("aria-label=\"Open settings\""));
    assert!(body.contains("aria-controls=\"settings-view\""));
    assert!(body.contains("data-open-settings"));
    assert!(body.contains("id=\"settings-view\""));
    assert!(body.contains("data-panel-view=\"settings\""));
    assert!(body.contains("aria-label=\"Back to notifications\""));
    assert!(body.contains(">Settings<"));
    assert!(body.contains(">Account<"));
    assert!(body.contains(">Updates<"));
    assert!(body.contains(">Repositories<"));
    assert!(body.contains(">Muted repositories<"));
    assert!(body.contains(">Group by Repository<"));
    assert!(body.contains("data-group-by-repository"));
    assert!(body.contains("onclick=\"window.PullbellToggleGroupByRepository()\""));
    assert!(body.contains(">Muted<"));
    assert!(body.contains(">App<"));
    assert!(body.contains("Quit Pullbell"));
    assert!(body.contains("Check for updates"));
    assert!(body.contains("Open releases"));
    assert!(body.contains("Sign out"));
    assert!(body.matches("data-filter=\"repo\"").count() >= 2);
    assert!(body.matches("data-filter=\"reason\"").count() >= 2);
    assert!(body.matches("data-filter=\"author\"").count() >= 2);
}

#[test]
fn muted_chips_preserve_distinct_repositories_with_same_short_name() {
    let snapshot = AppState {
        pull_requests: vec![
            PullRequestItem {
                repo: "org-a/api".to_string(),
                author: None,
                reason: None,
                ..item(PrKind::ReviewRequested)
            },
            PullRequestItem {
                repo: "org-b/api".to_string(),
                author: None,
                reason: None,
                ..item(PrKind::Notification)
            },
        ],
        ..Default::default()
    };

    let chips = render_muted_chips(&snapshot);

    assert_eq!(chips.matches(">api</span>").count(), 2);
}

#[test]
fn renders_preview_and_filter_metadata() {
    let snapshot = AppState {
        token_loaded: true,
        pull_requests: vec![item(PrKind::ReviewRequested)],
        ..Default::default()
    };

    let body = render_body(&snapshot);

    assert!(body.contains("data-filter=\"repo\""));
    assert!(body.contains("data-filter=\"reason\""));
    assert!(body.contains("data-filter=\"author\""));
    assert!(body.contains("data-preview-title=\"Tighten notification layout\""));
    assert!(body.contains("data-preview-body=\"Review the updated notification layout before merging.\""));
    assert!(body.contains("id=\"preview\""));
    assert!(body.contains("aria-label=\"Close preview\""));
}

#[test]
fn renders_copy_control_for_selected_rows() {
    let markup = html(&AppState {
        token_loaded: true,
        pull_requests: vec![item(PrKind::ReviewRequested)],
        ..Default::default()
    });

    assert!(markup.contains(".row-action"));
    assert!(markup.contains(".row.selected .row-action"));
    assert!(markup.contains(".row:focus-within .row-action"));
    assert!(markup.contains("pointer-events: none"));
    assert!(markup.contains("pointer-events: auto"));
    assert!(markup.contains("visibility: hidden"));
    assert!(markup.contains("visibility: visible"));
}

#[test]
fn copy_control_keeps_native_button_keyboard_behavior() {
    let row = render_item(&item(PrKind::ReviewRequested), (7_200, 0));
    let copy_button = row
        .split("<button class=\"row-copy row-action\"")
        .nth(1)
        .expect("copy button markup");

    assert!(row.contains("class=\"row-open\" type=\"button\" tabindex=\"-1\" data-row-shortcut=\"true\""));
    assert!(!copy_button.contains("data-row-shortcut=\"true\""));
    assert!(!copy_button.contains("tabindex=\"-1\""));
}

#[test]
fn copy_control_renders_before_age() {
    let row = render_item(&item(PrKind::ReviewRequested), (7_200, 0));
    let copy_index = row.find("class=\"row-copy row-action\"").expect("copy button");
    let age_index = row.find("class=\"age\"").expect("age");

    assert!(copy_index < age_index);
}

#[test]
fn renders_repository_mute_action_for_rows() {
    let row = render_item(&item(PrKind::ReviewRequested), (7_200, 0));

    assert!(row.contains("data-mute-repo-cmd=\"mute-repo:owner/repo\""));
    assert!(row.contains("class=\"row-repo-mute row-action\""));
    assert!(row.contains("aria-label=\"Mute repository in Pullbell\""));
}

#[test]
fn renders_repository_settings() {
    let snapshot = AppState {
        settings: AppSettings::new(
            vec!["owner/repo".to_string()],
            vec!["owner/repo".to_string(), "owner/other".to_string()],
        ),
        ..Default::default()
    };

    let body = render_repository_settings(&snapshot);

    assert!(body.contains("Search repositories"));
    assert!(body.contains("data-repository-setting=\"owner/repo\""));
    assert!(body.contains("data-cmd=\"unmute-repo:owner/repo\""));
    assert!(body.contains("data-cmd=\"mute-repo:owner/other\""));
    assert!(body.contains("GitHub Watch settings are not changed."));
}

#[test]
fn renders_icon_badges_instead_of_letter_badges() {
    let row = render_item(&item(PrKind::ReviewRequested), (7_200, 0));

    assert!(row.contains("class=\"badge review\""));
    assert!(row.contains("aria-label=\"Review requested\""));
    assert!(row.contains("<svg viewBox=\"0 0 24 24\""));
    assert!(!row.contains(">R</div>"));
}

#[test]
fn renders_notification_reason_specific_icons() {
    let row = render_item(
        &PullRequestItem { reason: Some("ci_activity".to_string()), ..notification_item() },
        (7_200, 0),
    );

    assert!(row.contains("class=\"badge ci\""));
    assert!(row.contains("aria-label=\"Unread notification\""));
}

#[test]
fn notification_icon_does_not_use_merged_authored_reason() {
    let row = render_item(
        &PullRequestItem { reason: Some("author".to_string()), ..notification_item() },
        (7_200, 0),
    );

    assert!(row.contains("class=\"badge notify\""));
    assert!(!row.contains("class=\"badge authored\""));
}

#[test]
fn renders_notification_thread_actions_when_available() {
    let row = render_item(&notification_item(), (7_200, 0));

    assert!(row.contains("data-done-cmd=\"done-pr:owner/repo#42\""));
    assert!(!row.contains("data-undo-cmd"));
    assert!(row.contains("data-mute-cmd=\"mute:thread-42\""));
    assert!(!row.contains("thread-42\"\""));
}

#[test]
fn renders_done_action_without_notification_thread() {
    let row = render_item(&item(PrKind::ReviewRequested), (7_200, 0));

    assert!(row.contains("data-done-cmd=\"done-pr:owner/repo#42\""));
    assert!(!row.contains("data-mute-cmd"));
}

#[test]
fn renders_todo_rows_for_done_selection_restore() {
    let review_row = render_item(&item(PrKind::ReviewRequested), (7_200, 0));
    let notification_row = render_item(&notification_item(), (7_200, 0));
    let authored_row = render_item(&item(PrKind::Authored), (7_200, 0));
    let locally_done_row = render_item(
        &PullRequestItem { locally_done: true, ..item(PrKind::ReviewRequested) },
        (7_200, 0),
    );

    assert!(review_row.contains("data-todo-row=\"true\""));
    assert!(notification_row.contains("data-todo-row=\"true\""));
    assert!(!authored_row.contains("data-todo-row=\"true\""));
    assert!(!locally_done_row.contains("data-todo-row=\"true\""));
}

#[test]
fn renders_local_done_review_requests_in_done_section() {
    let body = render_body(&AppState {
        token_loaded: true,
        pull_requests: vec![PullRequestItem { locally_done: true, ..item(PrKind::ReviewRequested) }],
        ..Default::default()
    });

    assert!(body.contains(">To do</span><span>0</span>"));
    assert!(body.contains(">Done</span><span>1</span>"));
    assert!(body.contains("Review requested"));
}

#[test]
fn renders_undo_action_for_local_done_items() {
    let row = render_item(
        &PullRequestItem { locally_done: true, ..item(PrKind::ReviewRequested) },
        (7_200, 0),
    );

    assert!(row.contains("data-undo-cmd=\"undo-pr:owner/repo#42\""));
}

#[test]
fn escapes_dynamic_content() {
    let snapshot = AppState { last_error: Some("<script>alert('x')</script>".to_string()), ..Default::default() };

    let body = render_body(&snapshot);

    assert!(body.contains("&lt;script&gt;alert(&#39;x&#39;)&lt;/script&gt;"));
    assert!(!body.contains("<script>alert"));
}

#[test]
fn relative_age_uses_short_units() {
    let now = (172_800, 0);

    assert_eq!(relative_age((172_740, 0), now), "1m");
    assert_eq!(relative_age((165_600, 0), now), "2h");
    assert_eq!(relative_age((0, 0), now), "2d");
}

#[test]
fn relative_age_of_recent_and_future_updates_is_now() {
    assert_eq!(relative_age((100, 0), (159, 0)), "now");
    assert_eq!(relative_age((500, 0), (100, 0)), "now");
    assert_eq!(relative_age((i64::MIN, 0), (i64::MAX, 0)), "213503982334601d");
    assert_eq!(relative_age((100, 500_000_000), (160, 400_000_000)), "now");
    assert_eq!(relative_age((100, 500_000_000), (160, 500_000_000)), "1m");
}

#[test]
fn clock_time_is_utc_hours_minutes_seconds() {
    assert_eq!(clock_time((0, 0)), "00:00:00");
    assert_eq!(clock_time((3_723, 999_999_999)), "01:02:03");
    assert_eq!(clock_time((86_399, 0)), "23:59:59");
    assert_eq!(clock_time((-1, 0)), "23:59:59");
    assert_eq!(clock_time((86_399, 1_500_000_000)), "23:59:60");
}

#[test]
fn humanizes_notification_reasons() {
    assert_eq!(humanize_reason("review_requested"), "Review Requested");
    assert_eq!(humanize_reason("team-mention"), "Team Mention");
    assert_eq!(humanize_reason("__ci__activity_"), "Ci Activity");
    assert_eq!(humanize_reason(""), "");
    let no_reason = PullRequestItem { reason: None, ..item(PrKind::Authored) };
    assert_eq!(reason_label(&no_reason), "Author");
}

#[test]
fn sorted_values_drop_blanks_and_duplicates() {
    let values = sorted_values(vec![
        "b".to_string(),
        " ".to_string(),
        "a".to_string(),
        "b".to_string(),
        String::new(),
    ]);
    assert_eq!(values, vec!["a".to_string(), "b".to_string()]);
}

#[test]
fn sections_show_eight_rows_then_how_many_more() {
    let items: Vec<PullRequestItem> = (0..10)
        .map(|n| PullRequestItem { id: format!("owner/repo#{n}"), number: n, ..item(PrKind::ReviewRequested) })
        .collect();
    let body = render_body_at(&AppState { pull_requests: items, ..Default::default() }, (7_200, 0));

    assert_eq!(body.matches("class=\"row\"").count(), 8);
    assert!(body.contains("...and 2 more"));
    assert!(body.contains(">To do</span><span>10</span>"));
    assert!(body.contains("All caught up") == false);
    assert!(body.contains("No open PRs being tracked"));
}

#[test]
fn muted_chips_name_at_most_eight_values() {
    let items: Vec<PullRequestItem> = (0..5)
        .map(|n| PullRequestItem {
            repo: format!("org/repo{n}"),
            author: Some(format!("user{n}")),
            ..item(PrKind::Authored)
        })
        .collect();
    let chips = render_muted_chips(&AppState { pull_requests: items, ..Default::default() });

    assert_eq!(chips.matches("<span class=\"chip\">").count(), 9);
    assert!(chips.contains("<span class=\"chip\">+3 more</span>"));
    assert_eq!(
        render_muted_chips(&AppState::default()),
        "<div class=\"chips\"><span class=\"chip empty\">No mute targets available</span></div>"
    );
}

#[test]
fn pinned_card_and_page_follow_the_state() {
    let waiting = AppState {
        pending_auth: Some(PendingAuth {
            user_code: "ABCD-1234".to_string(),
            verification_uri: "https://github.com/login/device".to_string(),
        }),
        ..Default::default()
    };
    let body = render_body_at(&waiting, (0, 0));
    assert!(body.contains("<div class=\"code\">ABCD-1234</div>"));
    assert!(body.contains("data-cmd=\"open:https://github.com/login/device\""));
    assert!(!body.contains("Sign in with GitHub"));

    let update = AppState {
        available_update: Some(AvailableUpdate {
            latest_version: "1.2.3".to_string(),
            release_url: "https://github.com/urugus/Pullbell/releases/tag/v1.2.3".to_string(),
            download_url: None,
            download_name: None,
            checksum_url: None,
        }),
        last_refreshed_at: Some((3_723, 0)),
        ..Default::default()
    };
    let body = render_body_at(&update, (0, 0));
    assert!(body.contains("Update available: v1.2.3"));
    assert!(body.contains("Update with Homebrew"));

    let refreshed = AppState { last_refreshed_at: Some((3_723, 0)), token_loaded: true, ..Default::default() };
    assert!(render_body_at(&refreshed, (0, 0)).contains("Last refreshed at 01:02:03"));

    let page = html_at(&refreshed, (0, 0));
    assert!(page.starts_with("<!doctype html>"));
    assert!(page.ends_with("</html>"));
    assert!(page.contains(&render_body_at(&refreshed, (0, 0))));
}

#[test]
fn short_names_drop_the_owner() {
    assert_eq!(pullbell::panel::short_repo_name("owner/repo"), "repo");
    assert_eq!(pullbell::panel::short_filter_value("plain"), "plain");
    assert_eq!(pullbell::panel::short_filter_value("a/b/"), "");
}

use pullbell::auth::{
    device_code_from_response, interpret_poll_response, next_wait_step, AccessToken, PollOutcome, WaitStep,
    AUTHORIZATION_DENIED, DEFAULT_POLL_INTERVAL, DEVICE_CODE_EXPIRED,
};
use pullbell::github::{
    authored_query, clean_preview, next_page, notification_item, notification_subscription_url,
    notifications_url, plan_notifications, preview_details, pull_request_web_url, review_requested_query,
    search_issue_item, search_reason, search_url, team_review_requested_query, teams_url, NotificationRecord,
    PreviewComment, PreviewDetails, SearchIssue,
};
use pullbell::model::PrKind;

#[test]
fn search_url_percent_encodes_the_query() {
    assert_eq!(
        search_url("is:pr author:me", 2),
        "https://api.github.com/search/issues?q=is%3Apr%20author%3Ame&sort=updated&order=desc&per_page=50&page=2"
    );
}

#[test]
fn builds_list_urls_and_queries() {
    assert_eq!(notifications_url(1), "https://api.github.com/notifications?per_page=100&page=1");
    assert_eq!(teams_url(3), "https://api.github.com/user/teams?per_page=100&page=3");
    assert_eq!(
        notification_subscription_url("9"),
        "https://api.github.com/notifications/threads/9/subscription"
    );
    assert_eq!(review_requested_query("octo"), "is:pr is:open archived:false review-requested:octo");
    assert_eq!(
        team_review_requested_query("org", "team"),
        "is:pr is:open archived:false team-review-requested:org/team"
    );
    assert_eq!(authored_query("octo"), "is:pr is:open archived:false author:octo");
    assert_eq!(search_reason(&PrKind::Authored), "author");
}

#[test]
fn pages_stop_when_short_or_at_the_limit() {
    assert_eq!(next_page(1, 50, 50, 20), Some(2));
    assert_eq!(next_page(1, 49, 50, 20), None);
    assert_eq!(next_page(20, 50, 50, 20), None);
}

#[test]
fn previews_are_trimmed_and_cut() {
    assert_eq!(clean_preview("  hello \n"), Some("hello".to_string()));
    assert_eq!(clean_preview(" \t "), None);
    let long = "x".repeat(1300);
    assert_eq!(clean_preview(&long).map(|p| p.chars().count()), Some(1200));
}

#[test]
fn search_results_become_items() {
    let item = search_issue_item(
        SearchIssue {
            number: 7,
            title: "Fix".to_string(),
            html_url: "https://github.com/o/r/pull/7".to_string(),
            repository_url: "https://api.github.com/repos/o/r".to_string(),
            updated_at: Some((5, 0)),
            body: Some("  body  ".to_string()),
            user_login: Some("me".to_string()),
        },
        PrKind::ReviewRequested,
    );
    assert_eq!(item.id, "o/r#7");
    assert_eq!(item.repo, "o/r");
    assert_eq!(item.reason.as_deref(), Some("review_requested"));
    assert_eq!(item.preview.as_deref(), Some("body"));
    assert_eq!(item.author.as_deref(), Some("me"));
    assert_eq!(item.updated_at, Some((5, 0)));
}

fn record(id: &str, kind: &str, url: Option<&str>) -> NotificationRecord {
    NotificationRecord {
        id: id.to_string(),
        reason: Some("comment".to_string()),
        repository_full_name: "o/r".to_string(),
        subject_title: "Title".to_string(),
        subject_url: url.map(|u| u.to_string()),
        latest_comment_url: None,
        subject_type: kind.to_string(),
        updated_at: Some((1_714_557_600, 0)),
    }
}

#[test]
fn plans_pull_request_notifications_only() {
    let records = vec![
        record("1", "Issue", Some("https://api.github.com/repos/o/r/issues/1")),
        record("2", "PullRequest", Some("https://api.github.com/repos/o/r/pulls/12")),
        record("3", "PullRequest", Some("https://api.github.com/repos/o/r/pulls/abc")),
        record("4", "PullRequest", None),
    ];
    let plan = plan_notifications(&records);
    assert_eq!(plan.len(), 1);
    assert_eq!(plan[0].record_index, 1);
    assert_eq!(plan[0].number, 12);
    assert!(plan[0].fetch_preview);
}

#[test]
fn notification_items_link_to_the_web_page() {
    assert_eq!(
        pull_request_web_url("https://api.github.com/repos/o/r/pulls/12"),
        "https://github.com/o/r/pull/12"
    );
    let item = notification_item(
        record("2", "PullRequest", Some("https://api.github.com/repos/o/r/pulls/12")),
        12,
        PreviewDetails::default(),
    );
    assert_eq!(item.url, "https://github.com/o/r/pull/12");
    assert_eq!(item.id, "o/r#12");
    assert_eq!(item.notification_thread_id.as_deref(), Some("2"));
    assert_eq!(item.kind, PrKind::Notification);
    assert_eq!(item.updated_at, Some((1_714_557_600, 0)));
}

#[test]
fn previews_prefer_the_latest_comment() {
    let details = preview_details(
        Some("https://github.com/o/r/pull/1".to_string()),
        Some("author".to_string()),
        Some("pr body".to_string()),
        Some(PreviewComment { body: Some(" comment ".to_string()), author: None }),
    );
    assert_eq!(details.preview.as_deref(), Some("comment"));
    assert_eq!(details.author.as_deref(), Some("author"));

    let details = preview_details(
        None,
        Some("author".to_string()),
        Some("pr body".to_string()),
        Some(PreviewComment { body: Some("   ".to_string()), author: Some("other".to_string()) }),
    );
    assert_eq!(details.preview.as_deref(), Some("pr body"));
    assert_eq!(details.author.as_deref(), Some("author"));
}

#[test]
fn device_codes_default_their_interval() {
    let code = device_code_from_response("d".to_string(), "u".to_string(), "v".to_string(), 900, None);
    assert_eq!(code.interval, DEFAULT_POLL_INTERVAL);
    let code = device_code_from_response("d".to_string(), "u".to_string(), "v".to_string(), 900, Some(9));
    assert_eq!(code.interval, 9);
}

#[test]
fn poll_answers_are_interpreted() {
    let granted = interpret_poll_response(Some("tok".to_string()), None, None, None, None).unwrap().unwrap();
    assert_eq!(granted.token, "tok");
    assert_eq!(granted.token_type, "bearer");
    assert_eq!(granted.scope, "");
    assert_eq!(
        interpret_poll_response(None, None, None, Some("slow_down".to_string()), None).unwrap().unwrap_err(),
        PollOutcome::SlowDown
    );
    assert_eq!(
        interpret_poll_response(None, None, None, Some("bad".to_string()), Some("why".to_string())).unwrap_err(),
        "GitHub OAuth error: bad why"
    );
    assert_eq!(
        interpret_poll_response(None, None, None, None, None).unwrap_err(),
        "GitHub OAuth response did not include a token or error"
    );
}

#[test]
fn waiting_for_a_token_follows_the_outcome() {
    assert!(matches!(next_wait_step(Err(PollOutcome::SlowDown), 5), WaitStep::PollAgain { interval: 10 }));
    assert!(matches!(next_wait_step(Err(PollOutcome::Pending), 5), WaitStep::PollAgain { interval: 5 }));
    match next_wait_step(Err(PollOutcome::Expired), 5) {
        WaitStep::Failed(m) => assert_eq!(m, DEVICE_CODE_EXPIRED),
        _ => panic!("expected a failure"),
    }
    match next_wait_step(Err(PollOutcome::AccessDenied), 5) {
        WaitStep::Failed(m) => assert_eq!(m, AUTHORIZATION_DENIED),
        _ => panic!("expected a failure"),
    }
    let token = AccessToken { token: "t".to_string(), scope: "repo".to_string(), token_type: "bearer".to_string() };
    assert!(matches!(next_wait_step(Ok(token), 5), WaitStep::Granted(t) if t.token == "t"));
}

#[test]
fn searches_cover_reviews_teams_and_authored() {
    let searches = pullbell::github::pull_request_searches(
        "octo",
        &vec![("org".to_string(), "core".to_string()), ("org".to_string(), "web".to_string())],
    );
    let queries: Vec<(&str, PrKind)> = searches.iter().map(|(q, k)| (q.as_str(), *k)).collect();
    assert_eq!(
        queries,
        vec![
            ("is:pr is:open archived:false review-requested:octo", PrKind::ReviewRequested),
            ("is:pr is:open archived:false team-review-requested:org/core", PrKind::ReviewRequested),
            ("is:pr is:open archived:false team-review-requested:org/web", PrKind::ReviewRequested),
            ("is:pr is:open archived:false author:octo", PrKind::Authored),
        ]
    );
}

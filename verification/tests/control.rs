use pullbell::control::{
    choose_client_id, classify_panel_message, is_pullbell_show_url, is_thread_id, notification_action_label,
    opens_panel, panel_command, AppCommand, PanelMessage, UrlParts, Worker, WorkerAction, WorkerInput,
    DEFAULT_CLIENT_ID,
};
use pullbell::state::{AppState, PendingAuth};

fn parts(text: &str) -> UrlParts {
    let url = url::Url::parse(text).unwrap();
    UrlParts {
        scheme: url.scheme().to_string(),
        host: url.host_str().map(|h| h.to_string()),
        path: url.path().to_string(),
        query: url.query().map(|q| q.to_string()),
        fragment: url.fragment().map(|f| f.to_string()),
    }
}

#[test]
fn accepts_show_deeplink_only() {
    assert!(is_pullbell_show_url(&parts("pullbell://show")));
    assert!(!is_pullbell_show_url(&parts("pullbell://toggle")));
    assert!(!is_pullbell_show_url(&parts("https://github.com/notifications")));
    assert!(!is_pullbell_show_url(&parts("pullbell://show?mode=toggle")));
}

#[test]
fn any_show_link_opens_the_panel() {
    assert!(opens_panel(&vec![parts("pullbell://toggle"), parts("pullbell://show/")]));
    assert!(!opens_panel(&vec![parts("pullbell://show#top")]));
    assert!(!opens_panel(&Vec::new()));
}

#[test]
fn panel_commands_map_to_app_commands() {
    let state = AppState::default();
    assert_eq!(panel_command(&state, "signin"), Some(AppCommand::SignIn));
    assert_eq!(panel_command(&state, "quit"), Some(AppCommand::Quit));
    assert_eq!(
        panel_command(&state, "inbox"),
        Some(AppCommand::OpenUrl("https://github.com/notifications".to_string()))
    );
    assert_eq!(panel_command(&state, "done:123"), Some(AppCommand::MarkNotificationDone("123".to_string())));
    assert_eq!(panel_command(&state, "mute:45"), Some(AppCommand::MuteNotification("45".to_string())));
    assert_eq!(panel_command(&state, "done:12a"), None);
    assert_eq!(panel_command(&state, "mute:"), None);
    assert_eq!(
        panel_command(&state, "open:https://github.com/owner/repo/pull/1"),
        Some(AppCommand::OpenUrl("https://github.com/owner/repo/pull/1".to_string()))
    );
    assert_eq!(panel_command(&state, "open:https://example.com/"), None);
    assert_eq!(panel_command(&state, "bogus"), None);
}

#[test]
fn panel_may_open_the_pending_sign_in_page() {
    let state = AppState {
        pending_auth: Some(PendingAuth {
            user_code: "ABCD".to_string(),
            verification_uri: "https://login.example/device".to_string(),
        }),
        ..Default::default()
    };
    assert_eq!(
        panel_command(&state, "open:https://login.example/device"),
        Some(AppCommand::OpenUrl("https://login.example/device".to_string()))
    );
    assert_eq!(panel_command(&AppState::default(), "open:https://login.example/device"), None);
}

#[test]
fn sorts_out_panel_messages() {
    let state = AppState::default();
    assert_eq!(classify_panel_message(&state, "hide"), PanelMessage::Hide);
    assert_eq!(
        classify_panel_message(&state, "missing-thread:mute"),
        PanelMessage::MissingThread("mute".to_string())
    );
    assert_eq!(classify_panel_message(&state, "refresh"), PanelMessage::Command(AppCommand::Refresh));
    assert_eq!(classify_panel_message(&state, "nothing"), PanelMessage::Unknown);
}

#[test]
fn thread_ids_are_digits() {
    assert!(is_thread_id("123"));
    assert!(!is_thread_id(""));
    assert!(!is_thread_id("thread-1"));
    assert_eq!(notification_action_label("done"), "Done");
    assert_eq!(notification_action_label("mute"), "Mute");
    assert_eq!(notification_action_label("other"), "This action");
}

#[test]
fn missing_thread_sets_an_error() {
    let mut state = AppState { last_status: Some("busy".to_string()), ..Default::default() };
    state.thread_missing("done");
    assert_eq!(state.last_error.as_deref(), Some("Done is available for GitHub notification threads only."));
    assert_eq!(state.last_status, None);
}

#[test]
fn client_id_prefers_environment_then_file() {
    assert_eq!(choose_client_id(Some("env-id".to_string()), Some("file".to_string())), Some("env-id".to_string()));
    assert_eq!(choose_client_id(Some("  ".to_string()), Some("  file-id\n".to_string())), Some("file-id".to_string()));
    assert_eq!(choose_client_id(None, Some(" ".to_string())), Some(DEFAULT_CLIENT_ID.to_string()));
}

#[test]
fn worker_runs_one_sign_in_at_a_time() {
    let mut worker = Worker::new(None);
    assert_eq!(
        worker.step(WorkerInput::Command(AppCommand::SignIn)),
        WorkerAction::StartSignIn { attempt_id: 1 }
    );
    assert_eq!(worker.step(WorkerInput::Command(AppCommand::SignIn)), WorkerAction::SignInAlreadyRunning);
    assert_eq!(
        worker.step(WorkerInput::Command(AppCommand::SignInFinished { attempt_id: 7, token: Some("x".to_string()) })),
        WorkerAction::Nothing
    );
    assert_eq!(worker.token, None);
    assert_eq!(
        worker.step(WorkerInput::Command(AppCommand::SignInFinished { attempt_id: 1, token: Some("t".to_string()) })),
        WorkerAction::Refresh { token: Some("t".to_string()) }
    );
    assert_eq!(worker.token.as_deref(), Some("t"));
    assert_eq!(
        worker.step(WorkerInput::Command(AppCommand::SignIn)),
        WorkerAction::StartSignIn { attempt_id: 2 }
    );
    assert_eq!(worker.step(WorkerInput::Command(AppCommand::SignOut)), WorkerAction::SignOut);
    assert_eq!(worker.token, None);
    assert_eq!(worker.active_sign_in_attempt, None);
    assert_eq!(worker.step(WorkerInput::PollTick), WorkerAction::Refresh { token: None });
    assert_eq!(worker.step(WorkerInput::UpdateTick), WorkerAction::CheckForUpdates { show_status: false });
}

#[test]
fn stale_sign_in_results_are_ignored_after_sign_out() {
    let mut worker = Worker::new(None);
    assert_eq!(
        worker.step(WorkerInput::Command(AppCommand::SignIn)),
        WorkerAction::StartSignIn { attempt_id: 1 }
    );
    assert_eq!(worker.step(WorkerInput::Command(AppCommand::SignOut)), WorkerAction::SignOut);
    assert_eq!(
        worker.step(WorkerInput::Command(AppCommand::SignInFinished { attempt_id: 1, token: Some("t".to_string()) })),
        WorkerAction::Nothing
    );
    assert_eq!(worker.token, None);
    assert_eq!(
        worker.step(WorkerInput::Command(AppCommand::SignIn)),
        WorkerAction::StartSignIn { attempt_id: 2 }
    );
}

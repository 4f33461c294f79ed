use vstd::prelude::*;
use vstd::string::StringExecFns;
use crate::model::clone_opt;
use crate::notifications::{fresh_tracker, NotificationTracker};
use crate::state::AppState;
use crate::text::{
    all_digits, chars_of, is_blank, is_blank_str, is_digit, starts_with, str_eq, str_starts_with,
    strip_prefix, trim, trimmed,
};
use crate::updater::RELEASES_URL;

verus! {

/// The GitHub OAuth client ID built into Pullbell.
pub const DEFAULT_CLIENT_ID: &'static str = "Ov23liYs8QgtSc19mkZs";

/// The GitHub notifications inbox.
pub const INBOX_URL: &'static str = "https://github.com/notifications";

/// What the worker is asked to do.
#[derive(Debug, Clone, PartialEq, Eq)]
pub enum AppCommand {
    SignIn,
    CopySignInCode,
    Refresh,
    CheckForUpdates,
    InstallUpdate,
    SignInFinished { attempt_id: u64, token: Option<String> },
    SignOut,
    MarkNotificationDone(String),
    MuteNotification(String),
    OpenUrl(String),
    Quit,
}

/// The text-free shape of a command, with its texts as character sequences.
pub enum CommandView {
    SignIn,
    CopySignInCode,
    Refresh,
    CheckForUpdates,
    InstallUpdate,
    SignInFinished { attempt_id: u64, token: Option<Seq<char>> },
    SignOut,
    MarkNotificationDone(Seq<char>),
    MuteNotification(Seq<char>),
    OpenUrl(Seq<char>),
    Quit,
}

impl View for AppCommand {
    type V = CommandView;

    open spec fn view(&self) -> CommandView {
        match self {
            AppCommand::SignIn => CommandView::SignIn,
            AppCommand::CopySignInCode => CommandView::CopySignInCode,
            AppCommand::Refresh => CommandView::Refresh,
            AppCommand::CheckForUpdates => CommandView::CheckForUpdates,
            AppCommand::InstallUpdate => CommandView::InstallUpdate,
            AppCommand::SignInFinished { attempt_id, token } => CommandView::SignInFinished {
                attempt_id: *attempt_id,
                token: match token {
                    Some(t) => Some(t@),
                    None => None,
                },
            },
            AppCommand::SignOut => CommandView::SignOut,
            AppCommand::MarkNotificationDone(t) => CommandView::MarkNotificationDone(t@),
            AppCommand::MuteNotification(t) => CommandView::MuteNotification(t@),
            AppCommand::OpenUrl(u) => CommandView::OpenUrl(u@),
            AppCommand::Quit => CommandView::Quit,
        }
    }
}

pub open spec fn opt_command_view(c: Option<AppCommand>) -> Option<CommandView> {
    match c {
        Some(c) => Some(c@),
        None => None,
    }
}

/// A notification thread id: one or more ASCII digits.
pub open spec fn thread_id_text(value: Seq<char>) -> bool {
    value.len() > 0 && all_digits(value)
}

/// Whether `value` is a notification thread id.
pub fn is_thread_id(value: &str) -> (r: bool)
    ensures
        r == thread_id_text(value@),
{
    let v = chars_of(value);
    if v.len() == 0 {
        return false;
    }
    let mut i: usize = 0;
    while i < v.len()
        invariant
            v@ == value@,
            i <= v@.len(),
            forall|k: int| 0 <= k < i ==> is_digit(#[trigger] v@[k]),
        decreases v@.len() - i,
    {
        if !('0' <= v[i] && v[i] <= '9') {
            return false;
        }
        i = i + 1;
    }
    true
}

/// Whether a panel may open `url`: a GitHub page, the device sign-in page
/// that is waiting, or the release page.
pub open spec fn openable_url(pending_uri: Option<Seq<char>>, url: Seq<char>) -> bool {
    starts_with(url, "https://github.com/"@) || pending_uri == Some(url) || url == RELEASES_URL@
}

/// The command that a panel message asks for, if it is a known one.
pub open spec fn panel_command_spec(pending_uri: Option<Seq<char>>, c: Seq<char>) -> Option<
    CommandView,
> {
    if c == "signin"@ {
        Some(CommandView::SignIn)
    } else if c == "copy-signin-code"@ {
        Some(CommandView::CopySignInCode)
    } else if c == "refresh"@ {
        Some(CommandView::Refresh)
    } else if c == "check-updates"@ {
        Some(CommandView::CheckForUpdates)
    } else if c == "install-update"@ {
        Some(CommandView::InstallUpdate)
    } else if c == "signout"@ {
        Some(CommandView::SignOut)
    } else if c == "inbox"@ {
        Some(CommandView::OpenUrl(INBOX_URL@))
    } else if c == "quit"@ {
        Some(CommandView::Quit)
    } else if starts_with(c, "done:"@) && thread_id_text(c.skip(5)) {
        Some(CommandView::MarkNotificationDone(c.skip(5)))
    } else if starts_with(c, "mute:"@) && thread_id_text(c.skip(5)) {
        Some(CommandView::MuteNotification(c.skip(5)))
    } else if starts_with(c, "open:"@) && openable_url(pending_uri, c.skip(5)) {
        Some(CommandView::OpenUrl(c.skip(5)))
    } else {
        None
    }
}

/// A panel message opens nothing but a GitHub page, the device sign-in page
/// that is waiting, or the release page.
pub proof fn panel_opens_only_allowed_urls(pending: Option<Seq<char>>, c: Seq<char>)
    ensures
        panel_command_spec(pending, c) matches Some(CommandView::OpenUrl(u)) ==> openable_url(pending, u),
{
    reveal_strlit("https://github.com/notifications");
    reveal_strlit("https://github.com/");
    if c == "inbox"@ {
        assert(INBOX_URL@.subrange(0, 19) =~= "https://github.com/"@);
    }
}

/// Each fixed panel word asks for its own command, whatever sign-in waits:
/// the buttons for signing in, copying the sign-in code, refreshing, checking
/// for and installing an update, signing out, opening the inbox and quitting.
pub proof fn panel_command_words_map_to_commands(pending: Option<Seq<char>>)
    ensures
        panel_command_spec(pending, "signin"@) == Some(CommandView::SignIn),
        panel_command_spec(pending, "copy-signin-code"@) == Some(CommandView::CopySignInCode),
        panel_command_spec(pending, "refresh"@) == Some(CommandView::Refresh),
        panel_command_spec(pending, "check-updates"@) == Some(CommandView::CheckForUpdates),
        panel_command_spec(pending, "install-update"@) == Some(CommandView::InstallUpdate),
        panel_command_spec(pending, "signout"@) == Some(CommandView::SignOut),
        panel_command_spec(pending, "inbox"@) == Some(
            CommandView::OpenUrl("https://github.com/notifications"@),
        ),
        panel_command_spec(pending, "quit"@) == Some(CommandView::Quit),
{
    reveal_strlit("signin");
    reveal_strlit("copy-signin-code");
    reveal_strlit("refresh");
    reveal_strlit("check-updates");
    reveal_strlit("install-update");
    reveal_strlit("signout");
    reveal_strlit("inbox");
    reveal_strlit("quit");
    reveal_strlit("https://github.com/notifications");
    assert("signin"@.len() == 6);
    assert("copy-signin-code"@.len() == 16);
    assert("refresh"@.len() == 7);
    assert("check-updates"@.len() == 13);
    assert("install-update"@.len() == 14);
    assert("signout"@.len() == 7);
    assert("inbox"@.len() == 5);
    assert("quit"@.len() == 4);
    assert("signout"@[0] != "refresh"@[0]);
}

/// The verification page of the sign-in that waits, if any.
pub open spec fn pending_uri(state: AppState) -> Option<Seq<char>> {
    match state.pending_auth {
        Some(a) => Some(a.verification_uri@),
        None => None,
    }
}

/// The command that the panel message `command` asks for. Thread actions need
/// a thread id; `open:` is limited to `openable_url`.
pub fn panel_command(state: &AppState, command: &str) -> (r: Option<AppCommand>)
    ensures
        opt_command_view(r) == panel_command_spec(pending_uri(*state), command@),
{
    proof {
        reveal_strlit("done:");
        reveal_strlit("mute:");
        reveal_strlit("open:");
    }
    if str_eq(command, "signin") {
        return Some(AppCommand::SignIn);
    }
    if str_eq(command, "copy-signin-code") {
        return Some(AppCommand::CopySignInCode);
    }
    if str_eq(command, "refresh") {
        return Some(AppCommand::Refresh);
    }
    if str_eq(command, "check-updates") {
        return Some(AppCommand::CheckForUpdates);
    }
    if str_eq(command, "install-update") {
        return Some(AppCommand::InstallUpdate);
    }
    if str_eq(command, "signout") {
        return Some(AppCommand::SignOut);
    }
    if str_eq(command, "inbox") {
        return Some(AppCommand::OpenUrl(INBOX_URL.to_string()));
    }
    if str_eq(command, "quit") {
        return Some(AppCommand::Quit);
    }
    if let Some(thread_id) = strip_prefix(command, "done:") {
        if is_thread_id(thread_id.as_str()) {
            return Some(AppCommand::MarkNotificationDone(thread_id));
        }
    }
    if let Some(thread_id) = strip_prefix(command, "mute:") {
        if is_thread_id(thread_id.as_str()) {
            return Some(AppCommand::MuteNotification(thread_id));
        }
    }
    if let Some(url) = strip_prefix(command, "open:") {
        let pending_match = match &state.pending_auth {
            Some(auth) => str_eq(auth.verification_uri.as_str(), url.as_str()),
            None => false,
        };
        if str_starts_with(url.as_str(), "https://github.com/") || pending_match || str_eq(
            RELEASES_URL,
            url.as_str(),
        ) {
            return Some(AppCommand::OpenUrl(url));
        }
    }
    None
}

pub open spec fn action_label_text(action: Seq<char>) -> Seq<char> {
    if action == "done"@ {
        "Done"@
    } else if action == "mute"@ {
        "Mute"@
    } else {
        "This action"@
    }
}

/// The label of a notification action named by a panel message.
pub fn notification_action_label(action: &str) -> (r: &'static str)
    ensures
        r@ == action_label_text(action@),
{
    if str_eq(action, "done") {
        "Done"
    } else if str_eq(action, "mute") {
        "Mute"
    } else {
        "This action"
    }
}

/// An action on a GitHub notification thread.
#[derive(Debug, Clone, Copy, PartialEq, Eq, Structural)]
pub enum NotificationThreadAction {
    Done,
    Mute,
}

impl NotificationThreadAction {
    pub open spec fn label_text(self) -> Seq<char> {
        match self {
            NotificationThreadAction::Done => "Done"@,
            NotificationThreadAction::Mute => "Mute"@,
        }
    }

    pub fn label(self) -> (r: &'static str)
        ensures
            r@ == self.label_text(),
    {
        match self {
            NotificationThreadAction::Done => "Done",
            NotificationThreadAction::Mute => "Mute",
        }
    }
}

impl AppState {
    /// A thread action was asked for while signed out.
    pub fn thread_action_needs_sign_in(&mut self, action: NotificationThreadAction)
        ensures
            final(self).last_error matches Some(m) && m@ == action.label_text()
                + " requires GitHub sign-in."@,
            *final(self) == (AppState {
                is_refreshing: false,
                pending_auth: None,
                last_error: final(self).last_error,
                last_status: None,
                ..*old(self)
            }),
    {
        let mut message = action.label().to_string();
        message.append(" requires GitHub sign-in.");
        self.set_error(message);
    }

    /// A thread action starts.
    pub fn begin_thread_action(&mut self, action: NotificationThreadAction)
        ensures
            final(self).last_status matches Some(m) && m@ == action.label_text()
                + " notification..."@,
            *final(self) == (AppState {
                last_error: None,
                last_status: final(self).last_status,
                ..*old(self)
            }),
    {
        let mut message = action.label().to_string();
        message.append(" notification...");
        self.last_error = None;
        self.last_status = Some(message);
    }

    /// A thread action succeeded and the lists were refreshed.
    pub fn thread_action_done(&mut self, action: NotificationThreadAction)
        ensures
            final(self).last_status matches Some(m) && m@ == action.label_text() + " notification"@,
            *final(self) == (AppState { last_status: final(self).last_status, ..*old(self) }),
    {
        let mut message = action.label().to_string();
        message.append(" notification");
        self.last_status = Some(message);
    }

    /// The panel asked for a thread action on a row without a notification
    /// thread.
    pub fn thread_missing(&mut self, action: &str)
        ensures
            final(self).last_error matches Some(m) && m@ == action_label_text(action@)
                + " is available for GitHub notification threads only."@,
            *final(self) == (AppState {
                is_refreshing: false,
                pending_auth: None,
                last_error: final(self).last_error,
                last_status: None,
                ..*old(self)
            }),
    {
        let mut message = notification_action_label(action).to_string();
        message.append(" is available for GitHub notification threads only.");
        self.set_error(message);
    }
}

/// What the panel sent, sorted out.
#[derive(Debug, Clone, PartialEq, Eq)]
pub enum PanelMessage {
    /// Hide the panel.
    Hide,
    /// A thread action on a row that has no notification thread; holds the
    /// action's name.
    MissingThread(String),
    /// A command for the app.
    Command(AppCommand),
    /// Nothing the app acts on.
    Unknown,
}

/// Sorts out a message from the panel.
pub fn classify_panel_message(state: &AppState, message: &str) -> (r: PanelMessage)
    ensures
        message@ == "hide"@ ==> r == PanelMessage::Hide,
        message@ != "hide"@ && starts_with(message@, "missing-thread:"@) ==> (r matches PanelMessage::MissingThread(a) && a@ == message@.skip(15)),
        message@ != "hide"@ && !starts_with(message@, "missing-thread:"@) ==> match r {
            PanelMessage::Command(c) => panel_command_spec(pending_uri(*state), message@) == Some(c@),
            PanelMessage::Unknown => panel_command_spec(pending_uri(*state), message@) is None,
            _ => false,
        },
{
    proof {
        reveal_strlit("missing-thread:");
    }
    if str_eq(message, "hide") {
        return PanelMessage::Hide;
    }
    if let Some(action) = strip_prefix(message, "missing-thread:") {
        return PanelMessage::MissingThread(action);
    }
    match panel_command(state, message) {
        Some(c) => PanelMessage::Command(c),
        None => PanelMessage::Unknown,
    }
}

/// The OAuth client ID to use: the `PULLBELL_CLIENT_ID` value unless it is
/// blank, else the trimmed contents of the client ID file unless blank,
/// else the built-in ID.
pub open spec fn chosen_client_id(env_value: Option<Seq<char>>, file_contents: Option<Seq<char>>) -> Option<Seq<char>> {
    match env_value {
        Some(v) if !is_blank(v) => Some(v),
        _ => match file_contents {
            Some(f) if !is_blank(f) => Some(trimmed(f)),
            _ => if is_blank(DEFAULT_CLIENT_ID@) {
                None
            } else {
                Some(trimmed(DEFAULT_CLIENT_ID@))
            },
        },
    }
}

/// Picks the OAuth client ID from the environment value and the client ID
/// file's contents, as read.
pub fn choose_client_id(env_value: Option<String>, file_contents: Option<String>) -> (r: Option<String>)
    ensures
        match r {
            Some(s) => chosen_client_id(env_text(env_value), env_text(file_contents)) == Some(s@),
            None => chosen_client_id(env_text(env_value), env_text(file_contents)) is None,
        },
{
    if let Some(v) = env_value {
        if !is_blank_str(v.as_str()) {
            return Some(v);
        }
    }
    if let Some(f) = file_contents {
        let t = trim(f.as_str());
        if !is_blank_str(f.as_str()) {
            return Some(t);
        }
    }
    if is_blank_str(DEFAULT_CLIENT_ID) {
        None
    } else {
        Some(trim(DEFAULT_CLIENT_ID))
    }
}

pub open spec fn env_text(o: Option<String>) -> Option<Seq<char>> {
    match o {
        Some(s) => Some(s@),
        None => None,
    }
}


// ---------------------------------------------------------------------------
// The background worker's decisions
// ---------------------------------------------------------------------------

/// What wakes the background worker.
#[derive(Debug, Clone, PartialEq, Eq)]
pub enum WorkerInput {
    /// The periodic refresh timer fired.
    PollTick,
    /// The periodic update check timer fired.
    UpdateTick,
    /// A command arrived.
    Command(AppCommand),
}

/// What the background worker does in response.
#[derive(Debug, Clone, PartialEq, Eq)]
pub enum WorkerAction {
    /// Refresh the lists, with the token if there is one.
    Refresh { token: Option<String> },
    /// Check for a newer release; `show_status` when the user asked.
    CheckForUpdates { show_status: bool },
    /// Run sign-in attempt `attempt_id` in the background.
    StartSignIn { attempt_id: u64 },
    /// Tell the user that sign-in is already running.
    SignInAlreadyRunning,
    /// Install the available update.
    InstallUpdate,
    /// Delete the stored token and reset the app state.
    SignOut,
    /// Act on a notification thread, with the token if there is one.
    ActOnThread { thread_id: String, action: NotificationThreadAction, token: Option<String> },
    /// Nothing to do.
    Nothing,
}

/// The background worker's own state: the sign-in attempts, the token in use
/// and the notification tracker.
#[derive(Debug)]
pub struct Worker {
    pub next_sign_in_attempt_id: u64,
    pub active_sign_in_attempt: Option<u64>,
    pub token: Option<String>,
    pub tracker: NotificationTracker,
}

/// One step of the background worker: on `input`, the worker `old` becomes
/// `new` and does `action`. A sign-in starts only when none is running; a
/// finished sign-in counts only if it is the running one, and its token, if
/// any, is kept and used for a refresh. Signing out forgets the token, the
/// running sign-in and what the tracker knew.
pub open spec fn worker_step(old: Worker, input: WorkerInput, new: Worker, action: WorkerAction) -> bool {
    match input {
        WorkerInput::PollTick => action == WorkerAction::Refresh { token: old.token }
            && new == old,
        WorkerInput::UpdateTick => action == WorkerAction::CheckForUpdates { show_status: false }
            && new == old,
        WorkerInput::Command(c) => match c {
            AppCommand::SignIn => if old.active_sign_in_attempt is Some {
                action == WorkerAction::SignInAlreadyRunning && new == old
            } else {
                &&& action == WorkerAction::StartSignIn { attempt_id: old.next_sign_in_attempt_id }
                &&& new.active_sign_in_attempt == Some(old.next_sign_in_attempt_id)
                &&& new.next_sign_in_attempt_id == old.next_sign_in_attempt_id + 1
                &&& new.token == old.token
                &&& new.tracker == old.tracker
            },
            AppCommand::SignInFinished { attempt_id, token } => if old.active_sign_in_attempt
                != Some(attempt_id) {
                action == WorkerAction::Nothing && new == old
            } else {
                &&& new.active_sign_in_attempt is None
                &&& new.next_sign_in_attempt_id == old.next_sign_in_attempt_id
                &&& new.tracker == old.tracker
                &&& match token {
                    Some(t) => new.token == Some(t) && action == WorkerAction::Refresh { token: Some(t) },
                    None => new.token == old.token && action == WorkerAction::Nothing,
                }
            },
            AppCommand::Refresh => action == WorkerAction::Refresh { token: old.token }
                && new == old,
            AppCommand::CheckForUpdates => action == WorkerAction::CheckForUpdates { show_status: true }
                && new == old,
            AppCommand::InstallUpdate => action == WorkerAction::InstallUpdate && new == old,
            AppCommand::SignOut => {
                &&& action == WorkerAction::SignOut
                &&& new.active_sign_in_attempt is None
                &&& new.token is None
                &&& new.tracker@ == fresh_tracker()
                &&& new.next_sign_in_attempt_id == old.next_sign_in_attempt_id
            },
            AppCommand::MarkNotificationDone(id) => action == WorkerAction::ActOnThread {
                thread_id: id,
                action: NotificationThreadAction::Done,
                token: old.token,
            } && new == old,
            AppCommand::MuteNotification(id) => action == WorkerAction::ActOnThread {
                thread_id: id,
                action: NotificationThreadAction::Mute,
                token: old.token,
            } && new == old,
            _ => action == WorkerAction::Nothing && new == old,
        },
    }
}

/// The running sign-in attempt, if any, has an id below the next one.
pub open spec fn attempts_in_order(w: Worker) -> bool {
    w.active_sign_in_attempt matches Some(a) ==> a < w.next_sign_in_attempt_id
}

/// Every step keeps the running sign-in attempt's id below the next one, so
/// an attempt id is never handed out twice while it runs.
pub proof fn worker_step_keeps_attempts_in_order(old: Worker, input: WorkerInput, new: Worker, action: WorkerAction)
    requires
        attempts_in_order(old),
        worker_step(old, input, new, action),
    ensures
        attempts_in_order(new),
{
}

/// Sign-ins run one at a time. Asking to sign in while an attempt runs
/// starts nothing and changes nothing; asking when none runs starts one
/// attempt whose id is above every id handed out before; a finished sign-in
/// whose id is not the running attempt's (a stale one, or one from before a
/// sign-out) is ignored: no token is kept and nothing is refreshed.
pub proof fn sign_ins_run_one_at_a_time(old: Worker, input: WorkerInput, new: Worker, action: WorkerAction)
    requires
        attempts_in_order(old),
        worker_step(old, input, new, action),
    ensures
        input matches WorkerInput::Command(AppCommand::SignIn) ==> if old.active_sign_in_attempt is Some {
            action == WorkerAction::SignInAlreadyRunning && new == old
        } else {
            &&& action == WorkerAction::StartSignIn { attempt_id: old.next_sign_in_attempt_id }
            &&& new.active_sign_in_attempt == Some(old.next_sign_in_attempt_id)
            &&& old.next_sign_in_attempt_id < new.next_sign_in_attempt_id
        },
        input matches WorkerInput::Command(AppCommand::SignInFinished { attempt_id, token })
            && old.active_sign_in_attempt != Some(attempt_id) ==> action == WorkerAction::Nothing && new == old,
        old.next_sign_in_attempt_id <= new.next_sign_in_attempt_id,
        attempts_in_order(new),
{
}

impl Worker {
    /// A worker that starts with the stored token, if any.
    pub fn new(token: Option<String>) -> (r: Self)
        ensures
            r.next_sign_in_attempt_id == 1,
            r.active_sign_in_attempt is None,
            r.token == token,
            r.tracker@ == fresh_tracker(),
    {
        Worker {
            next_sign_in_attempt_id: 1,
            active_sign_in_attempt: None,
            token,
            tracker: NotificationTracker::new(),
        }
    }

    /// Decides what to do about `input` and updates the worker's state, as
    /// `worker_step` says.
    pub fn step(&mut self, input: WorkerInput) -> (action: WorkerAction)
        requires
            (input matches WorkerInput::Command(AppCommand::SignIn) && old(self).active_sign_in_attempt is None)
                ==> old(self).next_sign_in_attempt_id < u64::MAX,
        ensures
            worker_step(*old(self), input, *final(self), action),
    {
        match input {
            WorkerInput::PollTick => WorkerAction::Refresh { token: clone_opt(&self.token) },
            WorkerInput::UpdateTick => WorkerAction::CheckForUpdates { show_status: false },
            WorkerInput::Command(command) => match command {
                AppCommand::SignIn => {
                    if self.active_sign_in_attempt.is_some() {
                        WorkerAction::SignInAlreadyRunning
                    } else {
                        let attempt_id = self.next_sign_in_attempt_id;
                        self.next_sign_in_attempt_id = attempt_id + 1;
                        self.active_sign_in_attempt = Some(attempt_id);
                        WorkerAction::StartSignIn { attempt_id }
                    }
                },
                AppCommand::SignInFinished { attempt_id, token } => {
                    if self.active_sign_in_attempt != Some(attempt_id) {
                        return WorkerAction::Nothing;
                    }
                    self.active_sign_in_attempt = None;
                    match token {
                        Some(t) => {
                            self.token = Some(t.clone());
                            WorkerAction::Refresh { token: Some(t) }
                        },
                        None => WorkerAction::Nothing,
                    }
                },
                AppCommand::Refresh => WorkerAction::Refresh { token: clone_opt(&self.token) },
                AppCommand::CheckForUpdates => WorkerAction::CheckForUpdates { show_status: true },
                AppCommand::InstallUpdate => WorkerAction::InstallUpdate,
                AppCommand::SignOut => {
                    self.active_sign_in_attempt = None;
                    self.token = None;
                    self.tracker.reset();
                    WorkerAction::SignOut
                },
                AppCommand::MarkNotificationDone(thread_id) => WorkerAction::ActOnThread {
                    thread_id,
                    action: NotificationThreadAction::Done,
                    token: clone_opt(&self.token),
                },
                AppCommand::MuteNotification(thread_id) => WorkerAction::ActOnThread {
                    thread_id,
                    action: NotificationThreadAction::Mute,
                    token: clone_opt(&self.token),
                },
                AppCommand::OpenUrl(_) | AppCommand::CopySignInCode | AppCommand::Quit => WorkerAction::Nothing,
            },
        }
    }
}

// ---------------------------------------------------------------------------
// Deep links
// ---------------------------------------------------------------------------

/// The parts of a parsed URL that deep links are judged by: the scheme, the
/// host, the path, the query and the fragment, as `url::Url` reports them.
#[derive(Debug, Clone, PartialEq, Eq)]
pub struct UrlParts {
    pub scheme: String,
    pub host: Option<String>,
    pub path: String,
    pub query: Option<String>,
    pub fragment: Option<String>,
}

/// Whether a URL with these parts is `pullbell://show`, with an empty path
/// or `/` and neither query nor fragment.
pub open spec fn is_show_link(url: UrlParts) -> bool {
    &&& url.scheme@ == "pullbell"@
    &&& url.host matches Some(h) && h@ == "show"@
    &&& (url.path@ == ""@ || url.path@ == "/"@)
    &&& url.query is None
    &&& url.fragment is None
}

/// Whether `url` is the deep link that shows the panel.
pub fn is_pullbell_show_url(url: &UrlParts) -> (r: bool)
    ensures
        r == is_show_link(*url),
{
    str_eq(url.scheme.as_str(), "pullbell") && match &url.host {
        Some(h) => str_eq(h.as_str(), "show"),
        None => false,
    } && (str_eq(url.path.as_str(), "") || str_eq(url.path.as_str(), "/")) && url.query.is_none()
        && url.fragment.is_none()
}

/// Whether any of the URLs the app was opened with shows the panel.
pub fn opens_panel(urls: &Vec<UrlParts>) -> (r: bool)
    ensures
        r == exists|i: int| 0 <= i < urls@.len() && is_show_link(#[trigger] urls@[i]),
{
    let mut i: usize = 0;
    while i < urls.len()
        invariant
            i <= urls@.len(),
            forall|k: int| 0 <= k < i ==> !is_show_link(#[trigger] urls@[k]),
        decreases urls@.len() - i,
    {
        if is_pullbell_show_url(&urls[i]) {
            return true;
        }
        i = i + 1;
    }
    false
}

} // verus!

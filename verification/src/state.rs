use vstd::prelude::*;
use vstd::string::StringExecFns;
use crate::model::{AppSettings, AvailableUpdate, LocalDonePr, LocalDonePrs, PullRequestItem};
use crate::text::{decimal, decimal_reads_back, parsed_u64, push_decimal};

verus! {

/// A GitHub device sign-in that waits for the user to enter the code.
#[derive(Debug, Clone)]
pub struct PendingAuth {
    pub user_code: String,
    pub verification_uri: String,
}

/// Everything the menu bar item and the panel show. A time is the whole
/// seconds since the Unix epoch and the nanoseconds past them.
#[derive(Debug, Clone)]
pub struct AppState {
    pub signed_in_as: Option<String>,
    pub token_loaded: bool,
    pub is_refreshing: bool,
    pub is_checking_updates: bool,
    pub is_installing_update: bool,
    pub last_error: Option<String>,
    pub last_status: Option<String>,
    pub update_status: Option<String>,
    pub last_refreshed_at: Option<(i64, u32)>,
    pub last_update_checked_at: Option<(i64, u32)>,
    pub available_update: Option<AvailableUpdate>,
    pub pending_auth: Option<PendingAuth>,
    pub pull_requests: Vec<PullRequestItem>,
    pub local_done_prs: LocalDonePrs,
    pub settings: AppSettings,
}

/// The files and version of a release that can be installed.
#[derive(Debug, Clone, PartialEq, Eq)]
pub struct UpdateDownload {
    pub download_url: String,
    pub download_name: String,
    pub checksum_url: String,
    pub latest_version: String,
}

/// How many of `items` still need action.
pub open spec fn todo_total(items: Seq<PullRequestItem>) -> nat
    decreases items.len(),
{
    if items.len() == 0 {
        0
    } else {
        todo_total(items.drop_last()) + if items.last().needs_action() {
            1nat
        } else {
            0nat
        }
    }
}

pub proof fn todo_total_le_len(items: Seq<PullRequestItem>)
    ensures
        todo_total(items) <= items.len(),
    decreases items.len(),
{
    if items.len() > 0 {
        todo_total_le_len(items.drop_last());
    }
}

/// The menu bar title for `todo` open items.
pub open spec fn tray_title_text(todo: nat) -> Seq<char> {
    if todo == 0 {
        "PR"@
    } else {
        "PR "@ + decimal(todo)
    }
}

proof fn todo_total_zero(items: Seq<PullRequestItem>)
    ensures
        todo_total(items) == 0 <==> forall|k: int| 0 <= k < items.len() ==> !(#[trigger] items[k]).needs_action(),
    decreases items.len(),
{
    if items.len() > 0 {
        let init = items.drop_last();
        todo_total_zero(init);
        assert forall|k: int| 0 <= k < init.len() implies init[k] == items[k] by {}
        if todo_total(items) == 0 {
            assert forall|k: int| 0 <= k < items.len() implies !(#[trigger] items[k]).needs_action() by {
                if k < items.len() - 1 {
                    assert(!init[k].needs_action());
                }
            }
        } else if forall|k: int| 0 <= k < items.len() ==> !(#[trigger] items[k]).needs_action() {
            assert(!items[items.len() - 1].needs_action());
            assert forall|k: int| 0 <= k < init.len() implies !(#[trigger] init[k]).needs_action() by {
                assert(!items[k].needs_action());
            }
        }
    }
}

/// The menu bar title counts the items that need action: it is `PR` alone
/// exactly when none does, and otherwise `PR ` followed by a number that
/// reads back as how many do.
pub proof fn tray_title_reads_back_the_count(items: Seq<PullRequestItem>)
    requires
        items.len() <= u64::MAX,
    ensures
        tray_title_text(todo_total(items)) == "PR"@ <==> forall|k: int| 0 <= k < items.len() ==> !(#[trigger] items[k]).needs_action(),
        todo_total(items) > 0 ==> tray_title_text(todo_total(items)).take(3) == "PR "@
            && parsed_u64(tray_title_text(todo_total(items)).skip(3)) == Some(todo_total(items) as u64),
{
    reveal_strlit("PR");
    reveal_strlit("PR ");
    todo_total_zero(items);
    todo_total_le_len(items);
    let n = todo_total(items);
    decimal_reads_back(n);
    if n > 0 {
        let t = tray_title_text(n);
        assert(t == "PR "@ + decimal(n));
        assert(t.take(3) =~= "PR "@);
        assert(t.skip(3) =~= decimal(n));
        assert(t.len() != 2);
    }
}

impl AppState {
    /// The state before sign-in: nothing loaded, nothing pending.
    pub open spec fn is_initial(self) -> bool {
        &&& self.signed_in_as is None
        &&& !self.token_loaded
        &&& !self.is_refreshing
        &&& !self.is_checking_updates
        &&& !self.is_installing_update
        &&& self.last_error is None
        &&& self.last_status is None
        &&& self.update_status is None
        &&& self.last_refreshed_at is None
        &&& self.last_update_checked_at is None
        &&& self.available_update is None
        &&& self.pending_auth is None
        &&& self.pull_requests@.len() == 0
        &&& self.local_done_prs@ == Map::<Seq<char>, LocalDonePr>::empty()
        &&& self.settings.muted() == Set::<Seq<char>>::empty()
        &&& self.settings.known() == Set::<Seq<char>>::empty()
    }

    /// The menu bar title: `PR`, followed by the number of items that need
    /// action when there are any.
    pub fn tray_title(&self) -> (r: String)
        ensures
            r@ == tray_title_text(todo_total(self.pull_requests@)),
    {
        let (count, _) = self.todo_done_counts();
        if count == 0 {
            "PR".to_string()
        } else {
            let mut r = "PR ".to_string();
            push_decimal(&mut r, count as u64);
            r
        }
    }

    /// How many items need action.
    pub fn todo_count(&self) -> (r: usize)
        ensures
            r == todo_total(self.pull_requests@),
    {
        self.todo_done_counts().0
    }

    /// How many items need no action.
    pub fn done_count(&self) -> (r: usize)
        ensures
            r == self.pull_requests@.len() - todo_total(self.pull_requests@),
    {
        self.todo_done_counts().1
    }

    /// The number of items that need action and of those that do not; together
    /// they count every item once.
    pub fn todo_done_counts(&self) -> (r: (usize, usize))
        ensures
            r.0 == todo_total(self.pull_requests@),
            r.0 + r.1 == self.pull_requests@.len(),
    {
        let mut todo: usize = 0;
        let mut done: usize = 0;
        let mut i: usize = 0;
        while i < self.pull_requests.len()
            invariant
                i <= self.pull_requests@.len(),
                todo == todo_total(self.pull_requests@.take(i as int)),
                todo + done == i,
            decreases self.pull_requests@.len() - i,
        {
            assert(self.pull_requests@.take(i + 1).drop_last() == self.pull_requests@.take(i as int));
            if self.pull_requests[i].is_todo() {
                todo = todo + 1;
            } else {
                done = done + 1;
            }
            i = i + 1;
        }
        assert(self.pull_requests@.take(i as int) == self.pull_requests@);
        (todo, done)
    }

    /// Forgets the last error and status message.
    pub fn clear_error(&mut self)
        ensures
            *final(self) == (AppState { last_error: None, last_status: None, ..*old(self) }),
    {
        self.last_error = None;
        self.last_status = None;
    }

    /// Shows `error`: stops the refresh indicator and drops a pending sign-in.
    pub fn set_error(&mut self, error: String)
        ensures
            *final(self) == (AppState {
                is_refreshing: false,
                pending_auth: None,
                last_error: Some(error),
                last_status: None,
                ..*old(self)
            }),
    {
        self.is_refreshing = false;
        self.pending_auth = None;
        self.last_error = Some(error);
        self.last_status = None;
    }

    /// A refresh starts.
    pub fn begin_refresh(&mut self)
        ensures
            *final(self) == (AppState {
                is_refreshing: true,
                last_error: None,
                last_status: None,
                ..*old(self)
            }),
    {
        self.is_refreshing = true;
        self.last_error = None;
        self.last_status = None;
    }

    /// A refresh found no token: the user is signed out and nothing is listed.
    pub fn refresh_without_token(&mut self)
        ensures
            final(self).pull_requests@.len() == 0,
            *final(self) == (AppState {
                is_refreshing: false,
                token_loaded: false,
                pull_requests: final(self).pull_requests,
                ..*old(self)
            }),
    {
        self.is_refreshing = false;
        self.token_loaded = false;
        self.pull_requests.clear();
    }

    /// A refresh at time `now` loaded `items` for the user `login`.
    pub fn finish_refresh(&mut self, login: String, items: Vec<PullRequestItem>, now: (i64, u32))
        ensures
            *final(self) == (AppState {
                signed_in_as: Some(login),
                token_loaded: true,
                is_refreshing: false,
                last_refreshed_at: Some(now),
                last_error: None,
                pull_requests: items,
                ..*old(self)
            }),
    {
        self.signed_in_as = Some(login);
        self.token_loaded = true;
        self.is_refreshing = false;
        self.last_refreshed_at = Some(now);
        self.last_error = None;
        self.pull_requests = items;
    }

    /// Sign-in cannot start: no OAuth client ID is configured.
    pub fn client_id_missing(&mut self)
        ensures
            *final(self) == (AppState {
                is_refreshing: false,
                pending_auth: None,
                last_error: Some(final(self).last_error.unwrap()),
                last_status: None,
                ..*old(self)
            }),
            final(self).last_error.unwrap()@
                == "OAuth client ID is not configured. Set PULLBELL_CLIENT_ID or ~/.config/pullbell/client_id."@,
    {
        self.set_error(
            "OAuth client ID is not configured. Set PULLBELL_CLIENT_ID or ~/.config/pullbell/client_id.".to_string(),
        );
    }

    /// GitHub issued a device code: the user is asked to enter it.
    pub fn await_device_approval(&mut self, user_code: String, verification_uri: String)
        ensures
            final(self).pending_auth == Some(PendingAuth { user_code, verification_uri }),
            final(self).last_error matches Some(m) && m@ == "Enter GitHub code "@ + user_code@
                + ". The code was copied to the clipboard."@,
            *final(self) == (AppState {
                pending_auth: final(self).pending_auth,
                last_error: final(self).last_error,
                ..*old(self)
            }),
    {
        let mut message = "Enter GitHub code ".to_string();
        message.append(user_code.as_str());
        message.append(". The code was copied to the clipboard.");
        self.pending_auth = Some(PendingAuth { user_code, verification_uri });
        self.last_error = Some(message);
    }

    /// The token was granted and stored.
    pub fn sign_in_succeeded(&mut self)
        ensures
            *final(self) == (AppState {
                token_loaded: true,
                last_error: None,
                pending_auth: None,
                ..*old(self)
            }),
    {
        self.token_loaded = true;
        self.last_error = None;
        self.pending_auth = None;
    }

    /// A second sign-in was asked for while one is running.
    pub fn note_sign_in_in_progress(&mut self)
        ensures
            final(self).last_status matches Some(m) && m@ == "GitHub sign-in is already in progress."@,
            *final(self) == (AppState { last_status: final(self).last_status, ..*old(self) }),
    {
        self.last_status = Some("GitHub sign-in is already in progress.".to_string());
    }

    /// Asks for an update check; returns whether one should start now. None
    /// starts while one is running; a check that the user asked for
    /// (`show_status`) reports that or clears the last update status.
    pub fn begin_update_check(&mut self, show_status: bool) -> (start: bool)
        ensures
            start == !old(self).is_checking_updates,
            final(self).is_checking_updates,
            start && show_status ==> final(self).update_status is None,
            !start && show_status ==> (final(self).update_status matches Some(m) && m@
                == "Update check already in progress"@),
            !show_status ==> final(self).update_status == old(self).update_status,
            *final(self) == (AppState {
                is_checking_updates: true,
                update_status: final(self).update_status,
                ..*old(self)
            }),
    {
        if self.is_checking_updates {
            if show_status {
                self.update_status = Some("Update check already in progress".to_string());
            }
            return false;
        }
        self.is_checking_updates = true;
        if show_status {
            self.update_status = None;
        }
        true
    }

    /// An update check ended at time `now` with `result`: a newer release,
    /// none, or an error text. Failures of background checks stay silent.
    pub fn finish_update_check(
        &mut self,
        result: Result<Option<AvailableUpdate>, String>,
        show_status: bool,
        now: (i64, u32),
    )
        ensures
            !final(self).is_checking_updates,
            final(self).last_update_checked_at == Some(now),
            match result {
                Ok(update) => {
                    &&& final(self).available_update == update
                    &&& update is Some ==> final(self).update_status is None
                    &&& update is None && show_status ==> (final(self).update_status matches Some(m)
                        && m@ == "Pullbell is up to date"@)
                    &&& update is None && !show_status ==> final(self).update_status
                        == old(self).update_status
                },
                Err(e) => {
                    &&& show_status ==> final(self).available_update is None
                        && (final(self).update_status matches Some(m) && m@ == "Update check failed: "@
                        + e@)
                    &&& !show_status ==> final(self).available_update == old(self).available_update
                        && final(self).update_status == old(self).update_status
                },
            },
            *final(self) == (AppState {
                is_checking_updates: false,
                last_update_checked_at: Some(now),
                available_update: final(self).available_update,
                update_status: final(self).update_status,
                ..*old(self)
            }),
    {
        self.is_checking_updates = false;
        self.last_update_checked_at = Some(now);
        match result {
            Ok(update) => {
                let found = update.is_some();
                self.available_update = update;
                if found {
                    self.update_status = None;
                } else if show_status {
                    self.update_status = Some("Pullbell is up to date".to_string());
                }
            },
            Err(error) => {
                if show_status {
                    self.available_update = None;
                    let mut message = "Update check failed: ".to_string();
                    message.append(error.as_str());
                    self.update_status = Some(message);
                }
            },
        }
    }

    /// Takes the available update for installing. With no update, or one
    /// whose release lacks the app archive, its name or its checksums, the
    /// update is dropped with a status message and nothing is returned.
    pub fn take_update_for_install(&mut self) -> (r: Option<UpdateDownload>)
        ensures
            final(self).available_update is None,
            match old(self).available_update {
                None => r is None && (final(self).update_status matches Some(m) && m@
                    == "There is no update ready to install."@),
                Some(u) => match (u.download_url, u.download_name, u.checksum_url) {
                    (Some(d), Some(n), Some(c)) => r == Some(
                        UpdateDownload {
                            download_url: d,
                            download_name: n,
                            checksum_url: c,
                            latest_version: u.latest_version,
                        },
                    ) && final(self).update_status == old(self).update_status,
                    _ => r is None && (final(self).update_status matches Some(m) && m@
                        == "This release does not include a verified app update."@),
                },
            },
            *final(self) == (AppState {
                available_update: None,
                update_status: final(self).update_status,
                ..*old(self)
            }),
    {
        let update = self.available_update.take();
        match update {
            None => {
                self.update_status = Some("There is no update ready to install.".to_string());
                None
            },
            Some(u) => match (u.download_url, u.download_name, u.checksum_url) {
                (Some(d), Some(n), Some(c)) => Some(
                    UpdateDownload {
                        download_url: d,
                        download_name: n,
                        checksum_url: c,
                        latest_version: u.latest_version,
                    },
                ),
                _ => {
                    self.update_status = Some(
                        "This release does not include a verified app update.".to_string(),
                    );
                    None
                },
            },
        }
    }

    /// The app update was started, or failed to start with `result`'s error.
    pub fn app_update_started(&mut self, result: Result<(), String>)
        ensures
            final(self).available_update is None,
            match result {
                Ok(()) => final(self).update_status matches Some(m) && m@
                    == "Update started. Pullbell will restart when it is ready."@,
                Err(e) => final(self).update_status matches Some(m) && m@
                    == "Update could not start: "@ + e@,
            },
            *final(self) == (AppState {
                available_update: None,
                update_status: final(self).update_status,
                ..*old(self)
            }),
    {
        self.available_update = None;
        match result {
            Ok(()) => {
                self.update_status = Some(
                    "Update started. Pullbell will restart when it is ready.".to_string(),
                );
            },
            Err(error) => {
                let mut message = "Update could not start: ".to_string();
                message.append(error.as_str());
                self.update_status = Some(message);
            },
        }
    }
}

impl Default for AppState {
    fn default() -> (r: Self)
        ensures
            r.is_initial(),
    {
        AppState {
            signed_in_as: None,
            token_loaded: false,
            is_refreshing: false,
            is_checking_updates: false,
            is_installing_update: false,
            last_error: None,
            last_status: None,
            update_status: None,
            last_refreshed_at: None,
            last_update_checked_at: None,
            available_update: None,
            pending_auth: None,
            pull_requests: Vec::new(),
            local_done_prs: LocalDonePrs::new(),
            settings: AppSettings::empty(),
        }
    }
}

} // verus!

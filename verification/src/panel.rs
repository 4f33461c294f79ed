use vstd::prelude::*;
use vstd::string::StringExecFns;
use crate::model::{copy_strings, opt_text, AppSettings, PrKind, PullRequestItem};
use crate::state::{todo_total, AppState};
use crate::clock::{current_time, is_clock_time, NANOS_PER_SECOND};
use crate::updater::{APP_VERSION, RELEASES_URL};
use crate::text::{
    after_last, after_last_char, chars_of, decimal, decimal_string, digit_char, digit_of,
    escaped, insert_sorted, is_blank, is_blank_str, push_char, push_decimal, push_escaped,
    sorted_contains, sorted_texts, split_chars, split_on, str_eq, strictly_sorted, strictly_sorted_is_sorted_texts, strictly_sorted_len,
    string_of_range, texts,
};

verus! {

broadcast use vstd::string::group_string_axioms;

// ---------------------------------------------------------------------------
// Times
// ---------------------------------------------------------------------------

/// `n` (`n < 100`) as two decimal digits, zero-padded.
pub open spec fn two_digits(n: nat) -> Seq<char> {
    seq![digit_char(n / 10), digit_char(n % 10)]
}

/// The UTC time of day, `HH:MM:SS`, of the time `t` (seconds since the
/// Unix epoch and nanoseconds past them); a leap second shows as second 60.
pub open spec fn clock_text(t: (i64, u32)) -> Seq<char> {
    let d = t.0 % 86400;
    let leap: int = if t.1 >= NANOS_PER_SECOND { 1 } else { 0 };
    two_digits((d / 3600) as nat) + ":"@ + two_digits(((d % 3600) / 60) as nat) + ":"@
        + two_digits((d % 60 + leap) as nat)
}

fn push_two_digits(s: &mut String, n: u64)
    requires
        n < 100,
    ensures
        final(s)@ == old(s)@ + two_digits(n as nat),
{
    let ghost start = s@;
    push_char(s, digit_of(n / 10));
    push_char(s, digit_of(n % 10));
    assert(s@ =~= start + two_digits(n as nat));
}

/// The second of the UTC day at which the `secs`-th second after the Unix
/// epoch falls.
fn second_of_day(secs: i64) -> (r: u64)
    ensures
        r as int == secs as int % 86400,
        r < 86400,
{
    let t: u64 = if secs >= 0 {
        (secs as u64) % 86400
    } else {
        let back: u64 = (((0 - (secs as i128)) as u128) % 86400) as u64;
        if back == 0 {
            0
        } else {
            86400 - back
        }
    };
    t
}

/// The UTC time of day of `t`, as `HH:MM:SS`.
pub fn clock_time(t: (i64, u32)) -> (r: String)
    ensures
        r@ == clock_text(t),
{
    let d = second_of_day(t.0);
    let leap: u64 = if t.1 >= NANOS_PER_SECOND {
        1
    } else {
        0
    };
    let mut r = String::new();
    push_two_digits(&mut r, d / 3600);
    r.append(":");
    push_two_digits(&mut r, (d % 3600) / 60);
    r.append(":");
    push_two_digits(&mut r, d % 60 + leap);
    assert(r@ =~= clock_text(t));
    r
}

/// How long ago something happened, `age` seconds back, in the largest
/// whole unit: days, hours, minutes, or `now` under a minute.
pub open spec fn age_text(age: int) -> Seq<char> {
    if age >= 86400 {
        decimal((age / 86400) as nat) + "d"@
    } else if age >= 3600 {
        decimal((age / 3600) as nat) + "h"@
    } else if age >= 60 {
        decimal((age / 60) as nat) + "m"@
    } else {
        "now"@
    }
}

/// The whole seconds from `from` to `to`, as chrono counts them
/// (`DateTime::signed_duration_since`, then `num_seconds`): the difference
/// of the seconds and of the nanoseconds, where a leap second at one end
/// counts only when the other end lies at a later second of its day.
pub open spec fn elapsed_seconds(from: (i64, u32), to: (i64, u32)) -> int {
    let day_from = from.0 % 86400;
    let day_to = to.0 % 86400;
    let adjust: int = if day_to > day_from && from.1 >= NANOS_PER_SECOND {
        1
    } else if day_to < day_from && to.1 >= NANOS_PER_SECOND {
        -1
    } else {
        0
    };
    to.0 - from.0 + adjust + (to.1 - from.1) / (NANOS_PER_SECOND as int)
}

/// The age of an update at `updated_at` seen at `now`; an update in the
/// future counts as happening now.
pub open spec fn relative_age_text(updated_at: (i64, u32), now: (i64, u32)) -> Seq<char> {
    let e = elapsed_seconds(updated_at, now);
    age_text(if e < 0 { 0 } else { e })
}

/// The age of an update at `updated_at` seen at `now`, in short units.
pub fn relative_age(updated_at: (i64, u32), now: (i64, u32)) -> (r: String)
    ensures
        r@ == relative_age_text(updated_at, now),
{
    let day_from = second_of_day(updated_at.0);
    let day_to = second_of_day(now.0);
    let mut secs: i128 = now.0 as i128 - updated_at.0 as i128;
    if day_to > day_from && updated_at.1 >= NANOS_PER_SECOND {
        secs = secs + 1;
    } else if day_to < day_from && now.1 >= NANOS_PER_SECOND {
        secs = secs - 1;
    }
    let frac: i128 = now.1 as i128 - updated_at.1 as i128;
    let carry: i128 = if frac >= 0 {
        ((frac as u128) / (NANOS_PER_SECOND as u128)) as i128
    } else {
        let back: u128 = (0 - frac) as u128;
        0 - (((back + (NANOS_PER_SECOND as u128) - 1) / (NANOS_PER_SECOND as u128)) as i128)
    };
    assert(carry as int == (frac as int) / (NANOS_PER_SECOND as int));
    let total: i128 = secs + carry;
    let age: u128 = if total < 0 {
        0
    } else {
        total as u128
    };
    if age >= 86400 {
        let mut r = decimal_string((age / 86400) as u64);
        r.append("d");
        r
    } else if age >= 3600 {
        let mut r = decimal_string((age / 3600) as u64);
        r.append("h");
        r
    } else if age >= 60 {
        let mut r = decimal_string((age / 60) as u64);
        r.append("m");
        r
    } else {
        "now".to_string()
    }
}

// ---------------------------------------------------------------------------
// Notification reasons
// ---------------------------------------------------------------------------

/// The text that `char::to_uppercase` yields for `c`.
pub uninterp spec fn uppercase_of(c: char) -> Seq<char>;

/// Uppercases one character (`char::to_uppercase`); the result may have
/// more than one character. An ASCII lowercase letter becomes its capital;
/// any other ASCII character has no uppercase mapping and stays as it is.
#[verifier::external_body]
fn uppercase(c: char) -> (r: String)
    ensures
        r@ == uppercase_of(c),
        'a' <= c <= 'z' ==> r@ == seq![((c as u32) - 32) as char],
        (c as u32) < 128 && !('a' <= c <= 'z') ==> r@ == seq![c],
{
    c.to_uppercase().to_string()
}

/// `s` with each `-` turned into `_`, so that one separator splits words.
pub open spec fn unify_separators(s: Seq<char>) -> Seq<char> {
    s.map_values(|c: char| if c == '-' { '_' } else { c })
}

/// The nonempty texts of `pieces`, in order.
pub open spec fn nonempty(pieces: Seq<Seq<char>>) -> Seq<Seq<char>>
    decreases pieces.len(),
{
    if pieces.len() == 0 {
        pieces
    } else if pieces.last().len() > 0 {
        nonempty(pieces.drop_last()).push(pieces.last())
    } else {
        nonempty(pieces.drop_last())
    }
}

proof fn nonempty_len(pieces: Seq<Seq<char>>)
    ensures
        nonempty(pieces).len() <= pieces.len(),
    decreases pieces.len(),
{
    if pieces.len() > 0 {
        nonempty_len(pieces.drop_last());
    }
}

/// The words of a notification reason: its nonempty runs between `_` and
/// `-`.
pub open spec fn reason_words(s: Seq<char>) -> Seq<Seq<char>> {
    nonempty(split_on(unify_separators(s), '_'))
}

/// `word` with its first character uppercased.
pub open spec fn capitalized(word: Seq<char>) -> Seq<char> {
    uppercase_of(word[0]) + word.skip(1)
}

/// Each of `words` capitalized.
pub open spec fn capitalized_words(words: Seq<Seq<char>>) -> Seq<Seq<char>> {
    words.map_values(|w: Seq<char>| capitalized(w))
}

/// `words` joined with single spaces.
pub open spec fn joined_words(words: Seq<Seq<char>>) -> Seq<char>
    decreases words.len(),
{
    if words.len() == 0 {
        seq![]
    } else if words.len() == 1 {
        words[0]
    } else {
        joined_words(words.drop_last()) + " "@ + words.last()
    }
}

/// A notification reason as people read it: `review_requested` reads
/// `Review Requested`.
pub open spec fn humanized(s: Seq<char>) -> Seq<char> {
    joined_words(capitalized_words(reason_words(s)))
}

/// Turns a notification reason such as `team_mention` into `Team Mention`.
pub fn humanize_reason(value: &str) -> (r: String)
    ensures
        r@ == humanized(value@),
{
    let v = chars_of(value);
    let mut w: Vec<char> = Vec::new();
    let mut i: usize = 0;
    while i < v.len()
        invariant
            i <= v@.len(),
            w@ == unify_separators(v@.take(i as int)),
        decreases v@.len() - i,
    {
        let c = v[i];
        if c == '-' {
            w.push('_');
        } else {
            w.push(c);
        }
        assert(unify_separators(v@.take(i + 1)) =~= unify_separators(v@.take(i as int)).push(
            if c == '-' { '_' } else { c },
        ));
        i = i + 1;
    }
    assert(v@.take(v@.len() as int) == v@);
    let pieces = split_chars(&w, '_');
    let ghost ps = split_on(w@, '_');
    let mut out = String::new();
    let mut count: usize = 0;
    let mut k: usize = 0;
    while k < pieces.len()
        invariant
            k <= pieces@.len(),
            pieces@.len() == ps.len(),
            forall|j: int| 0 <= j < pieces@.len() ==> #[trigger] pieces@[j]@ == ps[j],
            count <= k,
            count == nonempty(ps.take(k as int)).len(),
            out@ == joined_words(capitalized_words(nonempty(ps.take(k as int)))),
        decreases pieces@.len() - k,
    {
        let piece = &pieces[k];
        let ghost before = nonempty(ps.take(k as int));
        assert(ps.take(k + 1).drop_last() == ps.take(k as int));
        assert(piece@ == ps[k as int]);
        if piece.len() > 0 {
            let mut word = uppercase(piece[0]);
            let rest = string_of_range(piece, 1, piece.len());
            word.append(rest.as_str());
            if count > 0 {
                out.append(" ");
            }
            out.append(word.as_str());
            proof {
                let after = nonempty(ps.take(k + 1));
                assert(after == before.push(ps[k as int]));
                assert(capitalized_words(after) =~= capitalized_words(before).push(capitalized(ps[k as int])));
                assert(capitalized_words(after).drop_last() =~= capitalized_words(before));
                assert(piece@.subrange(1, piece@.len() as int) == ps[k as int].skip(1));
            }
            count = count + 1;
        }
        k = k + 1;
    }
    assert(ps.take(ps.len() as int) == ps);
    out
}

/// The reason shown for an item of `kind` that gives none.
pub open spec fn kind_reason_text(kind: PrKind) -> Seq<char> {
    match kind {
        PrKind::ReviewRequested => "Review requested"@,
        PrKind::Notification => "Notification"@,
        PrKind::Authored => "Author"@,
    }
}

/// The reason an item is listed, as people read it.
pub open spec fn reason_label_text(item: PullRequestItem) -> Seq<char> {
    match item.reason {
        Some(r) => humanized(r@),
        None => kind_reason_text(item.kind),
    }
}

/// The reason an item is listed: its notification reason, humanized, or
/// else one that its kind gives.
pub fn reason_label(item: &PullRequestItem) -> (r: String)
    ensures
        r@ == reason_label_text(*item),
{
    match &item.reason {
        Some(reason) => humanize_reason(reason.as_str()),
        None => match item.kind {
            PrKind::ReviewRequested => "Review requested".to_string(),
            PrKind::Notification => "Notification".to_string(),
            PrKind::Authored => "Author".to_string(),
        },
    }
}

// ---------------------------------------------------------------------------
// Badges and icons
// ---------------------------------------------------------------------------

/// The label of an item's kind.
pub open spec fn kind_label_text(kind: PrKind) -> Seq<char> {
    match kind {
        PrKind::ReviewRequested => "Review requested"@,
        PrKind::Notification => "Unread notification"@,
        PrKind::Authored => "Authored"@,
    }
}

/// The label of an item's kind.
pub fn item_kind_label(item: &PullRequestItem) -> (r: &'static str)
    ensures
        r@ == kind_label_text(item.kind),
{
    match item.kind {
        PrKind::ReviewRequested => "Review requested",
        PrKind::Notification => "Unread notification",
        PrKind::Authored => "Authored",
    }
}

/// The badge that a row shows.
#[derive(Debug, Clone, Copy, PartialEq, Eq, Structural)]
pub enum Badge {
    Review,
    Authored,
    Ci,
    Mention,
    Security,
    State,
    Assign,
    Muted,
    Notify,
}

/// The badge of a notification with the given reason.
pub open spec fn notification_badge(reason: Option<Seq<char>>) -> Badge {
    match reason {
        Some(r) => if r == "ci_activity"@ {
            Badge::Ci
        } else if r == "mention"@ || r == "team_mention"@ {
            Badge::Mention
        } else if r == "security_alert"@ {
            Badge::Security
        } else if r == "state_change"@ {
            Badge::State
        } else if r == "assign"@ || r == "assigned"@ {
            Badge::Assign
        } else if r == "subscribed"@ || r == "manual"@ || r == "invitation"@ {
            Badge::Muted
        } else if r == "review_requested"@ {
            Badge::Review
        } else {
            Badge::Notify
        },
        None => Badge::Notify,
    }
}

/// The badge of an item: by its kind, and for a notification by its reason.
pub open spec fn item_badge(item: PullRequestItem) -> Badge {
    match item.kind {
        PrKind::ReviewRequested => Badge::Review,
        PrKind::Authored => Badge::Authored,
        PrKind::Notification => notification_badge(opt_text(item.reason)),
    }
}

/// The badge of an item.
pub fn badge_of(item: &PullRequestItem) -> (r: Badge)
    ensures
        r == item_badge(*item),
{
    match item.kind {
        PrKind::ReviewRequested => Badge::Review,
        PrKind::Authored => Badge::Authored,
        PrKind::Notification => match &item.reason {
            Some(reason) => {
                let r = reason.as_str();
                if str_eq(r, "ci_activity") {
                    Badge::Ci
                } else if str_eq(r, "mention") || str_eq(r, "team_mention") {
                    Badge::Mention
                } else if str_eq(r, "security_alert") {
                    Badge::Security
                } else if str_eq(r, "state_change") {
                    Badge::State
                } else if str_eq(r, "assign") || str_eq(r, "assigned") {
                    Badge::Assign
                } else if str_eq(r, "subscribed") || str_eq(r, "manual") || str_eq(r, "invitation") {
                    Badge::Muted
                } else if str_eq(r, "review_requested") {
                    Badge::Review
                } else {
                    Badge::Notify
                }
            },
            None => Badge::Notify,
        },
    }
}

/// The style class of a badge.
pub open spec fn badge_class_text(badge: Badge) -> Seq<char> {
    match badge {
        Badge::Review => "review"@,
        Badge::Authored => "authored"@,
        Badge::Ci => "ci"@,
        Badge::Mention => "mention"@,
        Badge::Security => "security"@,
        Badge::State => "state"@,
        Badge::Assign => "assign"@,
        Badge::Muted => "muted"@,
        Badge::Notify => "notify"@,
    }
}

/// The icon of a badge.
pub open spec fn badge_icon_text(badge: Badge) -> Seq<char> {
    match badge {
        Badge::Review => PULL_REQUEST_ICON@,
        Badge::Authored => AUTHORED_ICON@,
        Badge::Ci => CI_ICON@,
        Badge::Mention => MENTION_ICON@,
        Badge::Security => SECURITY_ICON@,
        Badge::State => STATE_CHANGE_ICON@,
        Badge::Assign => ASSIGNED_ICON@,
        Badge::Muted => BELL_ICON@,
        Badge::Notify => COMMENT_ICON@,
    }
}

/// The style class of an item's badge.
pub fn item_icon_class(item: &PullRequestItem) -> (r: &'static str)
    ensures
        r@ == badge_class_text(item_badge(*item)),
{
    match badge_of(item) {
        Badge::Review => "review",
        Badge::Authored => "authored",
        Badge::Ci => "ci",
        Badge::Mention => "mention",
        Badge::Security => "security",
        Badge::State => "state",
        Badge::Assign => "assign",
        Badge::Muted => "muted",
        Badge::Notify => "notify",
    }
}

/// The icon of an item's badge.
pub fn item_icon(item: &PullRequestItem) -> (r: &'static str)
    ensures
        r@ == badge_icon_text(item_badge(*item)),
{
    match badge_of(item) {
        Badge::Review => PULL_REQUEST_ICON,
        Badge::Authored => AUTHORED_ICON,
        Badge::Ci => CI_ICON,
        Badge::Mention => MENTION_ICON,
        Badge::Security => SECURITY_ICON,
        Badge::State => STATE_CHANGE_ICON,
        Badge::Assign => ASSIGNED_ICON,
        Badge::Muted => BELL_ICON,
        Badge::Notify => COMMENT_ICON,
    }
}

/// A gear: opens the settings view.
pub const SETTINGS_ICON: &'static str = r#"<svg viewBox="0 0 24 24" fill="none" stroke-width="2" stroke-linecap="round" stroke-linejoin="round" aria-hidden="true"><path d="M12 15.5a3.5 3.5 0 1 0 0-7 3.5 3.5 0 0 0 0 7Z"></path><path d="M19.4 15a1.7 1.7 0 0 0 .3 1.9l.1.1a2 2 0 1 1-2.8 2.8l-.1-.1a1.7 1.7 0 0 0-1.9-.3 1.7 1.7 0 0 0-1 1.6V21a2 2 0 1 1-4 0v-.1a1.7 1.7 0 0 0-1-1.6 1.7 1.7 0 0 0-1.9.3l-.1.1A2 2 0 1 1 4.2 17l.1-.1a1.7 1.7 0 0 0 .3-1.9 1.7 1.7 0 0 0-1.6-1H3a2 2 0 1 1 0-4h.1a1.7 1.7 0 0 0 1.6-1 1.7 1.7 0 0 0-.3-1.9L4.3 7A2 2 0 1 1 7 4.2l.1.1a1.7 1.7 0 0 0 1.9.3h.1a1.7 1.7 0 0 0 1-1.6V3a2 2 0 1 1 4 0v.1a1.7 1.7 0 0 0 1 1.6h.1a1.7 1.7 0 0 0 1.9-.3l.1-.1A2 2 0 1 1 19.8 7l-.1.1a1.7 1.7 0 0 0-.3 1.9v.1a1.7 1.7 0 0 0 1.6 1h.1a2 2 0 1 1 0 4H21a1.7 1.7 0 0 0-1.6.9Z"></path></svg>"#;

/// A left chevron: back to the notifications.
pub const BACK_ICON: &'static str = r#"<svg viewBox="0 0 24 24" fill="none" stroke-width="2" stroke-linecap="round" stroke-linejoin="round" aria-hidden="true"><path d="m15 18-6-6 6-6"></path></svg>"#;

/// Two sheets: copies a URL.
pub const COPY_ICON: &'static str = r#"<svg viewBox="0 0 24 24" fill="none" stroke-width="2" stroke-linecap="round" stroke-linejoin="round" aria-hidden="true"><rect x="9" y="9" width="13" height="13" rx="2"></rect><path d="M5 15H4a2 2 0 0 1-2-2V4a2 2 0 0 1 2-2h9a2 2 0 0 1 2 2v1"></path></svg>"#;

/// A pull request: a review request.
pub const PULL_REQUEST_ICON: &'static str = r#"<svg viewBox="0 0 24 24" fill="currentColor" aria-hidden="true"><path d="M16 19.25a3.25 3.25 0 1 1 6.5 0 3.25 3.25 0 0 1-6.5 0Zm-14.5 0a3.25 3.25 0 1 1 6.5 0 3.25 3.25 0 0 1-6.5 0Zm0-14.5a3.25 3.25 0 1 1 6.5 0 3.25 3.25 0 0 1-6.5 0ZM4.75 3a1.75 1.75 0 1 0 .001 3.501A1.75 1.75 0 0 0 4.75 3Zm0 14.5a1.75 1.75 0 1 0 .001 3.501A1.75 1.75 0 0 0 4.75 17.5Zm14.5 0a1.75 1.75 0 1 0 .001 3.501 1.75 1.75 0 0 0-.001-3.501Z"></path><path d="M13.405 1.72a.75.75 0 0 1 0 1.06L12.185 4h4.065A3.75 3.75 0 0 1 20 7.75v8.75a.75.75 0 0 1-1.5 0V7.75a2.25 2.25 0 0 0-2.25-2.25h-4.064l1.22 1.22a.75.75 0 0 1-1.061 1.06l-2.5-2.5a.75.75 0 0 1 0-1.06l2.5-2.5a.75.75 0 0 1 1.06 0ZM4.75 7.25A.75.75 0 0 1 5.5 8v8A.75.75 0 0 1 4 16V8a.75.75 0 0 1 .75-.75Z"></path></svg>"#;

/// A branch being merged: an authored pull request.
pub const AUTHORED_ICON: &'static str = r#"<svg viewBox="0 0 24 24" fill="none" stroke-width="2" stroke-linecap="round" stroke-linejoin="round" aria-hidden="true"><circle cx="6" cy="6" r="3"></circle><circle cx="6" cy="18" r="3"></circle><path d="M6 9v6"></path><path d="M12 6h3a3 3 0 0 1 3 3v9"></path><path d="m15 15 3 3 3-3"></path></svg>"#;

/// A speech bubble: a comment.
pub const COMMENT_ICON: &'static str = r#"<svg viewBox="0 0 24 24" fill="none" stroke-width="2" stroke-linecap="round" stroke-linejoin="round" aria-hidden="true"><path d="M21 15a4 4 0 0 1-4 4H8l-5 3V7a4 4 0 0 1 4-4h10a4 4 0 0 1 4 4Z"></path></svg>"#;

/// An at sign: a mention.
pub const MENTION_ICON: &'static str = r#"<svg viewBox="0 0 24 24" fill="none" stroke-width="2" stroke-linecap="round" stroke-linejoin="round" aria-hidden="true"><circle cx="12" cy="12" r="4"></circle><path d="M16 8v5a3 3 0 0 0 6 0v-1a10 10 0 1 0-4 8"></path></svg>"#;

/// Circling arrows: CI activity.
pub const CI_ICON: &'static str = r#"<svg viewBox="0 0 24 24" fill="none" stroke-width="2" stroke-linecap="round" stroke-linejoin="round" aria-hidden="true"><path d="M21 12a9 9 0 0 0-9-9 9.8 9.8 0 0 0-6.7 2.7L3 8"></path><path d="M3 3v5h5"></path><path d="M3 12a9 9 0 0 0 9 9 9.8 9.8 0 0 0 6.7-2.7L21 16"></path><path d="M16 16h5v5"></path></svg>"#;

/// A shield: a security alert.
pub const SECURITY_ICON: &'static str = r#"<svg viewBox="0 0 24 24" fill="none" stroke-width="2" stroke-linecap="round" stroke-linejoin="round" aria-hidden="true"><path d="M20 13c0 5-3.5 7.5-7.7 8.8a1 1 0 0 1-.6 0C7.5 20.5 4 18 4 13V6a1 1 0 0 1 1-1c2 0 4.5-1.2 6.2-2.7a1.2 1.2 0 0 1 1.6 0C14.5 3.8 17 5 19 5a1 1 0 0 1 1 1Z"></path><path d="M12 8v4"></path><path d="M12 16h.01"></path></svg>"#;

/// A turning path: a state change.
pub const STATE_CHANGE_ICON: &'static str = r#"<svg viewBox="0 0 24 24" fill="none" stroke-width="2" stroke-linecap="round" stroke-linejoin="round" aria-hidden="true"><path d="M8 18h1a4 4 0 0 0 4-4V6"></path><path d="M6 6h7"></path><path d="M3 18h5"></path><path d="m16 9-3-3 3-3"></path><path d="M17 18h4"></path></svg>"#;

/// A person with a check: an assignment.
pub const ASSIGNED_ICON: &'static str = r#"<svg viewBox="0 0 24 24" fill="none" stroke-width="2" stroke-linecap="round" stroke-linejoin="round" aria-hidden="true"><path d="M16 21v-2a4 4 0 0 0-4-4H6a4 4 0 0 0-4 4v2"></path><circle cx="9" cy="7" r="4"></circle><path d="m16 11 2 2 4-4"></path></svg>"#;

/// A bell: a subscription.
pub const BELL_ICON: &'static str = r#"<svg viewBox="0 0 24 24" fill="none" stroke-width="2" stroke-linecap="round" stroke-linejoin="round" aria-hidden="true"><path d="M10.3 21a2 2 0 0 0 3.4 0"></path><path d="M18 8a6 6 0 1 0-12 0c0 7-3 7-3 9h18c0-2-3-2-3-9"></path></svg>"#;

/// A struck-out bell: mutes a repository.
pub const MUTED_REPOSITORY_ICON: &'static str = r#"<svg viewBox="0 0 24 24" fill="none" stroke-width="2" stroke-linecap="round" stroke-linejoin="round" aria-hidden="true"><path d="M10.3 21a2 2 0 0 0 3.4 0"></path><path d="M17.8 17H21c0-2-3-2-3-9a6 6 0 0 0-9.3-5"></path><path d="M6.2 6.2C6.1 6.8 6 7.4 6 8c0 7-3 7-3 9h10"></path><path d="m3 3 18 18"></path></svg>"#;

/// The name of a repository without its owner: the part after the last
/// `/`.
pub fn short_repo_name(repo: &str) -> (r: String)
    ensures
        r@ == after_last(repo@, '/'),
{
    after_last_char(repo, '/')
}

/// How a filter value shows: the part after its last `/`.
pub fn short_filter_value(value: &str) -> (r: String)
    ensures
        r@ == after_last(value@, '/'),
{
    after_last_char(value, '/')
}

// ---------------------------------------------------------------------------
// Rows
// ---------------------------------------------------------------------------

/// The command that opens an item in the browser.
pub open spec fn open_command_text(item: PullRequestItem) -> Seq<char> {
    "open:"@ + item.url@
}

/// The command that copies an item's URL.
pub open spec fn copy_command_text(item: PullRequestItem) -> Seq<char> {
    "copy-url:"@ + item.url@
}

/// The command that mutes a repository.
pub open spec fn mute_repo_command_text(repo: Seq<char>) -> Seq<char> {
    "mute-repo:"@ + repo
}

/// An item's author, or nothing.
pub open spec fn author_text(item: PullRequestItem) -> Seq<char> {
    match item.author {
        Some(a) => a@,
        None => seq![],
    }
}

/// How long ago an item was updated, seen at `now`.
pub open spec fn item_age_text(item: PullRequestItem, now: (i64, u32)) -> Seq<char> {
    match item.updated_at {
        Some(u) => relative_age_text(u, now),
        None => "unknown"@,
    }
}

/// The line above a preview: `repo #number · age · reason`, then ` by
/// author` where the item has one.
pub open spec fn preview_meta_text(item: PullRequestItem, age: Seq<char>, reason: Seq<char>) -> Seq<char> {
    item.repo@ + " #"@ + decimal(item.number as nat) + " · "@ + age + " · "@ + reason + match item.author {
        Some(a) => " by "@ + a@,
        None => seq![],
    }
}

/// The line above an item's preview.
pub fn preview_meta(item: &PullRequestItem, age: &str, reason: &str) -> (r: String)
    ensures
        r@ == preview_meta_text(*item, age@, reason@),
{
    let mut r = item.repo.clone();
    r.append(" #");
    push_decimal(&mut r, item.number);
    r.append(" · ");
    r.append(age);
    r.append(" · ");
    r.append(reason);
    match &item.author {
        Some(a) => {
            r.append(" by ");
            r.append(a.as_str());
        },
        None => {},
    }
    r
}

/// An item's preview text, unless it is missing or blank.
pub open spec fn preview_body_text(item: PullRequestItem) -> Seq<char> {
    match item.preview {
        Some(p) => if is_blank(p@) {
            "No preview text available."@
        } else {
            p@
        },
        None => "No preview text available."@,
    }
}

/// An attribute ` name="action:thread"` for an item's notification thread,
/// or nothing when it has none.
pub open spec fn notification_action_text(name: Seq<char>, action: Seq<char>, item: PullRequestItem) -> Seq<char> {
    match item.notification_thread_id {
        Some(t) => " "@ + name + "=\""@ + action + ":"@ + escaped(t@) + "\""@,
        None => seq![],
    }
}

/// The attribute `name` carrying the command `action` on the item's
/// notification thread, or nothing when it has no thread.
pub fn notification_action_attr(name: &str, action: &str, item: &PullRequestItem) -> (r: String)
    ensures
        r@ == notification_action_text(name@, action@, *item),
{
    match &item.notification_thread_id {
        Some(thread_id) => {
            let mut r = " ".to_string();
            r.append(name);
            r.append("=\"");
            r.append(action);
            r.append(":");
            push_escaped(&mut r, thread_id.as_str());
            r.append("\"");
            r
        },
        None => String::new(),
    }
}

/// The attribute with the command that marks an item done.
pub open spec fn done_attr_text(item: PullRequestItem) -> Seq<char> {
    " data-done-cmd=\"done-pr:"@ + escaped(item.id@) + "\""@
}

/// The attribute with the command that undoes a local done, on items
/// marked done here.
pub open spec fn undo_attr_text(item: PullRequestItem) -> Seq<char> {
    if item.locally_done {
        " data-undo-cmd=\"undo-pr:"@ + escaped(item.id@) + "\""@
    } else {
        seq![]
    }
}

/// The attribute that marks a row as still to do.
pub open spec fn todo_attr_text(item: PullRequestItem) -> Seq<char> {
    if item.needs_action() {
        " data-todo-row=\"true\""@
    } else {
        seq![]
    }
}

/// The style class of a row.
pub open spec fn row_class_text(item: PullRequestItem) -> Seq<char> {
    if item.locally_done {
        "row done"@
    } else {
        "row"@
    }
}

/// The markup of one row, for an item seen at `now`.
pub open spec fn row_text(item: PullRequestItem, now: (i64, u32)) -> Seq<char> {
    let age = item_age_text(item, now);
    let reason = reason_label_text(item);
    let label = kind_label_text(item.kind);
    r#"<div class=""#@
        + row_class_text(item)
        + r#"" data-selectable="true" data-cmd=""#@
        + escaped(open_command_text(item))
        + r#"" data-copy-cmd=""#@
        + escaped(copy_command_text(item))
        + r#"" data-mute-repo-cmd=""#@
        + escaped(mute_repo_command_text(item.repo@))
        + r#"" data-repo=""#@
        + escaped(item.repo@)
        + r#"" data-reason=""#@
        + escaped(reason)
        + r#"" data-author=""#@
        + escaped(author_text(item))
        + r#"" data-preview-title=""#@
        + escaped(item.title@)
        + r#"" data-preview-meta=""#@
        + escaped(preview_meta_text(item, age, reason))
        + r#"" data-preview-body=""#@
        + escaped(preview_body_text(item))
        + "\""@
        + done_attr_text(item)
        + undo_attr_text(item)
        + notification_action_text("data-mute-cmd"@, "mute"@, item)
        + todo_attr_text(item)
        + r#" tabindex="-1" aria-selected="false" onfocusin="window.PullbellSelectElement(this)"><button class="row-open" type="button" tabindex="-1" data-row-shortcut="true" data-cmd=""#@
        + escaped(open_command_text(item))
        + r#"" onclick="send(this.dataset.cmd)"><div class="badge "#@
        + badge_class_text(item_badge(item))
        + r#"" title=""#@
        + escaped(label)
        + r#"" aria-label=""#@
        + escaped(label)
        + r#"">"#@
        + badge_icon_text(item_badge(item))
        + r#"</div><div class="row-main"><div class="meta"><span class="repo">"#@
        + escaped(after_last(item.repo@, '/'))
        + r#"</span><span class="dot"></span><span>#"#@
        + decimal(item.number as nat)
        + r#"</span><span class="dot"></span><span>"#@
        + escaped(label)
        + r#"</span></div><div class="title">"#@
        + escaped(item.title@)
        + r#"</div></div></button><button class="row-copy row-action" type="button" title="Copy PR URL" aria-label="Copy PR URL" data-cmd=""#@
        + escaped(copy_command_text(item))
        + r#"" onclick="event.stopPropagation(); send(this.dataset.cmd)">"#@
        + COPY_ICON@
        + r#"</button><button class="row-repo-mute row-action" type="button" title="Mute repository in Pullbell" aria-label="Mute repository in Pullbell" data-cmd=""#@
        + escaped(mute_repo_command_text(item.repo@))
        + r#"" onclick="event.stopPropagation(); send(this.dataset.cmd)">"#@
        + MUTED_REPOSITORY_ICON@
        + r#"</button><div class="age">"#@
        + escaped(age)
        + "</div></div>"@
}

/// The markup of one row: the item's kind, badge, repository, number, title
/// and age at `now`, with the commands that act on it.
pub fn render_item(item: &PullRequestItem, now: (i64, u32)) -> (r: String)
    ensures
        r@ == row_text(*item, now),
{
    let label = item_kind_label(item);
    let badge_class = item_icon_class(item);
    let badge_icon = item_icon(item);
    let row_class = if item.locally_done {
        "row done"
    } else {
        "row"
    };
    let todo_attr = if item.is_todo() {
        " data-todo-row=\"true\"".to_string()
    } else {
        String::new()
    };
    let repo = short_repo_name(item.repo.as_str());
    let age = match item.updated_at {
        Some(updated_at) => relative_age(updated_at, now),
        None => "unknown".to_string(),
    };
    let mut command = "open:".to_string();
    command.append(item.url.as_str());
    let mut done_attr = " data-done-cmd=\"done-pr:".to_string();
    push_escaped(&mut done_attr, item.id.as_str());
    done_attr.append("\"");
    let undo_attr = if item.locally_done {
        let mut a = " data-undo-cmd=\"undo-pr:".to_string();
        push_escaped(&mut a, item.id.as_str());
        a.append("\"");
        a
    } else {
        String::new()
    };
    let mute_attr = notification_action_attr("data-mute-cmd", "mute", item);
    let mut mute_repo_command = "mute-repo:".to_string();
    mute_repo_command.append(item.repo.as_str());
    let reason = reason_label(item);
    let author = match &item.author {
        Some(a) => a.clone(),
        None => String::new(),
    };
    let meta = preview_meta(item, age.as_str(), reason.as_str());
    let body: &str = match &item.preview {
        Some(p) => if is_blank_str(p.as_str()) {
            "No preview text available."
        } else {
            p.as_str()
        },
        None => "No preview text available.",
    };
    let mut copy_command = "copy-url:".to_string();
    copy_command.append(item.url.as_str());
    let mut h = r#"<div class=""#.to_string();
    h.append(row_class);
    h.append(r#"" data-selectable="true" data-cmd=""#);
    push_escaped(&mut h, command.as_str());
    h.append(r#"" data-copy-cmd=""#);
    push_escaped(&mut h, copy_command.as_str());
    h.append(r#"" data-mute-repo-cmd=""#);
    push_escaped(&mut h, mute_repo_command.as_str());
    h.append(r#"" data-repo=""#);
    push_escaped(&mut h, item.repo.as_str());
    h.append(r#"" data-reason=""#);
    push_escaped(&mut h, reason.as_str());
    h.append(r#"" data-author=""#);
    push_escaped(&mut h, author.as_str());
    h.append(r#"" data-preview-title=""#);
    push_escaped(&mut h, item.title.as_str());
    h.append(r#"" data-preview-meta=""#);
    push_escaped(&mut h, meta.as_str());
    h.append(r#"" data-preview-body=""#);
    push_escaped(&mut h, body);
    h.append("\"");
    h.append(done_attr.as_str());
    h.append(undo_attr.as_str());
    h.append(mute_attr.as_str());
    h.append(todo_attr.as_str());
    h.append(r#" tabindex="-1" aria-selected="false" onfocusin="window.PullbellSelectElement(this)"><button class="row-open" type="button" tabindex="-1" data-row-shortcut="true" data-cmd=""#);
    push_escaped(&mut h, command.as_str());
    h.append(r#"" onclick="send(this.dataset.cmd)"><div class="badge "#);
    h.append(badge_class);
    h.append(r#"" title=""#);
    push_escaped(&mut h, label);
    h.append(r#"" aria-label=""#);
    push_escaped(&mut h, label);
    h.append(r#"">"#);
    h.append(badge_icon);
    h.append(r#"</div><div class="row-main"><div class="meta"><span class="repo">"#);
    push_escaped(&mut h, repo.as_str());
    h.append(r#"</span><span class="dot"></span><span>#"#);
    push_decimal(&mut h, item.number);
    h.append(r#"</span><span class="dot"></span><span>"#);
    push_escaped(&mut h, label);
    h.append(r#"</span></div><div class="title">"#);
    push_escaped(&mut h, item.title.as_str());
    h.append(r#"</div></div></button><button class="row-copy row-action" type="button" title="Copy PR URL" aria-label="Copy PR URL" data-cmd=""#);
    push_escaped(&mut h, copy_command.as_str());
    h.append(r#"" onclick="event.stopPropagation(); send(this.dataset.cmd)">"#);
    h.append(COPY_ICON);
    h.append(r#"</button><button class="row-repo-mute row-action" type="button" title="Mute repository in Pullbell" aria-label="Mute repository in Pullbell" data-cmd=""#);
    push_escaped(&mut h, mute_repo_command.as_str());
    h.append(r#"" onclick="event.stopPropagation(); send(this.dataset.cmd)">"#);
    h.append(MUTED_REPOSITORY_ICON);
    h.append(r#"</button><div class="age">"#);
    push_escaped(&mut h, age.as_str());
    h.append("</div></div>");
    h
}

// ---------------------------------------------------------------------------
// Sections
// ---------------------------------------------------------------------------

/// At most this many rows show in a section.
pub const MAX_ITEMS_PER_GROUP: usize = 8;

/// The items of `items` that are to do (`todo`) or done (`!todo`), in
/// order.
pub open spec fn selected(items: Seq<PullRequestItem>, todo: bool) -> Seq<PullRequestItem>
    decreases items.len(),
{
    if items.len() == 0 {
        items
    } else if items.last().needs_action() == todo {
        selected(items.drop_last(), todo).push(items.last())
    } else {
        selected(items.drop_last(), todo)
    }
}

/// The rows of `items`, one after another, seen at `now`.
pub open spec fn rows_text(items: Seq<PullRequestItem>, now: (i64, u32)) -> Seq<char>
    decreases items.len(),
{
    if items.len() == 0 {
        seq![]
    } else {
        rows_text(items.drop_last(), now) + row_text(items.last(), now)
    }
}

/// The markup of a section: its label and count, then the rows of the
/// first eight selected items and a note on how many more there are, or
/// the `empty` note when nothing is selected.
pub open spec fn section_text(
    label: Seq<char>,
    count: nat,
    items: Seq<PullRequestItem>,
    todo: bool,
    empty: Seq<char>,
    now: (i64, u32),
) -> Seq<char> {
    let sel = selected(items, todo);
    let shown = if sel.len() < MAX_ITEMS_PER_GROUP { sel.len() as int } else { MAX_ITEMS_PER_GROUP as int };
    "<section class=\"section\"><div class=\"heading\"><span>"@ + escaped(label) + "</span><span>"@
        + decimal(count) + "</span></div>"@ + (if sel.len() == 0 {
        "<div class=\"empty\">"@ + escaped(empty) + "</div>"@
    } else {
        rows_text(sel.take(shown), now) + if count > MAX_ITEMS_PER_GROUP {
            "<div class=\"empty\">...and "@ + decimal((count - MAX_ITEMS_PER_GROUP) as nat)
                + " more</div>"@
        } else {
            seq![]
        }
    }) + "</section>"@
}

/// The markup of the section of items that are to do (`todo`) or done,
/// labelled `label` with `count`, seen at `now`.
#[verifier::spinoff_prover]
#[verifier::rlimit(40)]
pub fn render_section(
    label: &str,
    count: usize,
    items: &Vec<PullRequestItem>,
    todo: bool,
    empty: &str,
    now: (i64, u32),
) -> (r: String)
    ensures
        r@ == section_text(label@, count as nat, items@, todo, empty@, now),
{
    let mut html = "<section class=\"section\"><div class=\"heading\"><span>".to_string();
    push_escaped(&mut html, label);
    html.append("</span><span>");
    push_decimal(&mut html, count as u64);
    html.append("</span></div>");
    let mut rows = String::new();
    let mut shown: usize = 0;
    let mut i: usize = 0;
    while i < items.len()
        invariant
            i <= items@.len(),
            shown <= MAX_ITEMS_PER_GROUP,
            shown as int == if selected(items@.take(i as int), todo).len() < MAX_ITEMS_PER_GROUP {
                selected(items@.take(i as int), todo).len() as int
            } else {
                MAX_ITEMS_PER_GROUP as int
            },
            rows@ == rows_text(selected(items@.take(i as int), todo).take(shown as int), now),
        decreases items@.len() - i,
    {
        let item = &items[i];
        let ghost before = selected(items@.take(i as int), todo);
        assert(items@.take(i + 1).drop_last() == items@.take(i as int));
        assert(items@.take(i + 1).last() == *item);
        if item.is_todo() == todo {
            let ghost after = before.push(*item);
            assert(selected(items@.take(i + 1), todo) == after);
            if shown < MAX_ITEMS_PER_GROUP {
                let row = render_item(item, now);
                rows.append(row.as_str());
                proof {
                    assert(before.take(shown as int) == before);
                    assert(after.take(shown + 1) == after);
                    assert(after.drop_last() == before);
                }
                shown = shown + 1;
            } else {
                assert(after.take(shown as int) == before.take(shown as int));
            }
        }
        i = i + 1;
    }
    assert(items@.take(items@.len() as int) == items@);
    let body = if shown == 0 {
        let mut e = "<div class=\"empty\">".to_string();
        push_escaped(&mut e, empty);
        e.append("</div>");
        e
    } else {
        let more = if count > MAX_ITEMS_PER_GROUP {
            let mut m = "<div class=\"empty\">...and ".to_string();
            push_decimal(&mut m, (count - MAX_ITEMS_PER_GROUP) as u64);
            m.append(" more</div>");
            m
        } else {
            String::new()
        };
        rows.append(more.as_str());
        rows
    };
    html.append(body.as_str());
    html.append("</section>");
    html
}

// ---------------------------------------------------------------------------
// Filters and chips
// ---------------------------------------------------------------------------

/// The texts among `values` that are not blank.
pub open spec fn nonblank_set(values: Seq<Seq<char>>) -> Set<Seq<char>> {
    Set::new(|t: Seq<char>| values.contains(t) && !is_blank(t))
}

proof fn nonblank_set_push(values: Seq<Seq<char>>, x: Seq<char>)
    ensures
        nonblank_set(values.push(x)) == if is_blank(x) {
            nonblank_set(values)
        } else {
            nonblank_set(values).insert(x)
        },
{
    let n = values.push(x);
    assert forall|t: Seq<char>| #[trigger] n.contains(t) <==> (values.contains(t) || t == x) by {
        if n.contains(t) {
            let k = choose|k: int| 0 <= k < n.len() && n[k] == t;
            if k < values.len() {
                assert(values[k] == t);
            }
        }
        if values.contains(t) {
            let k = choose|k: int| 0 <= k < values.len() && values[k] == t;
            assert(n[k] == t);
        }
        if t == x {
            assert(n[values.len() as int] == t);
        }
    }
    if is_blank(x) {
        assert(nonblank_set(n) =~= nonblank_set(values));
    } else {
        assert(nonblank_set(n) =~= nonblank_set(values).insert(x));
    }
}

/// The texts of `values` that are not blank, each once, in ascending order.
pub fn sorted_values(values: Vec<String>) -> (r: Vec<String>)
    ensures
        texts(r@) == sorted_texts(nonblank_set(texts(values@))),
{
    let ghost all = texts(values@);
    let mut r: Vec<String> = Vec::new();
    let mut i: usize = 0;
    assert(texts(r@).to_set() =~= nonblank_set(all.take(0)));
    while i < values.len()
        invariant
            i <= values@.len(),
            all == texts(values@),
            strictly_sorted(texts(r@)),
            texts(r@).to_set() == nonblank_set(all.take(i as int)),
        decreases values@.len() - i,
    {
        let value = values[i].clone();
        proof {
            assert(all.take(i + 1) == all.take(i as int).push(value@));
            nonblank_set_push(all.take(i as int), value@);
        }
        if !is_blank_str(value.as_str()) {
            insert_sorted(&mut r, value);
        }
        i = i + 1;
    }
    assert(all.take(all.len() as int) == all);
    proof {
        strictly_sorted_is_sorted_texts(texts(r@));
    }
    r
}

/// The options of a filter, one for each of `values`, labelled by the part
/// after its last `/`.
pub open spec fn options_text(values: Seq<Seq<char>>) -> Seq<char>
    decreases values.len(),
{
    if values.len() == 0 {
        seq![]
    } else {
        options_text(values.drop_last()) + "<option value=\""@ + escaped(values.last()) + "\">"@
            + escaped(after_last(values.last(), '/')) + "</option>"@
    }
}

/// The markup of a filter `name` labelled `label` over `values`.
pub open spec fn filter_text(name: Seq<char>, label: Seq<char>, values: Seq<Seq<char>>) -> Seq<char> {
    "<select class=\"filter\" data-filter=\""@ + escaped(name) + "\" aria-label=\""@ + escaped(label)
        + "\"><option value=\"\">"@ + escaped(label) + "</option>"@ + options_text(values)
        + "</select>"@
}

/// A drop-down filter `name` labelled `label`, with an option that selects
/// everything and one for each of `values`.
pub fn render_filter(name: &str, label: &str, values: &Vec<String>) -> (r: String)
    ensures
        r@ == filter_text(name@, label@, texts(values@)),
{
    let mut html = "<select class=\"filter\" data-filter=\"".to_string();
    push_escaped(&mut html, name);
    html.append("\" aria-label=\"");
    push_escaped(&mut html, label);
    html.append("\"><option value=\"\">");
    push_escaped(&mut html, label);
    html.append("</option>");
    let ghost head = html@;
    let ghost vs = texts(values@);
    let mut options = String::new();
    let mut i: usize = 0;
    while i < values.len()
        invariant
            i <= values@.len(),
            vs == texts(values@),
            options@ == options_text(vs.take(i as int)),
        decreases values@.len() - i,
    {
        let value = values[i].as_str();
        options.append("<option value=\"");
        push_escaped(&mut options, value);
        options.append("\">");
        let short = short_filter_value(value);
        push_escaped(&mut options, short.as_str());
        options.append("</option>");
        assert(vs.take(i + 1).drop_last() == vs.take(i as int));
        i = i + 1;
    }
    assert(vs.take(vs.len() as int) == vs);
    html.append(options.as_str());
    html.append("</select>");
    html
}

/// The repositories of `items`.
pub open spec fn repo_values(items: Seq<PullRequestItem>) -> Seq<Seq<char>> {
    items.map_values(|item: PullRequestItem| item.repo@)
}

/// The reasons of `items`.
pub open spec fn reason_values(items: Seq<PullRequestItem>) -> Seq<Seq<char>> {
    items.map_values(|item: PullRequestItem| reason_label_text(item))
}

/// The authors of those `items` that have one.
pub open spec fn author_values(items: Seq<PullRequestItem>) -> Seq<Seq<char>>
    decreases items.len(),
{
    if items.len() == 0 {
        seq![]
    } else {
        author_values(items.drop_last()) + match items.last().author {
            Some(a) => seq![a@],
            None => seq![],
        }
    }
}

/// The filters by repository, reason and user, over the values that
/// `items` have.
pub open spec fn filter_controls_text(items: Seq<PullRequestItem>) -> Seq<char> {
    filter_text("repo"@, "Repository"@, sorted_texts(nonblank_set(repo_values(items))))
        + filter_text("reason"@, "Reason"@, sorted_texts(nonblank_set(reason_values(items))))
        + filter_text("author"@, "User"@, sorted_texts(nonblank_set(author_values(items))))
}

/// The repositories, reasons and authors of `items`.
fn item_values(items: &Vec<PullRequestItem>) -> (r: (Vec<String>, Vec<String>, Vec<String>))
    ensures
        texts(r.0@) == repo_values(items@),
        texts(r.1@) == reason_values(items@),
        texts(r.2@) == author_values(items@),
{
    let mut repos: Vec<String> = Vec::new();
    let mut reasons: Vec<String> = Vec::new();
    let mut authors: Vec<String> = Vec::new();
    let mut i: usize = 0;
    while i < items.len()
        invariant
            i <= items@.len(),
            texts(repos@) == repo_values(items@.take(i as int)),
            texts(reasons@) == reason_values(items@.take(i as int)),
            texts(authors@) == author_values(items@.take(i as int)),
        decreases items@.len() - i,
    {
        let item = &items[i];
        let ghost t = items@.take(i as int);
        assert(items@.take(i + 1) == t.push(*item));
        assert(items@.take(i + 1).drop_last() == t);
        let ghost old_authors = texts(authors@);
        repos.push(item.repo.clone());
        reasons.push(reason_label(item));
        match &item.author {
            Some(a) => {
                authors.push(a.clone());
                assert(texts(authors@) =~= old_authors + seq![a@]);
            },
            None => {
                assert(old_authors + seq![] =~= old_authors);
            },
        }
        assert(repo_values(t.push(*item)) =~= repo_values(t).push(item.repo@));
        assert(reason_values(t.push(*item)) =~= reason_values(t).push(reason_label_text(*item)));
        assert(texts(repos@) =~= repo_values(t).push(item.repo@));
        assert(texts(reasons@) =~= reason_values(t).push(reason_label_text(*item)));
        i = i + 1;
    }
    assert(items@.take(items@.len() as int) == items@);
    (repos, reasons, authors)
}

/// The filters by repository, reason and user over the pull requests
/// listed.
pub fn render_filter_controls(snapshot: &AppState) -> (r: String)
    ensures
        r@ == filter_controls_text(snapshot.pull_requests@),
{
    let (repos, reasons, authors) = item_values(&snapshot.pull_requests);
    let repos = sorted_values(repos);
    let reasons = sorted_values(reasons);
    let authors = sorted_values(authors);
    let mut html = render_filter("repo", "Repository", &repos);
    let reason_filter = render_filter("reason", "Reason", &reasons);
    html.append(reason_filter.as_str());
    let author_filter = render_filter("author", "User", &authors);
    html.append(author_filter.as_str());
    html
}

/// The filter bar of the notifications view.
pub fn render_filters(snapshot: &AppState) -> (r: String)
    ensures
        r@ == "<div class=\"filters\">"@ + filter_controls_text(snapshot.pull_requests@) + "</div>"@,
{
    let mut html = "<div class=\"filters\">".to_string();
    let controls = render_filter_controls(snapshot);
    html.append(controls.as_str());
    html.append("</div>");
    html
}

/// What the muted chips can name for `items`: each item's repository and
/// reason, and its author where it has one.
pub open spec fn chip_values(items: Seq<PullRequestItem>) -> Seq<Seq<char>>
    decreases items.len(),
{
    if items.len() == 0 {
        seq![]
    } else {
        chip_values(items.drop_last()) + seq![items.last().repo@, reason_label_text(items.last())]
            + match items.last().author {
            Some(a) => seq![a@],
            None => seq![],
        }
    }
}

/// One chip per text of `values`, each showing the part after its last `/`.
pub open spec fn chips_text(values: Seq<Seq<char>>) -> Seq<char>
    decreases values.len(),
{
    if values.len() == 0 {
        seq![]
    } else {
        chips_text(values.drop_last()) + "<span class=\"chip\">"@ + escaped(after_last(values.last(), '/'))
            + "</span>"@
    }
}

/// The chips of the muted view: the first eight of the sorted texts that
/// `items` can be muted by, then how many more there are.
pub open spec fn muted_chips_text(items: Seq<PullRequestItem>) -> Seq<char> {
    let values = sorted_texts(nonblank_set(chip_values(items)));
    if values.len() == 0 {
        "<div class=\"chips\"><span class=\"chip empty\">No mute targets available</span></div>"@
    } else {
        let shown = if values.len() < 8 { values.len() as int } else { 8 };
        "<div class=\"chips\">"@ + chips_text(values.take(shown)) + (if values.len() > 8 {
            "<span class=\"chip\">+"@ + decimal((values.len() - 8) as nat) + " more</span>"@
        } else {
            seq![]
        }) + "</div>"@
    }
}

/// The texts that the chips of the muted view can name.
fn chip_vec(items: &Vec<PullRequestItem>) -> (r: Vec<String>)
    ensures
        texts(r@) == chip_values(items@),
{
    let mut r: Vec<String> = Vec::new();
    let mut i: usize = 0;
    while i < items.len()
        invariant
            i <= items@.len(),
            texts(r@) == chip_values(items@.take(i as int)),
        decreases items@.len() - i,
    {
        let item = &items[i];
        let ghost t = items@.take(i as int);
        let ghost before = texts(r@);
        assert(items@.take(i + 1).drop_last() == t);
        assert(items@.take(i + 1).last() == *item);
        r.push(item.repo.clone());
        r.push(reason_label(item));
        match &item.author {
            Some(a) => {
                r.push(a.clone());
                assert(texts(r@) =~= before + seq![item.repo@, reason_label_text(*item)] + seq![a@]);
            },
            None => {
                assert(texts(r@) =~= before + seq![item.repo@, reason_label_text(*item)] + seq![]);
            },
        }
        i = i + 1;
    }
    assert(items@.take(items@.len() as int) == items@);
    r
}

/// The chips of the muted view for the pull requests listed.
pub fn render_muted_chips(snapshot: &AppState) -> (r: String)
    ensures
        r@ == muted_chips_text(snapshot.pull_requests@),
{
    let values = sorted_values(chip_vec(&snapshot.pull_requests));
    let ghost vs = texts(values@);
    if values.len() == 0 {
        return "<div class=\"chips\"><span class=\"chip empty\">No mute targets available</span></div>".to_string();
    }
    let shown: usize = if values.len() < 8 {
        values.len()
    } else {
        8
    };
    let mut chips = String::new();
    let mut i: usize = 0;
    while i < shown
        invariant
            i <= shown <= values@.len(),
            vs == texts(values@),
            chips@ == chips_text(vs.take(i as int)),
        decreases shown - i,
    {
        chips.append("<span class=\"chip\">");
        let short = short_filter_value(values[i].as_str());
        push_escaped(&mut chips, short.as_str());
        chips.append("</span>");
        assert(vs.take(i + 1).drop_last() == vs.take(i as int));
        i = i + 1;
    }
    let more = if values.len() > 8 {
        let mut m = "<span class=\"chip\">+".to_string();
        push_decimal(&mut m, (values.len() - 8) as u64);
        m.append(" more</span>");
        m
    } else {
        String::new()
    };
    let mut html = "<div class=\"chips\">".to_string();
    html.append(chips.as_str());
    html.append(more.as_str());
    html.append("</div>");
    html
}

// ---------------------------------------------------------------------------
// Top bar and settings
// ---------------------------------------------------------------------------

/// Who is signed in, as the top bar says it.
pub open spec fn sign_in_status_text(snapshot: AppState) -> Seq<char> {
    match snapshot.signed_in_as {
        Some(login) => "Signed in as "@ + escaped(login@),
        None => if snapshot.token_loaded {
            "Signed in"@
        } else {
            "Not signed in"@
        },
    }
}

fn sign_in_status(snapshot: &AppState) -> (r: String)
    ensures
        r@ == sign_in_status_text(*snapshot),
{
    match &snapshot.signed_in_as {
        Some(login) => {
            let mut r = "Signed in as ".to_string();
            push_escaped(&mut r, login.as_str());
            r
        },
        None => if snapshot.token_loaded {
            "Signed in".to_string()
        } else {
            "Not signed in".to_string()
        },
    }
}

/// The top bar: who is signed in, the version, and how many items are to
/// do.
pub open spec fn topbar_text(snapshot: AppState, todo_count: nat) -> Seq<char> {
    "<header class=\"topbar\"><div class=\"brand\"><div class=\"mark\">P</div><div class=\"brand-text\"><div class=\"name\">Pullbell</div><div class=\"subtle\">"@
        + sign_in_status_text(snapshot) + " · v"@ + APP_VERSION@
        + "</div></div></div><div class=\"counter\">"@ + decimal(todo_count) + "</div></header>"@
}

/// The top bar of the panel.
pub fn render_topbar(snapshot: &AppState, todo_count: usize) -> (r: String)
    ensures
        r@ == topbar_text(*snapshot, todo_count as nat),
{
    let status = sign_in_status(snapshot);
    let mut html = "<header class=\"topbar\"><div class=\"brand\"><div class=\"mark\">P</div><div class=\"brand-text\"><div class=\"name\">Pullbell</div><div class=\"subtle\">".to_string();
    html.append(status.as_str());
    html.append(" · v");
    html.append(APP_VERSION);
    html.append("</div></div></div><div class=\"counter\">");
    push_decimal(&mut html, todo_count as u64);
    html.append("</div></header>");
    html
}

/// The note on the account: who is signed in, or that sign-in waits for
/// approval.
pub open spec fn account_note_text(snapshot: AppState) -> Seq<char> {
    match snapshot.signed_in_as {
        Some(login) => "Signed in as "@ + escaped(login@),
        None => if snapshot.token_loaded {
            "Signed in"@
        } else if snapshot.pending_auth is Some {
            "GitHub sign-in is waiting for device approval."@
        } else {
            "Not signed in"@
        },
    }
}

/// The account actions: sign in when there is no token and no pending
/// sign-in; open GitHub and copy the code while a sign-in is pending; sign
/// out with a token.
pub open spec fn account_actions_text(snapshot: AppState) -> Seq<char> {
    (if !snapshot.token_loaded && snapshot.pending_auth is None {
        "<button class=\"tool primary\" onclick=\"send('signin')\">Sign in with GitHub</button>"@
    } else {
        seq![]
    }) + match snapshot.pending_auth {
        Some(auth) => "<button class=\"tool primary\" data-cmd=\"open:"@ + escaped(auth.verification_uri@)
            + "\" onclick=\"send(this.dataset.cmd)\">Open GitHub</button><button class=\"tool\" onclick=\"send('copy-signin-code')\">Copy code</button>"@,
        None => seq![],
    } + if snapshot.token_loaded {
        "<button class=\"tool\" onclick=\"send('signout')\">Sign out</button>"@
    } else {
        seq![]
    }
}

/// The account section of the settings.
pub open spec fn account_settings_text(snapshot: AppState) -> Seq<char> {
    "<section class=\"settings-section\"><div class=\"settings-label\">Account</div><div class=\"setting-row\"><div><div class=\"setting-name\">GitHub</div><div class=\"setting-note\">"@
        + account_note_text(snapshot) + "</div></div></div><div class=\"settings-actions\">"@
        + account_actions_text(snapshot) + "</div></section>"@
}

/// The account section of the settings.
pub fn render_account_settings(snapshot: &AppState) -> (r: String)
    ensures
        r@ == account_settings_text(*snapshot),
{
    let note = match &snapshot.signed_in_as {
        Some(login) => {
            let mut n = "Signed in as ".to_string();
            push_escaped(&mut n, login.as_str());
            n
        },
        None => if snapshot.token_loaded {
            "Signed in".to_string()
        } else if snapshot.pending_auth.is_some() {
            "GitHub sign-in is waiting for device approval.".to_string()
        } else {
            "Not signed in".to_string()
        },
    };
    let sign_in = if !snapshot.token_loaded && snapshot.pending_auth.is_none() {
        "<button class=\"tool primary\" onclick=\"send('signin')\">Sign in with GitHub</button>".to_string()
    } else {
        String::new()
    };
    let pending = match &snapshot.pending_auth {
        Some(auth) => {
            let mut p = "<button class=\"tool primary\" data-cmd=\"open:".to_string();
            push_escaped(&mut p, auth.verification_uri.as_str());
            p.append("\" onclick=\"send(this.dataset.cmd)\">Open GitHub</button><button class=\"tool\" onclick=\"send('copy-signin-code')\">Copy code</button>");
            p
        },
        None => String::new(),
    };
    let sign_out = if snapshot.token_loaded {
        "<button class=\"tool\" onclick=\"send('signout')\">Sign out</button>".to_string()
    } else {
        String::new()
    };
    let mut actions = sign_in;
    actions.append(pending.as_str());
    actions.append(sign_out.as_str());
    let mut html = "<section class=\"settings-section\"><div class=\"settings-label\">Account</div><div class=\"setting-row\"><div><div class=\"setting-name\">GitHub</div><div class=\"setting-note\">".to_string();
    html.append(note.as_str());
    html.append("</div></div></div><div class=\"settings-actions\">");
    html.append(actions.as_str());
    html.append("</div></section>");
    html
}

/// The note on updates: installing, available, being checked, when last
/// checked, or where to check.
pub open spec fn update_note_text(snapshot: AppState) -> Seq<char> {
    if snapshot.is_installing_update {
        "Updating with Homebrew. A restart prompt will appear when it is ready."@
    } else {
        match snapshot.available_update {
            Some(update) => "Update available: v"@ + escaped(update.latest_version@),
            None => if snapshot.is_checking_updates {
                "Checking the latest release."@
            } else {
                match snapshot.last_update_checked_at {
                    Some(at) => "Last checked at "@ + clock_text(at),
                    None => "Check GitHub Releases for a newer version."@,
                }
            },
        }
    }
}

/// The update actions: install and open the release when one is available,
/// else check for updates and open the list of releases.
pub open spec fn update_actions_text(snapshot: AppState) -> Seq<char> {
    match snapshot.available_update {
        Some(update) => (if snapshot.is_installing_update {
            "<button class=\"tool primary\" disabled>Updating...</button>"@
        } else {
            "<button class=\"tool primary\" onclick=\"send('install-update')\">Update with Homebrew</button>"@
        }) + "<button class=\"tool\" data-cmd=\"open:"@ + escaped(update.release_url@)
            + "\" onclick=\"send(this.dataset.cmd)\">Open release</button>"@,
        None => (if snapshot.is_checking_updates {
            "<button class=\"tool\" disabled>Checking...</button>"@
        } else {
            "<button class=\"tool\" onclick=\"send('check-updates')\">Check for updates</button>"@
        }) + "<button class=\"tool\" data-cmd=\"open:"@ + escaped(RELEASES_URL@)
            + "\" onclick=\"send(this.dataset.cmd)\">Open releases</button>"@,
    }
}

/// The updates section of the settings.
pub open spec fn update_settings_text(snapshot: AppState) -> Seq<char> {
    "<section class=\"settings-section\"><div class=\"settings-label\">Updates</div><div class=\"setting-row\"><div><div class=\"setting-name\">Pullbell version "@
        + APP_VERSION@ + "</div><div class=\"setting-note\">"@ + update_note_text(snapshot)
        + "</div></div></div><div class=\"settings-actions\">"@ + update_actions_text(snapshot)
        + "</div></section>"@
}

/// The updates section of the settings.
pub fn render_update_settings(snapshot: &AppState) -> (r: String)
    ensures
        r@ == update_settings_text(*snapshot),
{
    let note = if snapshot.is_installing_update {
        "Updating with Homebrew. A restart prompt will appear when it is ready.".to_string()
    } else {
        match &snapshot.available_update {
            Some(update) => {
                let mut n = "Update available: v".to_string();
                push_escaped(&mut n, update.latest_version.as_str());
                n
            },
            None => if snapshot.is_checking_updates {
                "Checking the latest release.".to_string()
            } else {
                match snapshot.last_update_checked_at {
                    Some(at) => {
                        let mut n = "Last checked at ".to_string();
                        let clock = clock_time(at);
                        n.append(clock.as_str());
                        n
                    },
                    None => "Check GitHub Releases for a newer version.".to_string(),
                }
            },
        }
    };
    let actions = match &snapshot.available_update {
        Some(update) => {
            let mut a = if snapshot.is_installing_update {
                "<button class=\"tool primary\" disabled>Updating...</button>".to_string()
            } else {
                "<button class=\"tool primary\" onclick=\"send('install-update')\">Update with Homebrew</button>".to_string()
            };
            a.append("<button class=\"tool\" data-cmd=\"open:");
            push_escaped(&mut a, update.release_url.as_str());
            a.append("\" onclick=\"send(this.dataset.cmd)\">Open release</button>");
            a
        },
        None => {
            let mut a = if snapshot.is_checking_updates {
                "<button class=\"tool\" disabled>Checking...</button>".to_string()
            } else {
                "<button class=\"tool\" onclick=\"send('check-updates')\">Check for updates</button>".to_string()
            };
            a.append("<button class=\"tool\" data-cmd=\"open:");
            push_escaped(&mut a, RELEASES_URL);
            a.append("\" onclick=\"send(this.dataset.cmd)\">Open releases</button>");
            a
        },
    };
    let mut html = "<section class=\"settings-section\"><div class=\"settings-label\">Updates</div><div class=\"setting-row\"><div><div class=\"setting-name\">Pullbell version ".to_string();
    html.append(APP_VERSION);
    html.append("</div><div class=\"setting-note\">");
    html.append(note.as_str());
    html.append("</div></div></div><div class=\"settings-actions\">");
    html.append(actions.as_str());
    html.append("</div></section>");
    html
}

/// The row of a repository in the repository settings, with the command
/// that mutes it, or unmutes it when it is `muted`.
pub open spec fn repo_setting_text(repo: Seq<char>, muted: bool) -> Seq<char> {
    "<div class=\"repo-setting\" data-repository-setting=\""@ + escaped(repo)
        + "\"><div><div class=\"repo-setting-name\">"@ + escaped(repo)
        + "</div><div class=\"repo-setting-note\">"@ + (if muted {
        "Muted in Pullbell"@
    } else {
        "Tracked by Pullbell"@
    }) + "</div></div><button class=\"switch"@ + (if muted {
        " on"@
    } else {
        seq![]
    }) + "\" type=\"button\" aria-label=\""@ + (if muted {
        "Unmute"@
    } else {
        "Mute"@
    }) + " "@ + escaped(repo) + " in Pullbell\" aria-pressed=\""@ + (if muted {
        "true"@
    } else {
        "false"@
    }) + "\" data-cmd=\""@ + escaped(
        (if muted {
            "unmute-repo:"@
        } else {
            "mute-repo:"@
        }) + repo,
    ) + "\" onclick=\"send(this.dataset.cmd)\"></button></div>"@
}

/// The rows of `repos`, each muted or not by `muted`.
pub open spec fn repo_settings_rows(repos: Seq<Seq<char>>, muted: Set<Seq<char>>) -> Seq<char>
    decreases repos.len(),
{
    if repos.len() == 0 {
        seq![]
    } else {
        repo_settings_rows(repos.drop_last(), muted) + repo_setting_text(
            repos.last(),
            muted.contains(repos.last()),
        )
    }
}

/// The search box over the repository settings.
pub const REPOSITORY_SEARCH: &'static str = "<input class=\"repo-search\" type=\"search\" placeholder=\"Search repositories\" aria-label=\"Search repositories\" data-repository-search>";

/// The repositories section of the settings: how many are muted, then one
/// row for each repository known or muted, in ascending order.
pub open spec fn repository_settings_text(known: Set<Seq<char>>, muted: Set<Seq<char>>) -> Seq<char> {
    let repos = sorted_texts(known.union(muted));
    "<section class=\"settings-section\"><div class=\"settings-label\">Repositories</div><div class=\"setting-row\"><div><div class=\"setting-name\">Muted repositories</div><div class=\"setting-note\">Muted repositories are hidden from Pullbell lists and desktop notifications. GitHub Watch settings are not changed.</div></div><div class=\"counter\">"@
        + decimal(muted.len()) + "</div></div>"@ + (if repos.len() == 0 {
        "<div class=\"empty\">No repositories seen yet</div>"@
    } else {
        REPOSITORY_SEARCH@ + "<div class=\"repo-settings\">"@ + repo_settings_rows(repos, muted)
            + "</div>"@
    }) + "</section>"@
}

fn render_repo_setting(repo: &str, muted: bool) -> (r: String)
    ensures
        r@ == repo_setting_text(repo@, muted),
{
    let mut command = if muted {
        "unmute-repo:".to_string()
    } else {
        "mute-repo:".to_string()
    };
    command.append(repo);
    let mut h = "<div class=\"repo-setting\" data-repository-setting=\"".to_string();
    push_escaped(&mut h, repo);
    h.append("\"><div><div class=\"repo-setting-name\">");
    push_escaped(&mut h, repo);
    h.append("</div><div class=\"repo-setting-note\">");
    h.append(
        if muted {
            "Muted in Pullbell"
        } else {
            "Tracked by Pullbell"
        },
    );
    h.append("</div></div><button class=\"switch");
    let on = if muted {
        " on".to_string()
    } else {
        String::new()
    };
    h.append(on.as_str());
    h.append("\" type=\"button\" aria-label=\"");
    h.append(
        if muted {
            "Unmute"
        } else {
            "Mute"
        },
    );
    h.append(" ");
    push_escaped(&mut h, repo);
    h.append(" in Pullbell\" aria-pressed=\"");
    h.append(
        if muted {
            "true"
        } else {
            "false"
        },
    );
    h.append("\" data-cmd=\"");
    push_escaped(&mut h, command.as_str());
    h.append("\" onclick=\"send(this.dataset.cmd)\"></button></div>");
    h
}

/// The repositories known or muted, each once, in ascending order.
fn settings_repositories(settings: &AppSettings) -> (r: Vec<String>)
    ensures
        texts(r@) == sorted_texts(settings.known().union(settings.muted())),
{
    let known = settings.known_repositories();
    let muted = settings.muted_repositories();
    let mut r = copy_strings(known);
    let ghost m = texts(muted@);
    let mut i: usize = 0;
    while i < muted.len()
        invariant
            i <= muted@.len(),
            m == texts(muted@),
            strictly_sorted(texts(r@)),
            texts(r@).to_set() == settings.known().union(m.take(i as int).to_set()),
        decreases muted@.len() - i,
    {
        assert(m.take(i + 1) == m.take(i as int).push(m[i as int]));
        assert(m.take(i + 1).to_set() =~= m.take(i as int).to_set().insert(m[i as int])) by {
            let t = m.take(i as int);
            assert forall|y: Seq<char>| #[trigger] t.push(m[i as int]).contains(y) <==> t.to_set().insert(m[i as int]).contains(y) by {
                if t.push(m[i as int]).contains(y) {
                    let k = choose|k: int| 0 <= k < t.len() + 1 && t.push(m[i as int])[k] == y;
                    if k < t.len() {
                        assert(t[k] == y);
                        assert(t.contains(y));
                    }
                }
                if t.contains(y) {
                    let k = choose|k: int| 0 <= k < t.len() && t[k] == y;
                    assert(t.push(m[i as int])[k] == y);
                }
                if y == m[i as int] {
                    assert(t.push(m[i as int])[t.len() as int] == y);
                }
            }
        }
        insert_sorted(&mut r, muted[i].clone());
        assert(texts(r@).to_set() =~= settings.known().union(m.take(i + 1).to_set()));
        i = i + 1;
    }
    assert(m.take(m.len() as int) == m);
    proof {
        strictly_sorted_is_sorted_texts(texts(r@));
    }
    r
}

/// The repositories section of the settings, where each repository can be
/// muted or unmuted.
pub fn render_repository_settings(snapshot: &AppState) -> (r: String)
    ensures
        r@ == repository_settings_text(snapshot.settings.known(), snapshot.settings.muted()),
{
    let settings = &snapshot.settings;
    let repositories = settings_repositories(settings);
    let muted = settings.muted_repositories();
    proof {
        strictly_sorted_len(texts(muted@));
    }
    let mut html = "<section class=\"settings-section\"><div class=\"settings-label\">Repositories</div><div class=\"setting-row\"><div><div class=\"setting-name\">Muted repositories</div><div class=\"setting-note\">Muted repositories are hidden from Pullbell lists and desktop notifications. GitHub Watch settings are not changed.</div></div><div class=\"counter\">".to_string();
    push_decimal(&mut html, muted.len() as u64);
    html.append("</div></div>");
    let ghost repos = texts(repositories@);
    let body = if repositories.len() == 0 {
        "<div class=\"empty\">No repositories seen yet</div>".to_string()
    } else {
        let mut rows = String::new();
        let mut i: usize = 0;
        while i < repositories.len()
            invariant
                i <= repositories@.len(),
                repos == texts(repositories@),
                texts(muted@).to_set() == settings.muted(),
                rows@ == repo_settings_rows(repos.take(i as int), settings.muted()),
            decreases repositories@.len() - i,
        {
            let repo = repositories[i].as_str();
            let is_muted = sorted_contains(muted, repo);
            let row = render_repo_setting(repo, is_muted);
            rows.append(row.as_str());
            assert(repos.take(i + 1).drop_last() == repos.take(i as int));
            i = i + 1;
        }
        assert(repos.take(repos.len() as int) == repos);
        let mut b = REPOSITORY_SEARCH.to_string();
        b.append("<div class=\"repo-settings\">");
        b.append(rows.as_str());
        b.append("</div>");
        b
    };
    html.append(body.as_str());
    html.append("</section>");
    html
}

/// The view section of the settings.
pub const VIEW_SETTINGS: &'static str = "<section class=\"settings-section\"><div class=\"settings-label\">View</div><div class=\"setting-row\"><div><div class=\"setting-name\">Group by Repository</div><div class=\"setting-note\">Preview control only. The notification list keeps the current order.</div></div><button class=\"switch\" type=\"button\" data-group-by-repository aria-label=\"Group by Repository\" aria-pressed=\"false\" onclick=\"window.PullbellToggleGroupByRepository()\"></button></div></section>";

/// The app section of the settings, with the button that quits.
pub const APP_SETTINGS: &'static str = "<section class=\"settings-section\"><div class=\"settings-label\">App</div><div class=\"setting-row\"><div><div class=\"setting-name\">Pullbell</div><div class=\"setting-note\">Close the menu bar app.</div></div></div><div class=\"settings-actions\"><button class=\"tool\" onclick=\"send('quit')\">Quit Pullbell</button></div></section>";

/// The app section of the settings.
pub fn render_app_settings() -> (r: String)
    ensures
        r@ == APP_SETTINGS@,
{
    APP_SETTINGS.to_string()
}

/// The settings view: back button and title, then the account, updates,
/// repositories, view, filter, muted and app sections.
pub open spec fn settings_text(snapshot: AppState) -> Seq<char> {
    "<main id=\"settings-view\" class=\"content view settings\" data-panel-view=\"settings\"><div class=\"settings-head\"><button class=\"tool icon\" title=\"Back to notifications\" aria-label=\"Back to notifications\" onclick=\"window.PullbellShowNotifications()\">"@
        + BACK_ICON@
        + "</button><div><div class=\"settings-title\">Settings</div><div class=\"settings-subtitle\">Manage Pullbell controls and app actions.</div></div></div><div class=\"settings-body\">"@
        + account_settings_text(snapshot) + update_settings_text(snapshot)
        + repository_settings_text(snapshot.settings.known(), snapshot.settings.muted())
        + VIEW_SETTINGS@
        + "<section class=\"settings-section\"><div class=\"settings-label\">Focus filters</div><div class=\"setting-note\">These controls mirror the notification list filters.</div><div class=\"settings-filters\">"@
        + filter_controls_text(snapshot.pull_requests@) + "</div></section>"@
        + "<section class=\"settings-section\"><div class=\"settings-label\">Muted</div><div class=\"setting-note\">Available repositories, reasons, and users you can filter out for this session.</div>"@
        + muted_chips_text(snapshot.pull_requests@) + "</section>"@ + APP_SETTINGS@
        + "</div></main>"@
}

/// The settings view of the panel.
pub fn render_settings(snapshot: &AppState) -> (r: String)
    ensures
        r@ == settings_text(*snapshot),
{
    let mut html = "<main id=\"settings-view\" class=\"content view settings\" data-panel-view=\"settings\"><div class=\"settings-head\"><button class=\"tool icon\" title=\"Back to notifications\" aria-label=\"Back to notifications\" onclick=\"window.PullbellShowNotifications()\">".to_string();
    html.append(BACK_ICON);
    html.append("</button><div><div class=\"settings-title\">Settings</div><div class=\"settings-subtitle\">Manage Pullbell controls and app actions.</div></div></div><div class=\"settings-body\">");
    let account = render_account_settings(snapshot);
    html.append(account.as_str());
    let updates = render_update_settings(snapshot);
    html.append(updates.as_str());
    let repositories = render_repository_settings(snapshot);
    html.append(repositories.as_str());
    html.append(VIEW_SETTINGS);
    html.append("<section class=\"settings-section\"><div class=\"settings-label\">Focus filters</div><div class=\"setting-note\">These controls mirror the notification list filters.</div><div class=\"settings-filters\">");
    let filters = render_filter_controls(snapshot);
    html.append(filters.as_str());
    html.append("</div></section>");
    html.append("<section class=\"settings-section\"><div class=\"settings-label\">Muted</div><div class=\"setting-note\">Available repositories, reasons, and users you can filter out for this session.</div>");
    let chips = render_muted_chips(snapshot);
    html.append(chips.as_str());
    html.append("</section>");
    let app = render_app_settings();
    html.append(app.as_str());
    html.append("</div></main>");
    html
}

// ---------------------------------------------------------------------------
// Pinned card, footer and page
// ---------------------------------------------------------------------------

/// The pinned card: a pending sign-in, an update being installed or
/// available, an update status, a status, an update check, an error, the
/// last refresh, readiness, or a call to sign in, the first that applies.
pub open spec fn pinned_card_text(snapshot: AppState) -> Seq<char> {
    match snapshot.pending_auth {
        Some(auth) => "<div class=\"pinned\"><div class=\"pinned-title\">GitHub sign-in is waiting</div><div class=\"pinned-body\">Enter this code on GitHub. It was copied to the clipboard.</div><div class=\"code\">"@
            + escaped(auth.user_code@) + "</div></div>"@,
        None => if snapshot.is_installing_update {
            "<div class=\"pinned\"><div class=\"pinned-title\">Updating Pullbell</div><div class=\"pinned-body\">Homebrew is updating the app. A restart prompt will appear when it is ready.</div></div>"@
        } else {
            match snapshot.available_update {
                Some(update) => "<div class=\"pinned\"><div class=\"pinned-title\">Update available: v"@
                    + escaped(update.latest_version@)
                    + "</div><div class=\"pinned-body\">A newer Pullbell release is ready.</div></div>"@,
                None => match snapshot.update_status {
                    Some(status) => "<div class=\"pinned\"><div class=\"pinned-title\">Update status</div><div class=\"pinned-body\">"@
                        + escaped(status@) + "</div></div>"@,
                    None => match snapshot.last_status {
                        Some(status) => "<div class=\"pinned\"><div class=\"pinned-title\">Status</div><div class=\"pinned-body\">"@
                            + escaped(status@) + "</div></div>"@,
                        None => if snapshot.is_checking_updates {
                            "<div class=\"pinned\"><div class=\"pinned-title\">Checking for updates</div><div class=\"pinned-body\">Pullbell is checking the latest release.</div></div>"@
                        } else {
                            match snapshot.last_error {
                                Some(error) => "<div class=\"pinned\"><div class=\"pinned-title\">Needs attention</div><div class=\"pinned-body\">"@
                                    + escaped(error@) + "</div></div>"@,
                                None => match snapshot.last_refreshed_at {
                                    Some(at) => "<div class=\"pinned\"><div class=\"pinned-title\">Ready</div><div class=\"pinned-body\">Last refreshed at "@
                                        + clock_text(at) + "</div></div>"@,
                                    None => if snapshot.token_loaded {
                                        "<div class=\"pinned\"><div class=\"pinned-title\">Ready</div><div class=\"pinned-body\">Pullbell is watching your GitHub pull requests.</div></div>"@
                                    } else {
                                        "<div class=\"pinned\"><div class=\"pinned-title\">Sign in to start</div><div class=\"pinned-body\">Connect GitHub to watch pull request activity.</div></div>"@
                                    },
                                },
                            }
                        },
                    },
                },
            }
        },
    }
}

/// The pinned section.
pub open spec fn pinned_text(snapshot: AppState) -> Seq<char> {
    "<section class=\"section\"><div class=\"heading\"><span>Pinned</span><span></span></div>"@
        + pinned_card_text(snapshot) + "</section>"@
}

fn pinned_card(snapshot: &AppState) -> (r: String)
    ensures
        r@ == pinned_card_text(*snapshot),
{
    if let Some(auth) = &snapshot.pending_auth {
        let mut c = "<div class=\"pinned\"><div class=\"pinned-title\">GitHub sign-in is waiting</div><div class=\"pinned-body\">Enter this code on GitHub. It was copied to the clipboard.</div><div class=\"code\">".to_string();
        push_escaped(&mut c, auth.user_code.as_str());
        c.append("</div></div>");
        c
    } else if snapshot.is_installing_update {
        "<div class=\"pinned\"><div class=\"pinned-title\">Updating Pullbell</div><div class=\"pinned-body\">Homebrew is updating the app. A restart prompt will appear when it is ready.</div></div>".to_string()
    } else if let Some(update) = &snapshot.available_update {
        let mut c = "<div class=\"pinned\"><div class=\"pinned-title\">Update available: v".to_string();
        push_escaped(&mut c, update.latest_version.as_str());
        c.append("</div><div class=\"pinned-body\">A newer Pullbell release is ready.</div></div>");
        c
    } else if let Some(status) = &snapshot.update_status {
        let mut c = "<div class=\"pinned\"><div class=\"pinned-title\">Update status</div><div class=\"pinned-body\">".to_string();
        push_escaped(&mut c, status.as_str());
        c.append("</div></div>");
        c
    } else if let Some(status) = &snapshot.last_status {
        let mut c = "<div class=\"pinned\"><div class=\"pinned-title\">Status</div><div class=\"pinned-body\">".to_string();
        push_escaped(&mut c, status.as_str());
        c.append("</div></div>");
        c
    } else if snapshot.is_checking_updates {
        "<div class=\"pinned\"><div class=\"pinned-title\">Checking for updates</div><div class=\"pinned-body\">Pullbell is checking the latest release.</div></div>".to_string()
    } else if let Some(error) = &snapshot.last_error {
        let mut c = "<div class=\"pinned\"><div class=\"pinned-title\">Needs attention</div><div class=\"pinned-body\">".to_string();
        push_escaped(&mut c, error.as_str());
        c.append("</div></div>");
        c
    } else if let Some(at) = snapshot.last_refreshed_at {
        let mut c = "<div class=\"pinned\"><div class=\"pinned-title\">Ready</div><div class=\"pinned-body\">Last refreshed at ".to_string();
        let clock = clock_time(at);
        c.append(clock.as_str());
        c.append("</div></div>");
        c
    } else if snapshot.token_loaded {
        "<div class=\"pinned\"><div class=\"pinned-title\">Ready</div><div class=\"pinned-body\">Pullbell is watching your GitHub pull requests.</div></div>".to_string()
    } else {
        "<div class=\"pinned\"><div class=\"pinned-title\">Sign in to start</div><div class=\"pinned-body\">Connect GitHub to watch pull request activity.</div></div>".to_string()
    }
}

/// The pinned section of the panel.
pub fn render_pinned(snapshot: &AppState) -> (r: String)
    ensures
        r@ == pinned_text(*snapshot),
{
    let mut html = "<section class=\"section\"><div class=\"heading\"><span>Pinned</span><span></span></div>".to_string();
    let card = pinned_card(snapshot);
    html.append(card.as_str());
    html.append("</section>");
    html
}

/// The footer: refresh (or that a refresh runs), the inbox, and settings.
pub open spec fn footer_text(snapshot: AppState) -> Seq<char> {
    "<footer class=\"footer\"><button class=\"tool primary\" onclick=\"send('refresh')\">"@
        + (if snapshot.is_refreshing {
        "Refreshing"@
    } else {
        "Refresh"@
    })
        + "</button><button class=\"tool\" title=\"Open GitHub inbox\" onclick=\"send('inbox')\">Inbox</button>"@
        + "<div class=\"spacer\"></div>"@
        + "<button class=\"tool icon\" data-open-settings type=\"button\" title=\"Settings\" aria-label=\"Open settings\" aria-controls=\"settings-view\" aria-expanded=\"false\" onclick=\"window.PullbellShowSettings()\">"@
        + SETTINGS_ICON@ + "</button>"@ + "</footer>"@
}

/// The footer of the panel.
pub fn render_footer(snapshot: &AppState) -> (r: String)
    ensures
        r@ == footer_text(*snapshot),
{
    let mut html = "<footer class=\"footer\"><button class=\"tool primary\" onclick=\"send('refresh')\">".to_string();
    html.append(
        if snapshot.is_refreshing {
            "Refreshing"
        } else {
            "Refresh"
        },
    );
    html.append("</button><button class=\"tool\" title=\"Open GitHub inbox\" onclick=\"send('inbox')\">Inbox</button>");
    html.append("<div class=\"spacer\"></div>");
    html.append("<button class=\"tool icon\" data-open-settings type=\"button\" title=\"Settings\" aria-label=\"Open settings\" aria-controls=\"settings-view\" aria-expanded=\"false\" onclick=\"window.PullbellShowSettings()\">");
    html.append(SETTINGS_ICON);
    html.append("</button>");
    html.append("</footer>");
    html
}

/// The preview pane, filled in by the page's script.
pub const PREVIEW_PANE: &'static str = "<aside id=\"preview\" class=\"preview\"><div class=\"preview-head\"><div><div id=\"preview-title\" class=\"preview-title\"></div><div id=\"preview-meta\" class=\"preview-meta\"></div></div><button class=\"preview-close\" onclick=\"window.PullbellHidePreview()\" title=\"Close preview\" aria-label=\"Close preview\">x</button></div><div id=\"preview-body\" class=\"preview-body\"></div></aside>";

/// The preview pane.
pub fn render_preview() -> (r: String)
    ensures
        r@ == PREVIEW_PANE@,
{
    PREVIEW_PANE.to_string()
}

/// The panel's body at `now`: top bar; the notifications view with the
/// filters, the pinned card, the to-do and done sections; the settings
/// view; the footer; the preview pane.
pub open spec fn body_text(snapshot: AppState, now: (i64, u32)) -> Seq<char> {
    let items = snapshot.pull_requests@;
    let todo = todo_total(items);
    let done = (items.len() - todo) as nat;
    topbar_text(snapshot, todo)
        + "<main id=\"notifications-view\" class=\"content view active\" data-panel-view=\"notifications\">"@
        + ("<div class=\"filters\">"@ + filter_controls_text(items) + "</div>"@) + pinned_text(snapshot)
        + section_text("To do"@, todo, items, true, "All caught up"@, now) + section_text(
        "Done"@,
        done,
        items,
        false,
        "No open PRs being tracked"@,
        now,
    ) + "</main>"@ + settings_text(snapshot) + footer_text(snapshot) + PREVIEW_PANE@
}

/// The panel's body, with ages measured at `now`.
pub fn render_body_at(snapshot: &AppState, now: (i64, u32)) -> (r: String)
    ensures
        r@ == body_text(*snapshot, now),
{
    let (todo_count, done_count) = snapshot.todo_done_counts();
    let mut html = render_topbar(snapshot, todo_count);
    html.append("<main id=\"notifications-view\" class=\"content view active\" data-panel-view=\"notifications\">");
    let filters = render_filters(snapshot);
    html.append(filters.as_str());
    let pinned = render_pinned(snapshot);
    html.append(pinned.as_str());
    let todo = render_section("To do", todo_count, &snapshot.pull_requests, true, "All caught up", now);
    html.append(todo.as_str());
    let done = render_section(
        "Done",
        done_count,
        &snapshot.pull_requests,
        false,
        "No open PRs being tracked",
        now,
    );
    html.append(done.as_str());
    html.append("</main>");
    let settings = render_settings(snapshot);
    html.append(settings.as_str());
    let footer = render_footer(snapshot);
    html.append(footer.as_str());
    let preview = render_preview();
    html.append(preview.as_str());
    html
}

/// The panel's body, with ages measured at the current time
/// (`current_time`).
pub fn render_body(snapshot: &AppState) -> (r: String)
    ensures
        exists|now: (i64, u32)| is_clock_time(now) && r@ == body_text(*snapshot, now),
{
    let now = current_time();
    render_body_at(snapshot, now)
}

/// The page of the panel at `now`: styles and markup up to the body, the
/// body, then the script.
pub open spec fn page_text(snapshot: AppState, now: (i64, u32)) -> Seq<char> {
    PAGE_HEAD@ + body_text(snapshot, now) + PAGE_TAIL@
}

/// The page of the panel, with ages measured at `now`.
pub fn html_at(snapshot: &AppState, now: (i64, u32)) -> (r: String)
    ensures
        r@ == page_text(*snapshot, now),
{
    let mut page = PAGE_HEAD.to_string();
    let body = render_body_at(snapshot, now);
    page.append(body.as_str());
    page.append(PAGE_TAIL);
    page
}

/// The page of the panel, with ages measured at the current time
/// (`current_time`).
pub fn html(snapshot: &AppState) -> (r: String)
    ensures
        exists|now: (i64, u32)| is_clock_time(now) && r@ == page_text(*snapshot, now),
{
    let now = current_time();
    html_at(snapshot, now)
}

/// The page up to the body: its styles and the opening markup.
pub const PAGE_HEAD: &'static str = r#"<!doctype html>
<html>
<head>
<meta charset="utf-8">
<meta name="viewport" content="width=device-width, initial-scale=1">
<style>
* { box-sizing: border-box; }
:root {
  color-scheme: dark;
  font-family: -apple-system, BlinkMacSystemFont, "SF Pro Text", "Segoe UI", sans-serif;
  background: transparent;
}
html, body {
  margin: 0;
  width: 100%;
  min-height: 100%;
  overflow: hidden;
  background: transparent;
}
body {
  padding: 10px;
  color: #f4f5f6;
  font-size: 13px;
  line-height: 1.35;
  letter-spacing: 0;
}
button {
  font: inherit;
  letter-spacing: 0;
}
.panel {
  position: relative;
  width: 500px;
  height: 660px;
  overflow: hidden;
  border: 1px solid rgba(255,255,255,.12);
  border-radius: 18px;
  background: #1d1f23;
  box-shadow: 0 22px 70px rgba(0,0,0,.48), 0 2px 12px rgba(0,0,0,.34);
}
.shell {
  display: grid;
  grid-template-rows: auto 1fr auto;
  height: 100%;
}
.topbar {
  display: flex;
  align-items: center;
  justify-content: space-between;
  gap: 16px;
  padding: 16px 16px 10px;
  border-bottom: 1px solid rgba(255,255,255,.07);
}
.brand {
  display: flex;
  align-items: center;
  min-width: 0;
  gap: 10px;
}
.mark {
  width: 25px;
  height: 25px;
  border-radius: 8px;
  background: linear-gradient(145deg, #f7f7f8 0%, #a9adb7 100%);
  color: #16181c;
  display: grid;
  place-items: center;
  font-weight: 800;
}
.brand-text {
  min-width: 0;
}
.name {
  font-size: 15px;
  font-weight: 650;
}
.subtle {
  color: #9ba0aa;
  font-size: 11px;
  white-space: nowrap;
  overflow: hidden;
  text-overflow: ellipsis;
}
.counter {
  min-width: 34px;
  height: 24px;
  border-radius: 999px;
  display: grid;
  place-items: center;
  background: #f7f8fb;
  color: #17191d;
  font-size: 12px;
  font-weight: 700;
}
.content {
  overflow: auto;
  padding: 8px 8px 12px;
}
.view {
  display: none;
}
.view.active {
  display: block;
}
.filters {
  display: grid;
  grid-template-columns: repeat(3, minmax(0, 1fr));
  gap: 6px;
  padding: 8px 6px 4px;
}
.filter {
  min-width: 0;
  height: 28px;
  border: 1px solid rgba(255,255,255,.08);
  border-radius: 8px;
  padding: 0 8px;
  color: #d9dce2;
  background: #252930;
  font: inherit;
  font-size: 11px;
}
.filter:focus {
  outline: 1px solid rgba(255,255,255,.20);
  outline-offset: 0;
}
.section {
  padding: 8px 6px 2px;
}
.heading {
  display: flex;
  align-items: center;
  justify-content: space-between;
  padding: 5px 8px 6px;
  color: #7f8490;
  font-size: 11px;
  font-weight: 700;
  text-transform: uppercase;
}
.heading span:last-child {
  color: #606672;
}
.row {
  width: 100%;
  min-height: 62px;
  display: grid;
  grid-template-columns: minmax(0, 1fr) 28px 28px auto;
  gap: 8px;
  align-items: center;
  padding: 9px 10px 9px 0;
  border: 0;
  border-radius: 10px;
  color: inherit;
  background: transparent;
  text-align: left;
  cursor: default;
}
.row:hover,
.row:focus-within {
  background: #2c3036;
}
.row:focus {
  outline: none;
}
.row.selected {
  background: #313640;
  box-shadow: inset 0 0 0 1px rgba(255,255,255,.10);
}
.row-open {
  min-width: 0;
  display: grid;
  grid-template-columns: 34px minmax(0, 1fr);
  gap: 10px;
  align-items: center;
  padding: 0 0 0 10px;
  border: 0;
  color: inherit;
  background: transparent;
  text-align: left;
}
.row-open:focus {
  outline: none;
}
.row-open:active {
  color: inherit;
}
.row-main {
  min-width: 0;
}
.row-action {
  width: 28px;
  height: 28px;
  display: grid;
  place-items: center;
  border: 0;
  border-radius: 8px;
  color: #d6d9df;
  background: transparent;
  opacity: 0;
  visibility: hidden;
  pointer-events: none;
}
.row.selected .row-action,
.row:focus-within .row-action {
  opacity: 1;
  visibility: visible;
  pointer-events: auto;
}
.row-action:hover {
  color: #ffffff;
  background: #3a404a;
}
.row-action:focus {
  outline: 1px solid rgba(255,255,255,.22);
  outline-offset: 0;
}
.row-action svg {
  width: 15px;
  height: 15px;
  stroke: currentColor;
}
.badge {
  width: 28px;
  height: 28px;
  display: grid;
  place-items: center;
  color: #9ca1ac;
}
.badge svg {
  width: 20px;
  height: 20px;
  stroke: currentColor;
}
.badge.review { color: #9b87ff; }
.badge.notify { color: #3fb6f2; }
.badge.authored { color: #8c949f; }
.badge.ci { color: #ff6b6b; }
.badge.mention { color: #49c6f5; }
.badge.security { color: #ffb84d; }
.badge.state { color: #75d08a; }
.badge.assign { color: #f2c94c; }
.badge.muted { color: #707681; }
.row.done .badge { color: #676d77; }
.main {
  min-width: 0;
}
.meta {
  display: flex;
  align-items: center;
  gap: 6px;
  min-width: 0;
  color: #9ca1ac;
  font-size: 11px;
}
.repo {
  min-width: 0;
  overflow: hidden;
  text-overflow: ellipsis;
  white-space: nowrap;
}
.dot {
  width: 3px;
  height: 3px;
  border-radius: 999px;
  background: #656b76;
  flex: 0 0 auto;
}
.title {
  margin-top: 3px;
  min-width: 0;
  overflow: hidden;
  text-overflow: ellipsis;
  white-space: nowrap;
  color: #f0f1f3;
  font-size: 13px;
  font-weight: 540;
}
.age {
  align-self: start;
  padding-top: 2px;
  color: #7a808b;
  font-size: 11px;
  white-space: nowrap;
}
.empty {
  margin: 2px 8px 8px;
  padding: 14px 12px;
  border-radius: 10px;
  color: #8d939f;
  background: rgba(255,255,255,.035);
}
.pinned {
  margin: 2px 8px 8px;
  padding: 11px 12px;
  border-radius: 10px;
  background: #282c33;
  border: 1px solid rgba(255,255,255,.07);
}
.pinned-title {
  font-weight: 650;
  color: #f2f3f5;
}
.pinned-body {
  margin-top: 3px;
  color: #a8adb8;
  font-size: 12px;
}
.code {
  margin-top: 8px;
  width: max-content;
  max-width: 100%;
  padding: 5px 8px;
  border-radius: 7px;
  background: #15171b;
  color: #ffffff;
  font-weight: 800;
  letter-spacing: .08em;
}
.footer {
  display: flex;
  align-items: center;
  gap: 8px;
  padding: 10px 12px 12px;
  border-top: 1px solid rgba(255,255,255,.08);
  background: rgba(22,24,28,.84);
}
.tool {
  height: 30px;
  min-width: 30px;
  border: 0;
  border-radius: 9px;
  display: grid;
  place-items: center;
  padding: 0 9px;
  color: #d7dae0;
  background: transparent;
}
.tool:hover {
  background: #30343b;
  color: #ffffff;
}
.tool.icon {
  width: 30px;
  min-width: 30px;
  padding: 0;
}
.tool svg {
  width: 17px;
  height: 17px;
  stroke: currentColor;
}
.tool.primary {
  min-width: 72px;
  background: #f4f5f7;
  color: #17191d;
  font-weight: 700;
}
.spacer { flex: 1; }
.settings {
  padding: 0;
  background: #202329;
}
.settings-head {
  display: grid;
  grid-template-columns: 32px minmax(0, 1fr);
  gap: 10px;
  align-items: center;
  padding: 14px 14px 12px;
  border-bottom: 1px solid rgba(255,255,255,.08);
}
.settings-title {
  min-width: 0;
  color: #f3f4f6;
  font-size: 18px;
  font-weight: 700;
}
.settings-subtitle {
  margin-top: 2px;
  color: #9298a3;
  font-size: 11px;
}
.settings-body {
  padding: 10px 14px 16px;
}
.settings-section {
  padding: 12px 0 14px;
  border-bottom: 1px solid rgba(255,255,255,.07);
}
.settings-section:last-child {
  border-bottom: 0;
}
.settings-label {
  color: #7f8490;
  font-size: 11px;
  font-weight: 700;
  text-transform: uppercase;
}
.setting-row {
  display: grid;
  grid-template-columns: minmax(0, 1fr) auto;
  gap: 14px;
  align-items: center;
  min-height: 46px;
  padding: 8px 0;
}
.setting-name {
  color: #f0f1f3;
  font-size: 13px;
  font-weight: 620;
}
.setting-note {
  margin-top: 3px;
  color: #969ca7;
  font-size: 11px;
}
.switch {
  position: relative;
  width: 42px;
  height: 24px;
  border: 0;
  border-radius: 999px;
  background: #3a404a;
  transition: background .14s ease-out;
}
.switch::after {
  content: "";
  position: absolute;
  top: 3px;
  left: 3px;
  width: 18px;
  height: 18px;
  border-radius: 999px;
  background: #cfd3da;
  box-shadow: 0 1px 3px rgba(0,0,0,.35);
  transition: transform .14s ease-out, background .14s ease-out;
}
.switch.on {
  background: #3f8cff;
}
.switch.on::after {
  background: #ffffff;
  transform: translateX(18px);
}
.settings-filters {
  display: grid;
  grid-template-columns: repeat(3, minmax(0, 1fr));
  gap: 7px;
  padding-top: 10px;
}
.settings-filters .filter {
  width: 100%;
}
.settings-actions {
  display: flex;
  flex-wrap: wrap;
  gap: 7px;
  padding-top: 10px;
}
.settings-actions .tool {
  border: 1px solid rgba(255,255,255,.08);
  background: #2b3038;
}
.settings-actions .tool:hover {
  background: #343a44;
}
.settings-actions .tool:disabled {
  color: #747b86;
  background: #252930;
}
.repo-search {
  width: 100%;
  height: 30px;
  margin-top: 10px;
  border: 1px solid rgba(255,255,255,.08);
  border-radius: 8px;
  padding: 0 9px;
  color: #d9dce2;
  background: #252930;
  font: inherit;
  font-size: 12px;
}
.repo-settings {
  display: grid;
  gap: 2px;
  padding-top: 8px;
}
.repo-setting {
  display: grid;
  grid-template-columns: minmax(0, 1fr) auto;
  gap: 12px;
  align-items: center;
  min-height: 38px;
}
.repo-setting-name {
  min-width: 0;
  overflow: hidden;
  text-overflow: ellipsis;
  white-space: nowrap;
  color: #e7e9ee;
  font-size: 12px;
}
.repo-setting-note {
  margin-top: 2px;
  color: #858b96;
  font-size: 11px;
}
.chips {
  display: flex;
  flex-wrap: wrap;
  gap: 7px;
  padding-top: 10px;
}
.chip {
  max-width: 100%;
  min-height: 24px;
  display: inline-flex;
  align-items: center;
  border-radius: 999px;
  padding: 4px 8px;
  color: #c9ced7;
  background: #2b3038;
  font-size: 11px;
}
.chip.empty {
  color: #8b929e;
}
.preview {
  position: absolute;
  inset: 58px 10px 52px;
  display: none;
  grid-template-rows: auto 1fr;
  overflow: hidden;
  border: 1px solid rgba(255,255,255,.12);
  border-radius: 14px;
  background: #22262d;
  box-shadow: 0 18px 54px rgba(0,0,0,.46);
  z-index: 3;
}
.preview.open {
  display: grid;
}
.preview-head {
  display: grid;
  grid-template-columns: minmax(0, 1fr) auto;
  gap: 12px;
  padding: 14px 14px 10px;
  border-bottom: 1px solid rgba(255,255,255,.08);
}
.preview-title {
  min-width: 0;
  overflow: hidden;
  text-overflow: ellipsis;
  white-space: nowrap;
  color: #f3f4f6;
  font-weight: 650;
}
.preview-meta {
  margin-top: 4px;
  min-width: 0;
  overflow: hidden;
  text-overflow: ellipsis;
  white-space: nowrap;
  color: #969ca7;
  font-size: 11px;
}
.preview-close {
  width: 28px;
  height: 28px;
  border: 0;
  border-radius: 8px;
  color: #d6d9df;
  background: transparent;
}
.preview-close:hover {
  background: #323741;
}
.preview-body {
  overflow: auto;
  padding: 13px 14px 16px;
  color: #d7dae0;
  white-space: pre-wrap;
  overflow-wrap: anywhere;
  font-size: 12px;
  line-height: 1.45;
}
</style>
</head>
<body>
<div class="panel"><div id="app" class="shell">"#;

/// The page after the body: the script that drives the panel, and the
/// closing markup.
pub const PAGE_TAIL: &'static str = r#"</div></div>
<script>
window.send = function(message) { window.ipc.postMessage(message); };
(function() {
  const app = document.getElementById("app");
  let selectedIndex = 0;
  let filters = { repo: "", reason: "", author: "" };
  let previewOpen = false;
  let currentView = "notifications";
  let groupByRepository = false;
  let pendingSelectionDoneCmd = null;

  function selectableRows() {
    return Array.from(document.querySelectorAll("[data-selectable='true']"));
  }

  function visibleRows() {
    return selectableRows().filter(function(row) { return !row.hidden; });
  }

  function visibleTodoRows() {
    return visibleRows().filter(function(row) {
      return row.dataset.todoRow === "true";
    });
  }

  function clamp(index, count) {
    if (count === 0) return 0;
    return Math.max(0, Math.min(index, count - 1));
  }

  window.PullbellSelect = function(index, shouldFocus) {
    const rows = visibleRows();
    selectedIndex = clamp(index, rows.length);

    selectableRows().forEach(function(row) {
      const selected = rows[selectedIndex] === row;
      row.classList.toggle("selected", selected);
      row.tabIndex = selected ? 0 : -1;
      row.setAttribute("aria-selected", selected ? "true" : "false");
    });

    if (rows.length > 0 && shouldFocus) {
      rows[selectedIndex].focus({ preventScroll: true });
      rows[selectedIndex].scrollIntoView({ block: "nearest" });
    }

    if (previewOpen) window.PullbellShowPreview();
  };

  window.PullbellSelectElement = function(element) {
    const index = visibleRows().indexOf(element);
    if (index >= 0) window.PullbellSelect(index, false);
  };

  window.PullbellActivateSelected = function() {
    const row = visibleRows()[selectedIndex];
    if (row && row.dataset.cmd) window.send(row.dataset.cmd);
  };

  window.PullbellCopySelected = function() {
    const row = visibleRows()[selectedIndex];
    if (row && row.dataset.copyCmd) window.send(row.dataset.copyCmd);
  };

  function rememberSelectionAfterDone(row) {
    if (!row || row.classList.contains("done")) return;

    const rows = visibleTodoRows();
    const index = rows.indexOf(row);
    if (index < 0) return;

    const nextRow = rows[index + 1] || rows[index - 1];
    pendingSelectionDoneCmd = nextRow ? nextRow.dataset.doneCmd : null;
  }

  function restorePendingSelection() {
    if (!pendingSelectionDoneCmd) return false;

    const command = pendingSelectionDoneCmd;
    pendingSelectionDoneCmd = null;

    const rows = visibleRows();
    const index = rows.findIndex(function(row) {
      return row.dataset.doneCmd === command;
    });
    if (index < 0) return false;

    window.PullbellSelect(index, currentView === "notifications");
    return true;
  }

  window.PullbellActOnSelected = function(action) {
    const row = visibleRows()[selectedIndex];
    if (!row) return;

    if (action === "done") rememberSelectionAfterDone(row);

    const command =
      action === "done" ? row.dataset.doneCmd :
      action === "undo" ? row.dataset.undoCmd :
      action === "mute-repo" ? row.dataset.muteRepoCmd :
      row.dataset.muteCmd;
    window.send(command || "missing-action:" + action);
  };

  window.PullbellShowPreview = function() {
    const row = visibleRows()[selectedIndex];
    const preview = document.getElementById("preview");
    if (!row || !preview) return;

    document.getElementById("preview-title").textContent = row.dataset.previewTitle || "";
    document.getElementById("preview-meta").textContent = row.dataset.previewMeta || "";
    document.getElementById("preview-body").textContent = row.dataset.previewBody || "No preview text available.";
    preview.classList.add("open");
    previewOpen = true;
  };

  window.PullbellHidePreview = function() {
    const preview = document.getElementById("preview");
    if (preview) preview.classList.remove("open");
    previewOpen = false;
  };

  window.PullbellTogglePreview = function() {
    if (previewOpen) {
      window.PullbellHidePreview();
    } else {
      window.PullbellShowPreview();
    }
  };

  window.PullbellSetView = function(view) {
    currentView = view === "settings" ? "settings" : "notifications";
    document.querySelectorAll("[data-panel-view]").forEach(function(element) {
      element.classList.toggle("active", element.dataset.panelView === currentView);
    });
    const settingsButton = document.querySelector("[data-open-settings]");
    if (settingsButton) {
      settingsButton.setAttribute("aria-expanded", currentView === "settings" ? "true" : "false");
    }
    if (currentView === "settings") window.PullbellHidePreview();
  };

  window.PullbellShowSettings = function() {
    window.PullbellSetView("settings");
  };

  window.PullbellShowNotifications = function() {
    window.PullbellSetView("notifications");
  };

  window.PullbellSyncGroupByRepository = function() {
    document.querySelectorAll("[data-group-by-repository]").forEach(function(control) {
      control.classList.toggle("on", groupByRepository);
      control.setAttribute("aria-pressed", groupByRepository ? "true" : "false");
    });
  };

  window.PullbellToggleGroupByRepository = function() {
    groupByRepository = !groupByRepository;
    window.PullbellSyncGroupByRepository();
  };

  function syncFilterControls() {
    Object.keys(filters).forEach(function(name) {
      const controls = Array.from(document.querySelectorAll("[data-filter='" + name + "']"));
      if (controls.length === 0) return;
      const hasValue = controls.some(function(control) {
        return Array.from(control.options).some(function(option) {
          return option.value === filters[name];
        });
      });
      if (!hasValue) filters[name] = "";
      controls.forEach(function(control) {
        control.value = filters[name];
      });
    });
  }

  window.PullbellApplyFilters = function() {
    selectableRows().forEach(function(row) {
      const visible =
        (!filters.repo || row.dataset.repo === filters.repo) &&
        (!filters.reason || row.dataset.reason === filters.reason) &&
        (!filters.author || row.dataset.author === filters.author);
      row.hidden = !visible;
    });
    window.PullbellSelect(selectedIndex, false);
  };

  window.PullbellRender = function(html) {
    app.innerHTML = html;
    syncFilterControls();
    window.PullbellApplyFilters();
    window.PullbellSetView(currentView);
    window.PullbellSyncGroupByRepository();
    restorePendingSelection();
    if (previewOpen) window.PullbellShowPreview();
  };

  document.addEventListener("change", function(event) {
    const name = event.target.dataset && event.target.dataset.filter;
    if (!name) return;
    filters[name] = event.target.value;
    selectedIndex = 0;
    syncFilterControls();
    window.PullbellApplyFilters();
  });

  document.addEventListener("input", function(event) {
    if (!event.target.matches("[data-repository-search]")) return;
    const query = event.target.value.trim().toLowerCase();
    document.querySelectorAll("[data-repository-setting]").forEach(function(row) {
      row.hidden = query && !row.dataset.repositorySetting.toLowerCase().includes(query);
    });
  });

  document.addEventListener("keydown", function(event) {
    if (event.defaultPrevented || event.metaKey || event.ctrlKey || event.altKey) return;
    if (event.target && /^(SELECT|INPUT|TEXTAREA)$/.test(event.target.tagName)) return;
    const key = event.key.toLowerCase();
    if (key === "escape") {
      event.preventDefault();
      if (currentView === "settings") {
        window.PullbellShowNotifications();
        return;
      }
      if (previewOpen) {
        window.PullbellHidePreview();
        return;
      }
      window.send("hide");
      return;
    }
    if (event.target && event.target.tagName === "BUTTON" && event.target.dataset.rowShortcut !== "true") return;
    if (currentView !== "notifications") return;

    if (key === "j" || event.key === "ArrowDown") {
      event.preventDefault();
      window.PullbellSelect(selectedIndex + 1, true);
    } else if (key === "k" || event.key === "ArrowUp") {
      event.preventDefault();
      window.PullbellSelect(selectedIndex - 1, true);
    } else if (key === "enter" || key === "o") {
      event.preventDefault();
      window.PullbellActivateSelected();
    } else if (key === "c") {
      event.preventDefault();
      window.PullbellCopySelected();
    } else if (event.key === " ") {
      event.preventDefault();
      window.PullbellTogglePreview();
    } else if (key === "d") {
      event.preventDefault();
      window.PullbellActOnSelected("done");
    } else if (key === "u") {
      event.preventDefault();
      window.PullbellActOnSelected("undo");
    } else if (key === "m") {
      event.preventDefault();
      window.PullbellActOnSelected("mute");
    } else if (key === "r") {
      event.preventDefault();
      window.send("refresh");
    } else if (key === "i") {
      event.preventDefault();
      window.send("inbox");
    } else if (key === "q") {
      event.preventDefault();
      window.send("quit");
    }
  });

  syncFilterControls();
  window.PullbellApplyFilters();
  window.PullbellSyncGroupByRepository();
})();
</script>
</body>
</html>"#;

} // verus!

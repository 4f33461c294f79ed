use vstd::prelude::*;
use vstd::string::StringExecFns;
use crate::model::{PrKind, PullRequestItem};
use vstd::utf8::encode_utf8;
use crate::text::{
    after_last, after_last_char, chars_of, decimal, parse_u64, parsed_u64, push_decimal, replace,
    replace_all, str_eq, strip_prefix, string_of_range, trim_bounds, trimmed, without_prefix,
};

verus! {

/// The GitHub REST API version that Pullbell speaks.
pub const API_VERSION: &'static str = "2022-11-28";

/// Search results asked for per page.
pub const SEARCH_PAGE_SIZE: u32 = 50;

/// Notifications asked for per page.
pub const NOTIFICATIONS_PAGE_SIZE: u32 = 100;

/// Teams asked for per page.
pub const TEAMS_PAGE_SIZE: u32 = 100;

/// Search result pages read at most.
pub const MAX_SEARCH_PAGES: u32 = 20;

/// Notification and team pages read at most.
pub const MAX_LIST_PAGES: u32 = 10;

/// Pull request notifications whose preview is loaded, counted from the first.
pub const MAX_NOTIFICATION_PREVIEWS: usize = 12;

/// Characters of a preview text kept at most.
pub const PREVIEW_LENGTH: usize = 1200;

/// The signed-in GitHub user.
#[derive(Debug, Clone)]
pub struct Viewer {
    pub login: String,
}

pub open spec fn repos_api_prefix() -> Seq<char> {
    "https://api.github.com/repos/"@
}

/// `owner/name` from a repository's API URL.
pub fn repo_name_from_repository_url(url: &str) -> (r: String)
    ensures
        r@ == without_prefix(url@, repos_api_prefix()),
{
    match strip_prefix(url, "https://api.github.com/repos/") {
        Some(rest) => rest,
        None => url.to_string(),
    }
}

pub open spec fn pr_id_text(repo: Seq<char>, number: u64) -> Seq<char> {
    repo + "#"@ + decimal(number as nat)
}

/// The id of a pull request: `owner/name#number`.
pub fn pr_id(repo: &str, number: u64) -> (r: String)
    ensures
        r@ == pr_id_text(repo@, number),
{
    let mut r = repo.to_string();
    r.append("#");
    push_decimal(&mut r, number);
    r
}

pub open spec fn thread_url_text(thread_id: Seq<char>) -> Seq<char> {
    "https://api.github.com/notifications/threads/"@ + thread_id
}

/// The API URL of a notification thread.
pub fn notification_thread_url(thread_id: &str) -> (r: String)
    ensures
        r@ == thread_url_text(thread_id@),
{
    let mut r = "https://api.github.com/notifications/threads/".to_string();
    r.append(thread_id);
    r
}

/// The API URL of a notification thread's subscription.
pub fn notification_subscription_url(thread_id: &str) -> (r: String)
    ensures
        r@ == thread_url_text(thread_id@) + "/subscription"@,
{
    let mut r = notification_thread_url(thread_id);
    r.append("/subscription");
    r
}

pub open spec fn search_reason_text(kind: PrKind) -> Seq<char> {
    match kind {
        PrKind::ReviewRequested => "review_requested"@,
        PrKind::Authored => "author"@,
        PrKind::Notification => "notification"@,
    }
}

/// The reason recorded for a pull request found by searching for `kind`.
pub fn search_reason(kind: &PrKind) -> (r: &'static str)
    ensures
        r@ == search_reason_text(*kind),
{
    match kind {
        PrKind::ReviewRequested => "review_requested",
        PrKind::Authored => "author",
        PrKind::Notification => "notification",
    }
}

/// A preview text: the trimmed text cut to `PREVIEW_LENGTH` characters, or
/// nothing when it is blank.
pub open spec fn cleaned_preview(value: Seq<char>) -> Option<Seq<char>> {
    let t = trimmed(value);
    if t.len() == 0 {
        None
    } else if t.len() <= PREVIEW_LENGTH {
        Some(t)
    } else {
        Some(t.take(PREVIEW_LENGTH as int))
    }
}

/// The preview of a body or comment text.
pub fn clean_preview(value: &str) -> (r: Option<String>)
    ensures
        match r {
            Some(s) => cleaned_preview(value@) == Some(s@),
            None => cleaned_preview(value@) is None,
        },
{
    let v = chars_of(value);
    let (i, j) = trim_bounds(&v);
    if i == j {
        return None;
    }
    let end = if j - i > PREVIEW_LENGTH { i + PREVIEW_LENGTH } else { j };
    let r = string_of_range(&v, i, end);
    if j - i > PREVIEW_LENGTH {
        assert(v@.subrange(i as int, j as int).take(PREVIEW_LENGTH as int) == v@.subrange(i as int, end as int));
    }
    Some(r)
}

/// The preview of an optional text.
pub fn clean_optional_preview(value: &Option<String>) -> (r: Option<String>)
    ensures
        opt_view(r) == match value {
            Some(v) => cleaned_preview(v@),
            None => None,
        },
{
    match value {
        Some(v) => clean_preview(v.as_str()),
        None => None,
    }
}

pub open spec fn opt_view(o: Option<String>) -> Option<Seq<char>> {
    match o {
        Some(s) => Some(s@),
        None => None,
    }
}

// ---------------------------------------------------------------------------
// Search queries and request URLs
// ---------------------------------------------------------------------------

pub open spec fn open_pr_filter() -> Seq<char> {
    "is:pr is:open archived:false "@
}

/// The search for open pull requests that ask `login` for a review.
pub fn review_requested_query(login: &str) -> (r: String)
    ensures
        r@ == open_pr_filter() + "review-requested:"@ + login@,
{
    let mut r = "is:pr is:open archived:false ".to_string();
    r.append("review-requested:");
    r.append(login);
    r
}

/// The search for open pull requests that ask the team `org/slug` for a
/// review.
pub fn team_review_requested_query(org: &str, slug: &str) -> (r: String)
    ensures
        r@ == open_pr_filter() + "team-review-requested:"@ + org@ + "/"@ + slug@,
{
    let mut r = "is:pr is:open archived:false ".to_string();
    r.append("team-review-requested:");
    r.append(org);
    r.append("/");
    r.append(slug);
    r
}

/// The search for open pull requests written by `login`.
pub fn authored_query(login: &str) -> (r: String)
    ensures
        r@ == open_pr_filter() + "author:"@ + login@,
{
    let mut r = "is:pr is:open archived:false ".to_string();
    r.append("author:");
    r.append(login);
    r
}

/// The search for review requests of `login`.
pub open spec fn review_query_text(login: Seq<char>) -> Seq<char> {
    open_pr_filter() + "review-requested:"@ + login
}

/// The search for review requests of the team `org/slug`.
pub open spec fn team_query_text(org: Seq<char>, slug: Seq<char>) -> Seq<char> {
    open_pr_filter() + "team-review-requested:"@ + org + "/"@ + slug
}

/// The searches for the pull requests of `login`, a member of `teams`
/// (organization and team slug), in order: its review requests, those of
/// each team, then the pull requests it wrote; each with the kind its
/// results get.
pub open spec fn searches_text(login: Seq<char>, teams: Seq<(Seq<char>, Seq<char>)>) -> Seq<(Seq<char>, PrKind)> {
    seq![(review_query_text(login), PrKind::ReviewRequested)] + team_searches(teams) + seq![
        (open_pr_filter() + "author:"@ + login, PrKind::Authored),
    ]
}

/// The review request searches of `teams`.
pub open spec fn team_searches(teams: Seq<(Seq<char>, Seq<char>)>) -> Seq<(Seq<char>, PrKind)> {
    teams.map_values(|t: (Seq<char>, Seq<char>)| (team_query_text(t.0, t.1), PrKind::ReviewRequested))
}

/// The texts of pairs of strings.
pub open spec fn pair_texts(v: Seq<(String, String)>) -> Seq<(Seq<char>, Seq<char>)> {
    v.map_values(|p: (String, String)| (p.0@, p.1@))
}

/// The texts of searches.
pub open spec fn search_texts(v: Seq<(String, PrKind)>) -> Seq<(Seq<char>, PrKind)> {
    v.map_values(|p: (String, PrKind)| (p.0@, p.1))
}

/// The searches that find the pull requests of `login`, who is in `teams`.
pub fn pull_request_searches(login: &str, teams: &Vec<(String, String)>) -> (r: Vec<(String, PrKind)>)
    ensures
        search_texts(r@) == searches_text(login@, pair_texts(teams@)),
{
    let mut r: Vec<(String, PrKind)> = Vec::new();
    r.push((review_requested_query(login), PrKind::ReviewRequested));
    let ghost ts = pair_texts(teams@);
    let mut i: usize = 0;
    while i < teams.len()
        invariant
            i <= teams@.len(),
            ts == pair_texts(teams@),
            search_texts(r@) == seq![(review_query_text(login@), PrKind::ReviewRequested)] + team_searches(ts.take(i as int)),
        decreases teams@.len() - i,
    {
        let ghost before = search_texts(r@);
        let q = team_review_requested_query(teams[i].0.as_str(), teams[i].1.as_str());
        r.push((q, PrKind::ReviewRequested));
        proof {
            assert(ts[i as int] == (teams@[i as int].0@, teams@[i as int].1@));
            assert(ts.take(i + 1) == ts.take(i as int).push(ts[i as int]));
            assert(team_searches(ts.take(i + 1)) =~= team_searches(ts.take(i as int)).push(
                (team_query_text(ts[i as int].0, ts[i as int].1), PrKind::ReviewRequested),
            ));
            assert(search_texts(r@) =~= before.push((q@, PrKind::ReviewRequested)));
            assert(search_texts(r@) =~= seq![(review_query_text(login@), PrKind::ReviewRequested)]
                + team_searches(ts.take(i + 1)));
        }
        i = i + 1;
    }
    assert(ts.take(ts.len() as int) == ts);
    r.push((authored_query(login), PrKind::Authored));
    assert(search_texts(r@) =~= searches_text(login@, ts));
    r
}

/// Bytes that percent-encoding leaves as they are: ASCII letters and digits,
/// `-`, `.`, `_` and `~`.
pub open spec fn is_unreserved(b: u8) -> bool {
    (48 <= b <= 57) || (65 <= b <= 90) || (97 <= b <= 122) || b == 45 || b == 46 || b == 95 || b
        == 126
}

/// The uppercase hexadecimal digit for `d` (`d < 16`).
pub open spec fn hex_digit(d: u8) -> char {
    if d < 10 {
        (48 + d) as char
    } else {
        (55 + d) as char
    }
}

/// `bytes` percent-encoded: each byte that is not unreserved becomes `%`
/// and two uppercase hexadecimal digits.
pub open spec fn percent_encoded(bytes: Seq<u8>) -> Seq<char>
    decreases bytes.len(),
{
    if bytes.len() == 0 {
        seq![]
    } else {
        let b = bytes.last();
        percent_encoded(bytes.drop_last()) + if is_unreserved(b) {
            seq![b as char]
        } else {
            seq!['%', hex_digit(b / 16), hex_digit(b % 16)]
        }
    }
}

/// Percent-encodes the UTF-8 bytes of `text` (`urlencoding::encode`): every
/// byte but the ASCII letters, digits and `-`, `.`, `_`, `~` becomes `%` and
/// two uppercase hexadecimal digits.
#[verifier::external_body]
fn url_encode(text: &str) -> (r: String)
    ensures
        r@ == percent_encoded(encode_utf8(text@)),
{
    urlencoding::encode(text).into_owned()
}

pub open spec fn search_url_text(query: Seq<char>, page: u32) -> Seq<char> {
    "https://api.github.com/search/issues?q="@ + percent_encoded(encode_utf8(query))
        + "&sort=updated&order=desc&per_page="@ + decimal(SEARCH_PAGE_SIZE as nat) + "&page="@
        + decimal(page as nat)
}

/// The URL of page `page` of the pull request search `query`, most recently
/// updated first.
pub fn search_url(query: &str, page: u32) -> (r: String)
    ensures
        r@ == search_url_text(query@, page),
{
    let mut r = "https://api.github.com/search/issues?q=".to_string();
    let encoded = url_encode(query);
    r.append(encoded.as_str());
    r.append("&sort=updated&order=desc&per_page=");
    push_decimal(&mut r, SEARCH_PAGE_SIZE as u64);
    r.append("&page=");
    push_decimal(&mut r, page as u64);
    r
}

/// The URL of page `page` of the viewer's notifications.
pub fn notifications_url(page: u32) -> (r: String)
    ensures
        r@ == "https://api.github.com/notifications?per_page="@ + decimal(
            NOTIFICATIONS_PAGE_SIZE as nat,
        ) + "&page="@ + decimal(page as nat),
{
    let mut r = "https://api.github.com/notifications?per_page=".to_string();
    push_decimal(&mut r, NOTIFICATIONS_PAGE_SIZE as u64);
    r.append("&page=");
    push_decimal(&mut r, page as u64);
    r
}

/// The URL of page `page` of the viewer's teams.
pub fn teams_url(page: u32) -> (r: String)
    ensures
        r@ == "https://api.github.com/user/teams?per_page="@ + decimal(TEAMS_PAGE_SIZE as nat)
            + "&page="@ + decimal(page as nat),
{
    let mut r = "https://api.github.com/user/teams?per_page=".to_string();
    push_decimal(&mut r, TEAMS_PAGE_SIZE as u64);
    r.append("&page=");
    push_decimal(&mut r, page as u64);
    r
}

/// The page to read after page `page`, which held `count` entries of at most
/// `page_size`: none once a page comes back short or `max_pages` were read.
pub fn next_page(page: u32, count: usize, page_size: u32, max_pages: u32) -> (r: Option<u32>)
    ensures
        r == if count < page_size || page >= max_pages {
            None::<u32>
        } else {
            Some((page + 1) as u32)
        },
{
    if count < page_size as usize || page >= max_pages {
        None
    } else {
        Some(page + 1)
    }
}

// ---------------------------------------------------------------------------
// Pull requests from search results
// ---------------------------------------------------------------------------

/// A pull request as the GitHub search API returns it.
#[derive(Debug, Clone)]
pub struct SearchIssue {
    pub number: u64,
    pub title: String,
    pub html_url: String,
    pub repository_url: String,
    /// When it was last updated: seconds since the Unix epoch and
    /// nanoseconds past them.
    pub updated_at: Option<(i64, u32)>,
    pub body: Option<String>,
    pub user_login: Option<String>,
}

/// The list item for a search result found by searching for `kind`.
pub open spec fn search_item(issue: SearchIssue, kind: PrKind, item: PullRequestItem) -> bool {
    let repo = without_prefix(issue.repository_url@, repos_api_prefix());
    &&& item.id@ == pr_id_text(repo, issue.number)
    &&& item.repo@ == repo
    &&& item.title == issue.title
    &&& item.url == issue.html_url
    &&& item.number == issue.number
    &&& item.updated_at == issue.updated_at
    &&& item.kind == kind
    &&& item.notification_thread_id is None
    &&& item.author == issue.user_login
    &&& opt_view(item.reason) == Some(search_reason_text(kind))
    &&& opt_view(item.preview) == match issue.body {
        Some(b) => cleaned_preview(b@),
        None => None,
    }
    &&& !item.locally_done
}

/// The list item for a search result found by searching for `kind`.
pub fn search_issue_item(issue: SearchIssue, kind: PrKind) -> (r: PullRequestItem)
    ensures
        search_item(issue, kind, r),
{
    let repo = repo_name_from_repository_url(issue.repository_url.as_str());
    let id = pr_id(repo.as_str(), issue.number);
    let preview = clean_optional_preview(&issue.body);
    let updated_at = issue.updated_at;
    PullRequestItem {
        id,
        repo,
        title: issue.title,
        url: issue.html_url,
        number: issue.number,
        updated_at,
        kind,
        notification_thread_id: None,
        author: issue.user_login,
        reason: Some(search_reason(&kind).to_string()),
        preview,
        locally_done: false,
    }
}

// ---------------------------------------------------------------------------
// Pull requests from notifications
// ---------------------------------------------------------------------------

/// A notification thread as the GitHub notifications API returns it.
#[derive(Debug, Clone)]
pub struct NotificationRecord {
    pub id: String,
    pub reason: Option<String>,
    pub repository_full_name: String,
    pub subject_title: String,
    pub subject_url: Option<String>,
    pub latest_comment_url: Option<String>,
    pub subject_type: String,
    /// When it was last updated: seconds since the Unix epoch and
    /// nanoseconds past them.
    pub updated_at: Option<(i64, u32)>,
}

/// A pull request notification to list.
#[derive(Debug, Clone, Copy, PartialEq, Eq)]
pub struct PlannedNotification {
    /// Where the notification is among the notifications.
    pub record_index: usize,
    /// The pull request's number, from the end of its API URL.
    pub number: u64,
    /// Whether to load its preview.
    pub fetch_preview: bool,
}

pub open spec fn is_pull_request(r: NotificationRecord) -> bool {
    r.subject_type@ == "PullRequest"@
}

/// How many of `records` are about pull requests.
pub open spec fn pull_request_count(records: Seq<NotificationRecord>) -> nat
    decreases records.len(),
{
    if records.len() == 0 {
        0
    } else {
        pull_request_count(records.drop_last()) + if is_pull_request(records.last()) {
            1nat
        } else {
            0nat
        }
    }
}

/// The pull request number at the end of a pull request API URL.
pub open spec fn api_url_number(url: Seq<char>) -> Option<u64> {
    parsed_u64(after_last(url, '/'))
}

/// The pull request notifications of `records` to list, in order: those with
/// an API URL that ends in a number. The first `MAX_NOTIFICATION_PREVIEWS`
/// pull request notifications, whether listed or not, get a preview.
pub open spec fn notification_plan(records: Seq<NotificationRecord>) -> Seq<PlannedNotification>
    decreases records.len(),
{
    if records.len() == 0 {
        seq![]
    } else {
        let prev = notification_plan(records.drop_last());
        let r = records.last();
        if is_pull_request(r) && r.subject_url is Some && api_url_number(
            r.subject_url.unwrap()@,
        ) is Some {
            prev.push(
                PlannedNotification {
                    record_index: (records.len() - 1) as usize,
                    number: api_url_number(r.subject_url.unwrap()@).unwrap(),
                    fetch_preview: pull_request_count(records.drop_last()) < MAX_NOTIFICATION_PREVIEWS,
                },
            )
        } else {
            prev
        }
    }
}

/// The pull request notifications of `records` to list.
pub fn plan_notifications(records: &Vec<NotificationRecord>) -> (r: Vec<PlannedNotification>)
    ensures
        r@ == notification_plan(records@),
{
    let mut r: Vec<PlannedNotification> = Vec::new();
    let mut pr_index: usize = 0;
    let mut i: usize = 0;
    while i < records.len()
        invariant
            i <= records@.len(),
            pr_index == pull_request_count(records@.take(i as int)),
            pr_index <= i,
            r@ == notification_plan(records@.take(i as int)),
        decreases records@.len() - i,
    {
        let ghost t = records@.take(i + 1);
        assert(t.drop_last() == records@.take(i as int));
        assert(t.last() == records@[i as int]);
        let record = &records[i];
        if str_eq(record.subject_type.as_str(), "PullRequest") {
            if let Some(url) = &record.subject_url {
                let last = after_last_char(url.as_str(), '/');
                if let Some(number) = parse_u64(last.as_str()) {
                    r.push(
                        PlannedNotification {
                            record_index: i,
                            number,
                            fetch_preview: pr_index < MAX_NOTIFICATION_PREVIEWS,
                        },
                    );
                }
            }
            pr_index = pr_index + 1;
        }
        i = i + 1;
    }
    assert(records@.take(records@.len() as int) == records@);
    r
}

/// What a pull request preview adds to a notification.
#[derive(Debug, Clone, Default)]
pub struct PreviewDetails {
    pub html_url: Option<String>,
    pub author: Option<String>,
    pub preview: Option<String>,
}

/// The latest comment on a pull request.
#[derive(Debug, Clone)]
pub struct PreviewComment {
    pub body: Option<String>,
    pub author: Option<String>,
}

/// The preview of a pull request: its latest comment when that has text,
/// by the comment's author (or the pull request's when unknown), else the
/// pull request's own body by its author.
pub open spec fn chosen_preview(
    html_url: Option<String>,
    author: Option<String>,
    body: Option<String>,
    comment: Option<PreviewComment>,
    r: PreviewDetails,
) -> bool {
    let comment_preview = match comment {
        Some(c) => match c.body {
            Some(b) => cleaned_preview(b@),
            None => None,
        },
        None => None,
    };
    &&& r.html_url == html_url
    &&& match comment_preview {
        Some(p) => opt_view(r.preview) == Some(p) && r.author == match comment.unwrap().author {
            Some(a) => Some(a),
            None => author,
        },
        None => r.author == author && opt_view(r.preview) == match body {
            Some(b) => cleaned_preview(b@),
            None => None,
        },
    }
}

/// When the latest comment has text, the preview is that text, cleaned, and
/// it is credited to the comment's author when the comment has one, else to
/// the pull request's author; the page address is the pull request's.
pub proof fn previews_credit_the_comment_author(
    html_url: Option<String>,
    author: Option<String>,
    body: Option<String>,
    comment_body: String,
    comment_author: Option<String>,
    r: PreviewDetails,
)
    requires
        chosen_preview(html_url, author, body, Some(PreviewComment { body: Some(comment_body), author: comment_author }), r),
        cleaned_preview(comment_body@) is Some,
    ensures
        r.html_url == html_url,
        opt_view(r.preview) == cleaned_preview(comment_body@),
        comment_author is Some ==> r.author == comment_author,
        comment_author is None ==> r.author == author,
{
}

/// When there is no comment, or it has no text, the preview is the pull
/// request's body, cleaned, by the pull request's author.
pub proof fn previews_without_comment_text_use_the_body(
    html_url: Option<String>,
    author: Option<String>,
    body: Option<String>,
    comment: Option<PreviewComment>,
    r: PreviewDetails,
)
    requires
        chosen_preview(html_url, author, body, comment, r),
        comment is None || comment.unwrap().body is None || cleaned_preview(comment.unwrap().body.unwrap()@) is None,
    ensures
        r.html_url == html_url,
        r.author == author,
        body is None ==> r.preview is None,
        body is Some ==> opt_view(r.preview) == cleaned_preview(body.unwrap()@),
{
}

/// Chooses the preview of a pull request from its page and latest comment.
pub fn preview_details(
    html_url: Option<String>,
    author: Option<String>,
    body: Option<String>,
    comment: Option<PreviewComment>,
) -> (r: PreviewDetails)
    ensures
        chosen_preview(html_url, author, body, comment, r),
{
    if let Some(c) = comment {
        if let Some(b) = &c.body {
            if let Some(p) = clean_preview(b.as_str()) {
                let a = match c.author {
                    Some(a) => Some(a),
                    None => author,
                };
                return PreviewDetails { html_url, author: a, preview: Some(p) };
            }
        }
    }
    let preview = clean_optional_preview(&body);
    PreviewDetails { html_url, author, preview }
}

/// The web page of a pull request, from its API URL.
pub open spec fn web_url_of(api_url: Seq<char>) -> Seq<char> {
    replace_all(replace_all(api_url, repos_api_prefix(), "https://github.com/"@), "/pulls/"@, "/pull/"@)
}

/// The web page of a pull request, from its API URL.
pub fn pull_request_web_url(api_url: &str) -> (r: String)
    ensures
        r@ == web_url_of(api_url@),
{
    proof {
        reveal_strlit("https://api.github.com/repos/");
        reveal_strlit("/pulls/");
    }
    let a = replace(api_url, "https://api.github.com/repos/", "https://github.com/");
    replace(a.as_str(), "/pulls/", "/pull/")
}

/// The list item for a pull request notification with number `number`,
/// completed by its preview details.
pub open spec fn notification_item_of(record: NotificationRecord, number: u64, details: PreviewDetails, item: PullRequestItem) -> bool {
    &&& item.id@ == pr_id_text(record.repository_full_name@, number)
    &&& item.repo == record.repository_full_name
    &&& item.title == record.subject_title
    &&& item.url@ == match details.html_url {
        Some(u) => u@,
        None => web_url_of(record.subject_url.unwrap()@),
    }
    &&& item.number == number
    &&& item.updated_at == record.updated_at
    &&& item.kind == PrKind::Notification
    &&& item.notification_thread_id == Some(record.id)
    &&& item.author == details.author
    &&& item.reason == record.reason
    &&& item.preview == details.preview
    &&& !item.locally_done
}

/// The list item for a pull request notification.
pub fn notification_item(record: NotificationRecord, number: u64, details: PreviewDetails) -> (r: PullRequestItem)
    requires
        record.subject_url is Some,
    ensures
        notification_item_of(record, number, details, r),
{
    let url = match details.html_url {
        Some(u) => u,
        None => match &record.subject_url {
            Some(api_url) => pull_request_web_url(api_url.as_str()),
            None => String::new(),
        },
    };
    let id = pr_id(record.repository_full_name.as_str(), number);
    let updated_at = record.updated_at;
    PullRequestItem {
        id,
        repo: record.repository_full_name,
        title: record.subject_title,
        url,
        number,
        updated_at,
        kind: PrKind::Notification,
        notification_thread_id: Some(record.id),
        author: details.author,
        reason: record.reason,
        preview: details.preview,
        locally_done: false,
    }
}

} // verus!

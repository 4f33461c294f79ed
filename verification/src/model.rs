use vstd::prelude::*;
use crate::text::{
    decimal, insert_sorted, push_decimal, sorted_texts, str_eq, str_less, strictly_sorted,
    strictly_sorted_is_sorted_texts, text_less, text_less_is_strict_total, text_less_transitive, texts,
};
use vstd::string::StringExecFns;

verus! {

/// Why a pull request is listed.
#[derive(Debug, Clone, Copy, PartialEq, Eq, Structural)]
pub enum PrKind {
    ReviewRequested,
    Authored,
    Notification,
}

impl PrKind {
    /// How actionable the kind is: a lower rank comes first.
    pub open spec fn rank(self) -> nat {
        match self {
            PrKind::ReviewRequested => 0,
            PrKind::Notification => 1,
            PrKind::Authored => 2,
        }
    }

    /// Review requests and unread notifications need action.
    pub open spec fn needs_action(self) -> bool {
        self is ReviewRequested || self is Notification
    }

    pub open spec fn label_text(self) -> Seq<char> {
        match self {
            PrKind::ReviewRequested => "Needs your review"@,
            PrKind::Authored => "Your open PRs"@,
            PrKind::Notification => "Unread PR notifications"@,
        }
    }

    /// The section heading for this kind.
    pub fn label(&self) -> (r: &'static str)
        ensures
            r@ == self.label_text(),
    {
        match self {
            PrKind::ReviewRequested => "Needs your review",
            PrKind::Authored => "Your open PRs",
            PrKind::Notification => "Unread PR notifications",
        }
    }

    /// Whether pull requests of this kind need the viewer's action.
    pub fn is_todo(&self) -> (r: bool)
        ensures
            r == self.needs_action(),
    {
        match self {
            PrKind::ReviewRequested | PrKind::Notification => true,
            PrKind::Authored => false,
        }
    }

    pub fn priority(&self) -> (r: u8)
        ensures
            r as nat == self.rank(),
    {
        match self {
            PrKind::ReviewRequested => 0,
            PrKind::Notification => 1,
            PrKind::Authored => 2,
        }
    }
}

/// A pull request as the lists show it. A time is the whole seconds since
/// the Unix epoch and the nanoseconds past them, ordered by seconds, then
/// nanoseconds.
#[derive(Debug, Clone, PartialEq, Eq)]
pub struct PullRequestItem {
    pub id: String,
    pub repo: String,
    pub title: String,
    pub url: String,
    pub number: u64,
    pub updated_at: Option<(i64, u32)>,
    pub kind: PrKind,
    pub notification_thread_id: Option<String>,
    pub author: Option<String>,
    pub reason: Option<String>,
    pub preview: Option<String>,
    pub locally_done: bool,
}

/// A copy of an optional string.
pub fn clone_opt(o: &Option<String>) -> (r: Option<String>)
    ensures
        r == *o,
{
    match o {
        Some(s) => Some(s.clone()),
        None => None,
    }
}

/// The text of an optional string, if any.
pub open spec fn opt_text(o: Option<String>) -> Option<Seq<char>> {
    match o {
        Some(s) => Some(s@),
        None => None,
    }
}

impl PullRequestItem {
    /// Whether the item still needs the viewer's action: a review request or
    /// an unread notification that was not marked done here.
    pub open spec fn needs_action(self) -> bool {
        self.kind.needs_action() && !self.locally_done
    }

    pub open spec fn display_title_text(self) -> Seq<char> {
        self.repo@ + " #"@ + decimal(self.number as nat) + ": "@ + self.title@
    }

    /// `repo #number: title`.
    pub fn display_title(&self) -> (r: String)
        ensures
            r@ == self.display_title_text(),
    {
        let mut r = self.repo.clone();
        r.append(" #");
        push_decimal(&mut r, self.number);
        r.append(": ");
        r.append(self.title.as_str());
        r
    }

    /// Whether the item still needs the viewer's action.
    pub fn is_todo(&self) -> (r: bool)
        ensures
            r == self.needs_action(),
    {
        self.kind.is_todo() && !self.locally_done
    }

    /// A copy of the item.
    pub fn duplicate(&self) -> (r: Self)
        ensures
            r == *self,
    {
        PullRequestItem {
            id: self.id.clone(),
            repo: self.repo.clone(),
            title: self.title.clone(),
            url: self.url.clone(),
            number: self.number,
            updated_at: self.updated_at,
            kind: self.kind,
            notification_thread_id: clone_opt(&self.notification_thread_id),
            author: clone_opt(&self.author),
            reason: clone_opt(&self.reason),
            preview: clone_opt(&self.preview),
            locally_done: self.locally_done,
        }
    }
}

/// A newer release than the running one.
#[derive(Debug, Clone, PartialEq, Eq)]
pub struct AvailableUpdate {
    pub latest_version: String,
    pub release_url: String,
    pub download_url: Option<String>,
    pub download_name: Option<String>,
    pub checksum_url: Option<String>,
}

impl AvailableUpdate {
    /// A copy of the update.
    pub fn duplicate(&self) -> (r: Self)
        ensures
            r == *self,
    {
        AvailableUpdate {
            latest_version: self.latest_version.clone(),
            release_url: self.release_url.clone(),
            download_url: clone_opt(&self.download_url),
            download_name: clone_opt(&self.download_name),
            checksum_url: clone_opt(&self.checksum_url),
        }
    }
}

/// A pull request that was marked done in Pullbell.
#[derive(Debug, Clone, PartialEq, Eq)]
pub struct LocalDonePr {
    pub updated_at: Option<(i64, u32)>,
    pub item: Option<PullRequestItem>,
}

impl LocalDonePr {
    /// A copy of the entry.
    pub fn duplicate(&self) -> (r: Self)
        ensures
            r == *self,
    {
        LocalDonePr {
            updated_at: self.updated_at,
            item: match &self.item {
                Some(i) => Some(i.duplicate()),
                None => None,
            },
        }
    }
}

/// The ids of a list of done entries.
pub open spec fn done_keys(entries: Seq<(String, LocalDonePr)>) -> Seq<Seq<char>> {
    entries.map_values(|e: (String, LocalDonePr)| e.0@)
}

/// The map that a list of done entries describes; a later entry for an id
/// replaces an earlier one.
pub open spec fn done_map(entries: Seq<(String, LocalDonePr)>) -> Map<Seq<char>, LocalDonePr>
    decreases entries.len(),
{
    if entries.len() == 0 {
        Map::empty()
    } else {
        done_map(entries.drop_last()).insert(entries.last().0@, entries.last().1)
    }
}

/// In a list of done entries with distinct ids, the map holds exactly the
/// ids of the list, each with its entry.
proof fn done_map_of_distinct(entries: Seq<(String, LocalDonePr)>)
    requires
        strictly_sorted(done_keys(entries)),
    ensures
        forall|k: Seq<char>| #[trigger] done_map(entries).contains_key(k) <==> done_keys(entries).contains(k),
        forall|i: int| 0 <= i < entries.len() ==> done_map(entries)[#[trigger] entries[i].0@] == entries[i].1,
    decreases entries.len(),
{
    if entries.len() > 0 {
        let init = entries.drop_last();
        assert(done_keys(init) =~= done_keys(entries).drop_last());
        assert forall|i: int, j: int| 0 <= i < j < done_keys(init).len() implies text_less(#[trigger] done_keys(init)[i], #[trigger] done_keys(init)[j]) by {
            assert(done_keys(init)[i] == done_keys(entries)[i]);
            assert(done_keys(init)[j] == done_keys(entries)[j]);
        }
        done_map_of_distinct(init);
        let last = entries.len() - 1;
        let ke = done_keys(entries);
        let ki = done_keys(init);
        assert(ke =~= ki.push(entries.last().0@));
        assert(done_map(entries) == done_map(init).insert(entries.last().0@, entries.last().1));
        assert forall|k: Seq<char>| #[trigger] done_map(entries).contains_key(k) <==> ke.contains(k) by {
            assert(done_map(init).contains_key(k) <==> ki.contains(k));
            if ke.contains(k) {
                let i = choose|i: int| 0 <= i < ke.len() && ke[i] == k;
                if i < last {
                    assert(ki[i] == k);
                    assert(ki.contains(k));
                } else {
                    assert(k == entries.last().0@);
                }
            }
            if ki.contains(k) {
                let i = choose|i: int| 0 <= i < ki.len() && ki[i] == k;
                assert(ke[i] == k);
            }
            if k == entries.last().0@ {
                assert(ke[last] == k);
            }
        }
        assert forall|i: int| 0 <= i < entries.len() implies done_map(entries)[#[trigger] entries[i].0@] == entries[i].1 by {
            if i < last {
                assert(init[i] == entries[i]);
                assert(done_keys(entries)[i] == entries[i].0@);
                assert(done_keys(entries)[last] == entries[last].0@);
                assert(text_less(done_keys(entries)[i], done_keys(entries)[last]));
                text_less_is_strict_total(entries[i].0@, entries[i].0@);
            }
        }
    }
}

/// Pull requests marked done in Pullbell, keyed by pull request id: each id
/// once, in ascending order.
#[derive(Debug)]
pub struct LocalDonePrs {
    entries: Vec<(String, LocalDonePr)>,
}

impl View for LocalDonePrs {
    type V = Map<Seq<char>, LocalDonePr>;

    closed spec fn view(&self) -> Map<Seq<char>, LocalDonePr> {
        done_map(self.entries@)
    }
}

impl LocalDonePrs {
    #[verifier::type_invariant]
    spec fn ids_are_sorted(self) -> bool {
        strictly_sorted(done_keys(self.entries@))
    }

    /// No pull request marked done.
    pub fn new() -> (r: Self)
        ensures
            r@ == Map::<Seq<char>, LocalDonePr>::empty(),
    {
        let entries: Vec<(String, LocalDonePr)> = Vec::new();
        assert(done_keys(entries@) =~= Seq::<Seq<char>>::empty());
        LocalDonePrs { entries }
    }

    /// Marks `id` done with `pr`, replacing what was kept for it.
    pub fn insert(&mut self, id: String, pr: LocalDonePr)
        ensures
            final(self)@ == old(self)@.insert(id@, pr),
    {
        proof {
            use_type_invariant(&*self);
        }
        let ghost old_e = self.entries@;
        let ghost old_k = done_keys(old_e);
        let mut p: usize = 0;
        while p < self.entries.len() && str_less(self.entries[p].0.as_str(), id.as_str())
            invariant
                p <= self.entries@.len(),
                self.entries@ == old_e,
                old_k == done_keys(old_e),
                forall|t: int| 0 <= t < p ==> text_less(#[trigger] old_k[t], id@),
            decreases self.entries@.len() - p,
        {
            assert(old_k[p as int] == self.entries@[p as int].0@);
            p = p + 1;
        }
        let replace = p < self.entries.len() && str_eq(self.entries[p].0.as_str(), id.as_str());
        let mut entries: Vec<(String, LocalDonePr)> = Vec::new();
        assert(done_keys(entries@) =~= Seq::<Seq<char>>::empty());
        std::mem::swap(&mut entries, &mut self.entries);
        proof {
            if p < old_e.len() {
                assert(old_k[p as int] == old_e[p as int].0@);
            }
        }
        if replace {
            entries.set(p, (id, pr));
        } else {
            entries.insert(p, (id, pr));
        }
        proof {
            let nk = done_keys(entries@);
            if replace {
                assert(nk =~= old_k.update(p as int, id@));
                assert forall|i: int, j: int| 0 <= i < j < nk.len() implies text_less(#[trigger] nk[i], #[trigger] nk[j]) by {
                    if i == p {
                        assert(old_k[i] == id@);
                    }
                    if j == p {
                        assert(old_k[j] == id@);
                    }
                }
            } else {
                assert(nk =~= old_k.insert(p as int, id@));
                if p < old_k.len() {
                    text_less_is_strict_total(old_k[p as int], id@);
                }
                assert forall|i: int, j: int| 0 <= i < j < nk.len() implies text_less(#[trigger] nk[i], #[trigger] nk[j]) by {
                    if j < p {
                        assert(nk[i] == old_k[i] && nk[j] == old_k[j]);
                    } else if j == p {
                        assert(nk[i] == old_k[i]);
                    } else if i < p {
                        assert(nk[i] == old_k[i] && nk[j] == old_k[j - 1]);
                        if j - 1 > p {
                            assert(text_less(old_k[p as int], old_k[j - 1]));
                            text_less_transitive(id@, old_k[p as int], old_k[j - 1]);
                        }
                        text_less_transitive(old_k[i], id@, old_k[j - 1]);
                    } else if i == p {
                        assert(nk[j] == old_k[j - 1]);
                        if j - 1 > p {
                            assert(text_less(old_k[p as int], old_k[j - 1]));
                            text_less_transitive(id@, old_k[p as int], old_k[j - 1]);
                        }
                    } else {
                        assert(nk[i] == old_k[i - 1] && nk[j] == old_k[j - 1]);
                    }
                }
            }
            done_map_of_distinct(old_e);
            done_map_of_distinct(entries@);
            let m_old = done_map(old_e);
            let m_new = done_map(entries@);
            assert forall|k: Seq<char>| #[trigger] m_new.contains_key(k) <==> m_old.insert(id@, pr).contains_key(k) by {
                if nk.contains(k) {
                    let i = choose|i: int| 0 <= i < nk.len() && nk[i] == k;
                    if replace {
                        if i != p {
                            assert(old_k[i] == k);
                        }
                    } else if i < p {
                        assert(old_k[i] == k);
                    } else if i > p {
                        assert(old_k[i - 1] == k);
                    }
                }
                if old_k.contains(k) {
                    let i = choose|i: int| 0 <= i < old_k.len() && old_k[i] == k;
                    if replace || i < p {
                        assert(nk[i] == k || i == p);
                    } else {
                        assert(nk[i + 1] == k);
                    }
                }
                assert(nk[p as int] == id@);
            }
            assert forall|k: Seq<char>| #[trigger] m_new.contains_key(k) implies m_new[k] == m_old.insert(id@, pr)[k] by {
                let i = choose|i: int| 0 <= i < nk.len() && nk[i] == k;
                assert(nk[i] == entries@[i].0@);
                if i == p {
                    assert(entries@[i] == (id, pr));
                } else {
                    let j = if replace || i < p { i } else { i - 1 };
                    assert(entries@[i] == old_e[j]);
                    assert(old_k[j] == k);
                    assert(old_e[j].0@ == k);
                    assert(k != id@) by {
                        if replace {
                            assert(text_less(nk[i], nk[p as int]) || text_less(nk[p as int], nk[i]));
                            text_less_is_strict_total(k, k);
                        } else {
                            assert(text_less(nk[i], nk[p as int]) || text_less(nk[p as int], nk[i]));
                            text_less_is_strict_total(k, k);
                        }
                    }
                }
            }
            assert(m_new =~= m_old.insert(id@, pr));
        }
        self.entries = entries;
    }

    /// The entries in ascending order of id, each id once.
    pub fn entries(&self) -> (r: &Vec<(String, LocalDonePr)>)
        ensures
            strictly_sorted(done_keys(r@)),
            done_map(r@) == self@,
            forall|k: Seq<char>| #[trigger] self@.contains_key(k) <==> done_keys(r@).contains(k),
            forall|i: int| 0 <= i < r@.len() ==> self@[#[trigger] r@[i].0@] == r@[i].1,
    {
        proof {
            use_type_invariant(self);
            done_map_of_distinct(self.entries@);
        }
        &self.entries
    }
}

impl Clone for LocalDonePrs {
    fn clone(&self) -> (r: Self)
        ensures
            r@ == self@,
    {
        proof {
            use_type_invariant(self);
        }
        let mut entries: Vec<(String, LocalDonePr)> = Vec::new();
        let mut i: usize = 0;
        while i < self.entries.len()
            invariant
                i <= self.entries@.len(),
                entries@ == self.entries@.take(i as int),
            decreases self.entries@.len() - i,
        {
            entries.push((self.entries[i].0.clone(), self.entries[i].1.duplicate()));
            assert(self.entries@.take(i + 1) == self.entries@.take(i as int).push(self.entries@[i as int]));
            i = i + 1;
        }
        assert(self.entries@.take(self.entries@.len() as int) == self.entries@);
        LocalDonePrs { entries }
    }
}

impl Default for LocalDonePrs {
    fn default() -> (r: Self)
        ensures
            r@ == Map::<Seq<char>, LocalDonePr>::empty(),
    {
        LocalDonePrs::new()
    }
}

/// Repository settings: the repositories muted in Pullbell and those seen so
/// far, each a set of `owner/name` texts kept in ascending order.
#[derive(Debug)]
pub struct AppSettings {
    muted_repositories: Vec<String>,
    known_repositories: Vec<String>,
}

/// The set of texts of `v`, built by inserting each into a sorted list.
fn sorted_set_of(v: Vec<String>) -> (r: Vec<String>)
    ensures
        strictly_sorted(texts(r@)),
        texts(r@).to_set() == texts(v@).to_set(),
{
    let ghost all = v@;
    let mut rest = v;
    let mut r: Vec<String> = Vec::new();
    let mut n: usize = 0;
    let total = rest.len();
    while rest.len() > 0
        invariant
            all.len() == total,
            n + rest@.len() == all.len(),
            rest@ == all.skip(n as int),
            strictly_sorted(texts(r@)),
            texts(r@).to_set() == texts(all.take(n as int)).to_set(),
        decreases rest@.len(),
    {
        let x = rest.remove(0);
        assert(all.skip(n as int).drop_first() == all.skip(n + 1));
        assert(texts(all.take(n + 1)) == texts(all.take(n as int)).push(x@));
        insert_sorted(&mut r, x);
        assert(texts(all.take(n as int)).push(x@).to_set() =~= texts(all.take(n as int)).to_set().insert(x@)) by {
            let t = texts(all.take(n as int));
            assert forall|y: Seq<char>| #[trigger] t.push(x@).contains(y) <==> t.to_set().insert(x@).contains(y) by {
                if t.push(x@).contains(y) {
                    let k = choose|k: int| 0 <= k < t.push(x@).len() && t.push(x@)[k] == y;
                    if k < t.len() {
                        assert(t[k] == y);
                        assert(t.contains(y));
                    }
                }
                if t.contains(y) {
                    let k = choose|k: int| 0 <= k < t.len() && t[k] == y;
                    assert(t.push(x@)[k] == y);
                }
                if y == x@ {
                    assert(t.push(x@)[t.len() as int] == y);
                }
            }
        }
        n = n + 1;
    }
    assert(all.take(n as int) == all);
    r
}

impl AppSettings {
    #[verifier::type_invariant]
    spec fn sets_are_sorted(self) -> bool {
        strictly_sorted(texts(self.muted_repositories@)) && strictly_sorted(texts(self.known_repositories@))
    }

    /// The repositories muted in Pullbell.
    pub closed spec fn muted(self) -> Set<Seq<char>> {
        texts(self.muted_repositories@).to_set()
    }

    /// The repositories seen so far.
    pub closed spec fn known(self) -> Set<Seq<char>> {
        texts(self.known_repositories@).to_set()
    }

    /// Settings with the given muted and known repositories; duplicates
    /// count once.
    pub fn new(muted_repositories: Vec<String>, known_repositories: Vec<String>) -> (r: Self)
        ensures
            r.muted() == texts(muted_repositories@).to_set(),
            r.known() == texts(known_repositories@).to_set(),
    {
        AppSettings {
            muted_repositories: sorted_set_of(muted_repositories),
            known_repositories: sorted_set_of(known_repositories),
        }
    }

    /// Settings with no repositories.
    pub fn empty() -> (r: Self)
        ensures
            r.muted() == Set::<Seq<char>>::empty(),
            r.known() == Set::<Seq<char>>::empty(),
    {
        let m: Vec<String> = Vec::new();
        let k: Vec<String> = Vec::new();
        assert(texts(m@) =~= Seq::<Seq<char>>::empty());
        assert(texts(k@) =~= Seq::<Seq<char>>::empty());
        let r = AppSettings { muted_repositories: m, known_repositories: k };
        assert(texts(r.muted_repositories@).to_set() =~= Set::<Seq<char>>::empty());
        assert(texts(r.known_repositories@).to_set() =~= Set::<Seq<char>>::empty());
        r
    }

    /// The muted repositories in ascending order.
    pub fn muted_repositories(&self) -> (r: &Vec<String>)
        ensures
            texts(r@) == sorted_texts(self.muted()),
            strictly_sorted(texts(r@)),
            texts(r@).to_set() == self.muted(),
    {
        proof {
            use_type_invariant(self);
            strictly_sorted_is_sorted_texts(texts(self.muted_repositories@));
        }
        &self.muted_repositories
    }

    /// The known repositories in ascending order.
    pub fn known_repositories(&self) -> (r: &Vec<String>)
        ensures
            texts(r@) == sorted_texts(self.known()),
            strictly_sorted(texts(r@)),
            texts(r@).to_set() == self.known(),
    {
        proof {
            use_type_invariant(self);
            strictly_sorted_is_sorted_texts(texts(self.known_repositories@));
        }
        &self.known_repositories
    }
}

/// A copy of a list of strings.
pub fn copy_strings(v: &Vec<String>) -> (r: Vec<String>)
    ensures
        r@ == v@,
{
    let mut r: Vec<String> = Vec::new();
    let mut i: usize = 0;
    while i < v.len()
        invariant
            i <= v@.len(),
            r@ == v@.take(i as int),
        decreases v@.len() - i,
    {
        r.push(v[i].clone());
        assert(v@.take(i + 1) == v@.take(i as int).push(v@[i as int]));
        i = i + 1;
    }
    assert(v@.take(v@.len() as int) == v@);
    r
}

impl Clone for AppSettings {
    fn clone(&self) -> (r: Self)
        ensures
            r.muted() == self.muted(),
            r.known() == self.known(),
    {
        proof {
            use_type_invariant(self);
        }
        AppSettings {
            muted_repositories: copy_strings(&self.muted_repositories),
            known_repositories: copy_strings(&self.known_repositories),
        }
    }
}

impl Default for AppSettings {
    fn default() -> (r: Self)
        ensures
            r.muted() == Set::<Seq<char>>::empty(),
            r.known() == Set::<Seq<char>>::empty(),
    {
        AppSettings::empty()
    }
}

// ---------------------------------------------------------------------------
// Merging the lists of pull requests
// ---------------------------------------------------------------------------

/// Whether `a` is a later time than `b`, by seconds, then nanoseconds; no
/// time is earlier than any time.
pub open spec fn time_later(a: Option<(i64, u32)>, b: Option<(i64, u32)>) -> bool {
    match (a, b) {
        (Some(x), Some(y)) => x.0 > y.0 || (x.0 == y.0 && x.1 > y.1),
        (Some(_), None) => true,
        _ => false,
    }
}

/// What `existing` becomes when a later item with the same id arrives: the
/// more actionable kind, the later time, and each optional detail that
/// `existing` lacks taken from `item`.
pub open spec fn absorbed(existing: PullRequestItem, item: PullRequestItem) -> PullRequestItem {
    PullRequestItem {
        kind: if item.kind.rank() < existing.kind.rank() {
            item.kind
        } else {
            existing.kind
        },
        updated_at: if time_later(item.updated_at, existing.updated_at) {
            item.updated_at
        } else {
            existing.updated_at
        },
        notification_thread_id: if existing.notification_thread_id is None {
            item.notification_thread_id
        } else {
            existing.notification_thread_id
        },
        author: if existing.author is None {
            item.author
        } else {
            existing.author
        },
        reason: if existing.reason is None {
            item.reason
        } else {
            existing.reason
        },
        preview: if existing.preview is None {
            item.preview
        } else {
            existing.preview
        },
        ..existing
    }
}

/// The single item that all items of `items` with id `id` merge into, taken
/// in order: the first one, with every later one absorbed into it.
pub open spec fn merged_entry(items: Seq<PullRequestItem>, id: Seq<char>) -> Option<
    PullRequestItem,
>
    decreases items.len(),
{
    if items.len() == 0 {
        None
    } else {
        let prev = merged_entry(items.drop_last(), id);
        let last = items.last();
        if last.id@ != id {
            prev
        } else {
            match prev {
                None => Some(last),
                Some(e) => Some(absorbed(e, last)),
            }
        }
    }
}

/// The order of the merged list: more actionable kinds first, then the most
/// recently updated, then by repository, number and id.
pub open spec fn listed_before(a: PullRequestItem, b: PullRequestItem) -> bool {
    a.kind.rank() < b.kind.rank() || (a.kind.rank() == b.kind.rank() && (time_later(
        a.updated_at,
        b.updated_at,
    ) || (a.updated_at == b.updated_at && (text_less(a.repo@, b.repo@) || (a.repo@ == b.repo@
        && (a.number < b.number || (a.number == b.number && text_less(a.id@, b.id@))))))))
}

/// Every id of `items` is the id of some entry of `list`.
pub open spec fn covers_ids(list: Seq<PullRequestItem>, items: Seq<PullRequestItem>) -> bool {
    forall|k: int| 0 <= k < items.len() ==> #[trigger] has_id(list, items[k].id@)
}

/// Whether some entry of `list` has id `id`.
pub open spec fn has_id(list: Seq<PullRequestItem>, id: Seq<char>) -> bool {
    exists|t: int| 0 <= t < list.len() && (#[trigger] list[t]).id@ == id
}

/// What `merge_pr_items(items)` returns: one entry per id of `items`, each the
/// merge of the items with that id, ordered strictly by `listed_before`.
pub open spec fn is_merged_list(items: Seq<PullRequestItem>, merged: Seq<PullRequestItem>) -> bool {
    &&& forall|i: int| 0 <= i < merged.len() ==> merged_entry(items, #[trigger] merged[i].id@) == Some(merged[i])
    &&& forall|i: int, j: int| 0 <= i < j < merged.len() ==> listed_before(#[trigger] merged[i], #[trigger] merged[j])
    &&& forall|k: int| 0 <= k < items.len() ==> exists|i: int| 0 <= i < merged.len() && #[trigger] merged[i].id@ == (#[trigger] items[k]).id@
}

pub proof fn merged_entry_exists(items: Seq<PullRequestItem>, id: Seq<char>)
    ensures
        merged_entry(items, id) is Some <==> exists|k: int| 0 <= k < items.len() && (#[trigger] items[k]).id@ == id,
        merged_entry(items, id) matches Some(e) ==> e.id@ == id,
    decreases items.len(),
{
    if items.len() > 0 {
        merged_entry_exists(items.drop_last(), id);
        if exists|k: int| 0 <= k < items.len() && (#[trigger] items[k]).id@ == id {
            let k = choose|k: int| 0 <= k < items.len() && (#[trigger] items[k]).id@ == id;
            if k < items.len() - 1 {
                assert(items.drop_last()[k] == items[k]);
            }
        }
        assert forall|k: int| 0 <= k < items.drop_last().len() && (#[trigger] items.drop_last()[k]).id@ == id implies exists|k2: int| 0 <= k2 < items.len() && (#[trigger] items[k2]).id@ == id by {
            assert(items[k] == items.drop_last()[k]);
        }
    }
}

/// `listed_before` is irreflexive, asymmetric, transitive, and total on items
/// with different ids.
pub proof fn listed_before_is_strict_total(a: PullRequestItem, b: PullRequestItem, c: PullRequestItem)
    ensures
        !listed_before(a, a),
        !(listed_before(a, b) && listed_before(b, a)),
        a.id@ != b.id@ ==> listed_before(a, b) || listed_before(b, a),
        listed_before(a, b) && listed_before(b, c) ==> listed_before(a, c),
{
    text_less_is_strict_total(a.repo@, b.repo@);
    text_less_is_strict_total(a.id@, b.id@);
    text_less_is_strict_total(b.repo@, c.repo@);
    text_less_is_strict_total(a.repo@, c.repo@);
    if text_less(a.repo@, b.repo@) && text_less(b.repo@, c.repo@) {
        text_less_transitive(a.repo@, b.repo@, c.repo@);
    }
    if text_less(a.id@, b.id@) && text_less(b.id@, c.id@) {
        text_less_transitive(a.id@, b.id@, c.id@);
    }
}

/// The item `existing` becomes when `item`, with the same id, arrives.
fn absorb(existing: PullRequestItem, item: PullRequestItem) -> (r: PullRequestItem)
    ensures
        r == absorbed(existing, item),
{
    let mut e = existing;
    if item.kind.priority() < e.kind.priority() {
        e.kind = item.kind;
    }
    let later = match (item.updated_at, e.updated_at) {
        (Some(x), Some(y)) => x.0 > y.0 || (x.0 == y.0 && x.1 > y.1),
        (Some(_), None) => true,
        _ => false,
    };
    if later {
        e.updated_at = item.updated_at;
    }
    if e.notification_thread_id.is_none() {
        e.notification_thread_id = item.notification_thread_id;
    }
    if e.author.is_none() {
        e.author = item.author;
    }
    if e.reason.is_none() {
        e.reason = item.reason;
    }
    if e.preview.is_none() {
        e.preview = item.preview;
    }
    e
}


proof fn entries_have_distinct_ids(items: Seq<PullRequestItem>, merged: Seq<PullRequestItem>, i: int, j: int)
    requires
        0 <= i < j < merged.len(),
        merged_entry(items, merged[i].id@) == Some(merged[i]),
        merged_entry(items, merged[j].id@) == Some(merged[j]),
        listed_before(merged[i], merged[j]),
    ensures
        merged[i].id@ != merged[j].id@,
{
    listed_before_is_strict_total(merged[i], merged[i], merged[i]);
}

/// A merged list holds each id once, and for each of its ids some items
/// merge into an entry.
pub proof fn merged_list_has_each_id_once(items: Seq<PullRequestItem>, merged: Seq<PullRequestItem>)
    requires
        is_merged_list(items, merged),
    ensures
        forall|i: int, j: int| 0 <= i < j < merged.len() ==> (#[trigger] merged[i]).id@ != (#[trigger] merged[j]).id@,
        forall|i: int| 0 <= i < merged.len() ==> #[trigger] merged_entry(items, merged[i].id@) is Some,
{
    assert forall|i: int, j: int| 0 <= i < j < merged.len() implies (#[trigger] merged[i]).id@ != (#[trigger] merged[j]).id@ by {
        entries_have_distinct_ids(items, merged, i, j);
    }
}

/// Ids that occur once each in `list`.
pub open spec fn distinct_ids(list: Seq<PullRequestItem>) -> bool {
    forall|i: int, j: int| 0 <= i < j < list.len() ==> (#[trigger] list[i]).id@ != (#[trigger] list[j]).id@
}

/// Entries that come strictly one after another in `listed_before` order.
pub open spec fn strictly_listed(list: Seq<PullRequestItem>) -> bool {
    forall|i: int, j: int| 0 <= i < j < list.len() ==> listed_before(#[trigger] list[i], #[trigger] list[j])
}

proof fn merged_entry_of_distinct(m: Seq<PullRequestItem>, k: int)
    requires
        0 <= k < m.len(),
        distinct_ids(m),
    ensures
        merged_entry(m, m[k].id@) == Some(m[k]),
    decreases m.len(),
{
    let init = m.drop_last();
    let id = m[k].id@;
    if k == m.len() - 1 {
        merged_entry_exists(init, id);
        assert forall|j: int| 0 <= j < init.len() implies (#[trigger] init[j]).id@ != id by {
            assert(init[j] == m[j]);
        }
    } else {
        assert(m.last() == m[m.len() - 1]);
        assert(m.last().id@ != id);
        assert(init[k] == m[k]);
        assert forall|i: int, j: int| 0 <= i < j < init.len() implies (#[trigger] init[i]).id@ != (#[trigger] init[j]).id@ by {
            assert(init[i] == m[i] && init[j] == m[j]);
        }
        merged_entry_of_distinct(init, k);
    }
}

proof fn strictly_listed_rest(a: Seq<PullRequestItem>, x: PullRequestItem)
    requires
        strictly_listed(a),
        a.len() > 0,
    ensures
        strictly_listed(a.drop_first()),
        a.drop_first().contains(x) <==> (a.contains(x) && x != a[0]),
{
    let r = a.drop_first();
    assert forall|i: int, j: int| 0 <= i < j < r.len() implies listed_before(#[trigger] r[i], #[trigger] r[j]) by {
        assert(r[i] == a[i + 1] && r[j] == a[j + 1]);
    }
    if r.contains(x) {
        let k = choose|k: int| 0 <= k < r.len() && r[k] == x;
        assert(a[k + 1] == x);
        listed_before_is_strict_total(a[0], a[0], a[0]);
        assert(listed_before(a[0], a[k + 1]));
    }
    if a.contains(x) && x != a[0] {
        let k = choose|k: int| 0 <= k < a.len() && a[k] == x;
        assert(k > 0);
        assert(r[k - 1] == x);
    }
}

/// Two lists in strict `listed_before` order that hold the same entries are
/// the same list.
proof fn strictly_listed_unique(a: Seq<PullRequestItem>, b: Seq<PullRequestItem>)
    requires
        strictly_listed(a),
        strictly_listed(b),
        forall|x: PullRequestItem| a.contains(x) <==> b.contains(x),
    ensures
        a == b,
    decreases a.len(),
{
    if a.len() == 0 {
        if b.len() > 0 {
            assert(b.contains(b[0]));
        }
        assert(a =~= b);
    } else {
        assert(a.contains(a[0]));
        assert(b.contains(a[0]));
        assert(b.len() > 0);
        assert(b.contains(b[0]));
        assert(a.contains(b[0]));
        if a[0] != b[0] {
            let ka = choose|k: int| 0 <= k < a.len() && a[k] == b[0];
            let kb = choose|k: int| 0 <= k < b.len() && b[k] == a[0];
            assert(ka > 0 && kb > 0);
            assert(listed_before(a[0], a[ka]));
            assert(listed_before(b[0], b[kb]));
            listed_before_is_strict_total(a[0], b[0], b[0]);
        }
        assert forall|x: PullRequestItem| a.drop_first().contains(x) <==> b.drop_first().contains(x) by {
            strictly_listed_rest(a, x);
            strictly_listed_rest(b, x);
        }
        strictly_listed_rest(a, a[0]);
        strictly_listed_rest(b, b[0]);
        strictly_listed_unique(a.drop_first(), b.drop_first());
        assert forall|k: int| 0 <= k < a.len() implies a[k] == b[k] by {
            if k > 0 {
                assert(a[k] == a.drop_first()[k - 1]);
                assert(b[k] == b.drop_first()[k - 1]);
            }
        }
        assert(a =~= b);
    }
}

proof fn remerged_entry_is_original(m: Seq<PullRequestItem>, m2: Seq<PullRequestItem>, i: int)
    requires
        distinct_ids(m),
        0 <= i < m2.len(),
        merged_entry(m, m2[i].id@) == Some(m2[i]),
    ensures
        m.contains(m2[i]),
{
    merged_entry_exists(m, m2[i].id@);
    let k = choose|k: int| 0 <= k < m.len() && (#[trigger] m[k]).id@ == m2[i].id@;
    merged_entry_of_distinct(m, k);
}

/// Merging a list that is already merged gives it back unchanged.
pub proof fn merging_a_merged_list_gives_it_back(
    items: Seq<PullRequestItem>,
    merged: Seq<PullRequestItem>,
    again: Seq<PullRequestItem>,
)
    requires
        is_merged_list(items, merged),
        is_merged_list(merged, again),
    ensures
        again == merged,
{
    merged_list_has_each_id_once(items, merged);
    assert(distinct_ids(merged));
    assert(strictly_listed(merged));
    assert(strictly_listed(again));
    assert forall|x: PullRequestItem| merged.contains(x) <==> again.contains(x) by {
        if again.contains(x) {
            let i = choose|i: int| 0 <= i < again.len() && again[i] == x;
            remerged_entry_is_original(merged, again, i);
        }
        if merged.contains(x) {
            let k = choose|k: int| 0 <= k < merged.len() && merged[k] == x;
            assert(exists|i: int| 0 <= i < again.len() && #[trigger] again[i].id@ == (#[trigger] merged[k]).id@);
            let i = choose|i: int| 0 <= i < again.len() && #[trigger] again[i].id@ == merged[k].id@;
            merged_entry_of_distinct(merged, k);
            assert(merged_entry(merged, again[i].id@) == Some(again[i]));
            assert(again[i] == x);
        }
    }
    strictly_listed_unique(merged, again);
}

/// The merge of the items with id `id` takes the most actionable of their
/// kinds and the latest of their times.
proof fn merged_entry_takes_best_kind_and_latest_time(items: Seq<PullRequestItem>, id: Seq<char>)
    ensures
        merged_entry(items, id) matches Some(e) ==> {
            &&& forall|k: int| 0 <= k < items.len() && (#[trigger] items[k]).id@ == id ==> e.kind.rank()
                <= items[k].kind.rank() && !time_later(items[k].updated_at, e.updated_at)
            &&& exists|k: int| 0 <= k < items.len() && (#[trigger] items[k]).id@ == id && items[k].kind == e.kind
            &&& exists|k: int| 0 <= k < items.len() && (#[trigger] items[k]).id@ == id && items[k].updated_at == e.updated_at
        },
    decreases items.len(),
{
    if items.len() > 0 {
        let init = items.drop_last();
        let last = items.last();
        let n = items.len() - 1;
        merged_entry_takes_best_kind_and_latest_time(init, id);
        assert(items[n] == last);
        assert forall|k: int| 0 <= k < init.len() implies init[k] == items[k] by {}
        if last.id@ == id {
            match merged_entry(init, id) {
                None => {
                    merged_entry_exists(init, id);
                    assert forall|k: int| 0 <= k < items.len() && (#[trigger] items[k]).id@ == id implies k == n by {
                        if k < n {
                            assert(init[k].id@ == id);
                        }
                    }
                },
                Some(p) => {
                    let e = absorbed(p, last);
                    assert(merged_entry(items, id) == Some(e));
                    assert forall|k: int| 0 <= k < items.len() && (#[trigger] items[k]).id@ == id implies e.kind.rank()
                        <= items[k].kind.rank() && !time_later(items[k].updated_at, e.updated_at) by {
                        if k < n {
                            assert(init[k].id@ == id);
                            assert(p.kind.rank() <= init[k].kind.rank());
                            assert(!time_later(init[k].updated_at, p.updated_at));
                        }
                    }
                    let kk = choose|k: int| 0 <= k < init.len() && (#[trigger] init[k]).id@ == id && init[k].kind == p.kind;
                    let kt = choose|k: int| 0 <= k < init.len() && (#[trigger] init[k]).id@ == id && init[k].updated_at == p.updated_at;
                    if e.kind == last.kind {
                        assert(items[n].id@ == id && items[n].kind == e.kind);
                    } else {
                        assert(items[kk].id@ == id && items[kk].kind == e.kind);
                    }
                    if e.updated_at == last.updated_at {
                        assert(items[n].id@ == id && items[n].updated_at == e.updated_at);
                    } else {
                        assert(items[kt].id@ == id && items[kt].updated_at == e.updated_at);
                    }
                },
            }
        } else {
            assert forall|k: int| 0 <= k < items.len() && (#[trigger] items[k]).id@ == id implies k < n by {}
            if let Some(e) = merged_entry(init, id) {
                let kk = choose|k: int| 0 <= k < init.len() && (#[trigger] init[k]).id@ == id && init[k].kind == e.kind;
                let kt = choose|k: int| 0 <= k < init.len() && (#[trigger] init[k]).id@ == id && init[k].updated_at == e.updated_at;
                assert(items[kk].id@ == id && items[kk].kind == e.kind);
                assert(items[kt].id@ == id && items[kt].updated_at == e.updated_at);
                assert forall|k: int| 0 <= k < items.len() && (#[trigger] items[k]).id@ == id implies e.kind.rank()
                    <= items[k].kind.rank() && !time_later(items[k].updated_at, e.updated_at) by {
                    assert(init[k].id@ == id);
                }
            }
        }
    }
}

/// Whatever the order of the items, the merged entry of a pull request is a
/// review request when any item for it is one; otherwise an unread
/// notification when any item for it is one; and it is the kind of one of
/// its items. Its time is the latest of its items' times and is the time of
/// one of them.
pub proof fn merged_kind_is_most_actionable(items: Seq<PullRequestItem>, merged: Seq<PullRequestItem>, i: int)
    requires
        is_merged_list(items, merged),
        0 <= i < merged.len(),
    ensures
        (exists|k: int| 0 <= k < items.len() && (#[trigger] items[k]).id@ == merged[i].id@ && items[k].kind
            == PrKind::ReviewRequested) ==> merged[i].kind == PrKind::ReviewRequested,
        (exists|k: int| 0 <= k < items.len() && (#[trigger] items[k]).id@ == merged[i].id@ && items[k].kind
            == PrKind::Notification) ==> merged[i].kind != PrKind::Authored,
        exists|k: int| 0 <= k < items.len() && (#[trigger] items[k]).id@ == merged[i].id@ && items[k].kind == merged[i].kind,
        forall|k: int| 0 <= k < items.len() && (#[trigger] items[k]).id@ == merged[i].id@ ==> match (items[k].updated_at, merged[i].updated_at) {
            (Some(t), Some(m)) => t.0 < m.0 || (t.0 == m.0 && t.1 <= m.1),
            (Some(_), None) => false,
            (None, _) => true,
        },
        exists|k: int| 0 <= k < items.len() && (#[trigger] items[k]).id@ == merged[i].id@ && items[k].updated_at == merged[i].updated_at,
{
    let id = merged[i].id@;
    assert(merged_entry(items, id) == Some(merged[i]));
    merged_entry_takes_best_kind_and_latest_time(items, id);
    if exists|k: int| 0 <= k < items.len() && (#[trigger] items[k]).id@ == id && items[k].kind == PrKind::ReviewRequested {
        let k = choose|k: int| 0 <= k < items.len() && (#[trigger] items[k]).id@ == id && items[k].kind == PrKind::ReviewRequested;
        assert(merged[i].kind.rank() <= items[k].kind.rank());
    }
    if exists|k: int| 0 <= k < items.len() && (#[trigger] items[k]).id@ == id && items[k].kind == PrKind::Notification {
        let k = choose|k: int| 0 <= k < items.len() && (#[trigger] items[k]).id@ == id && items[k].kind == PrKind::Notification;
        assert(merged[i].kind.rank() <= items[k].kind.rank());
    }
}

/// Whether `a` is listed before `b` in the merged list.
pub fn is_listed_before(a: &PullRequestItem, b: &PullRequestItem) -> (r: bool)
    ensures
        r == listed_before(*a, *b),
{
    let pa = a.kind.priority();
    let pb = b.kind.priority();
    if pa != pb {
        return pa < pb;
    }
    let a_later = match (a.updated_at, b.updated_at) {
        (Some(x), Some(y)) => x.0 > y.0 || (x.0 == y.0 && x.1 > y.1),
        (Some(_), None) => true,
        _ => false,
    };
    if a_later {
        return true;
    }
    if a.updated_at != b.updated_at {
        return false;
    }
    if str_less(a.repo.as_str(), b.repo.as_str()) {
        return true;
    }
    if a.repo != b.repo {
        return false;
    }
    if a.number != b.number {
        return a.number < b.number;
    }
    str_less(a.id.as_str(), b.id.as_str())
}

/// Collects the items by id, in order of first appearance, merging the
/// items that share an id.
fn group_by_id(items: Vec<PullRequestItem>) -> (groups: Vec<PullRequestItem>)
    ensures
        forall|i: int| 0 <= i < groups@.len() ==> merged_entry(items@, #[trigger] groups@[i].id@) == Some(groups@[i]),
        forall|i: int, j: int| 0 <= i < groups@.len() && 0 <= j < groups@.len() && i != j ==> (#[trigger] groups@[i]).id@ != (#[trigger] groups@[j]).id@,
        forall|k: int| 0 <= k < items@.len() ==> exists|i: int| 0 <= i < groups@.len() && #[trigger] groups@[i].id@ == (#[trigger] items@[k]).id@,
{
    let ghost all = items@;
    let mut rest = items;
    let mut groups: Vec<PullRequestItem> = Vec::new();
    let mut n: usize = 0;
    let total = rest.len();
    while rest.len() > 0
        invariant
            all.len() == total,
            n + rest@.len() == all.len(),
            rest@ == all.skip(n as int),
            forall|i: int| 0 <= i < groups@.len() ==> merged_entry(all.take(n as int), #[trigger] groups@[i].id@) == Some(groups@[i]),
            forall|i: int, j: int| 0 <= i < groups@.len() && 0 <= j < groups@.len() && i != j ==> (#[trigger] groups@[i]).id@ != (#[trigger] groups@[j]).id@,
            forall|k: int| 0 <= k < n ==> exists|i: int| 0 <= i < groups@.len() && #[trigger] groups@[i].id@ == (#[trigger] all[k]).id@,
        decreases rest@.len(),
    {
        let item = rest.remove(0);
        let ghost prefix = all.take(n as int);
        let ghost next = all.take(n + 1);
        assert(next.drop_last() == prefix);
        assert(next.last() == item);
        assert(all.skip(n as int).drop_first() == all.skip(n + 1));
        let mut j: usize = 0;
        while j < groups.len() && groups[j].id != item.id
            invariant
                j <= groups@.len(),
                forall|t: int| 0 <= t < j ==> (#[trigger] groups@[t]).id@ != item.id@,
            decreases groups@.len() - j,
        {
            j = j + 1;
        }
        let ghost old_groups = groups@;
        if j < groups.len() {
            let existing = groups.remove(j);
            proof {
                assert(merged_entry(prefix, item.id@) == Some(existing));
            }
            let e = absorb(existing, item);
            groups.insert(j, e);
            proof {
                assert(groups@ == old_groups.update(j as int, e));
                assert forall|i: int| 0 <= i < groups@.len() implies merged_entry(next, #[trigger] groups@[i].id@) == Some(groups@[i]) by {
                    if i != j {
                        assert(groups@[i] == old_groups[i]);
                        assert(old_groups[i].id@ != old_groups[j as int].id@);
                    }
                }
                assert forall|k: int| 0 <= k < n + 1 implies exists|i: int| 0 <= i < groups@.len() && #[trigger] groups@[i].id@ == (#[trigger] all[k]).id@ by {
                    if k < n {
                        let i0 = choose|i: int| 0 <= i < old_groups.len() && #[trigger] old_groups[i].id@ == all[k].id@;
                        assert(groups@[i0].id@ == old_groups[i0].id@);
                    } else {
                        assert(groups@[j as int].id@ == all[k].id@);
                    }
                }
            }
        } else {
            proof {
                merged_entry_exists(prefix, item.id@);
                if exists|k: int| 0 <= k < prefix.len() && (#[trigger] prefix[k]).id@ == item.id@ {
                    let k = choose|k: int| 0 <= k < prefix.len() && (#[trigger] prefix[k]).id@ == item.id@;
                    assert(prefix[k] == all[k]);
                    let i0 = choose|i: int| 0 <= i < old_groups.len() && #[trigger] old_groups[i].id@ == all[k].id@;
                    assert(false);
                }
            }
            groups.push(item);
            proof {
                assert forall|i: int| 0 <= i < groups@.len() implies merged_entry(next, #[trigger] groups@[i].id@) == Some(groups@[i]) by {
                    if i < old_groups.len() {
                        assert(groups@[i] == old_groups[i]);
                    }
                }
                assert forall|k: int| 0 <= k < n + 1 implies exists|i: int| 0 <= i < groups@.len() && #[trigger] groups@[i].id@ == (#[trigger] all[k]).id@ by {
                    if k < n {
                        let i0 = choose|i: int| 0 <= i < old_groups.len() && #[trigger] old_groups[i].id@ == all[k].id@;
                        assert(groups@[i0] == old_groups[i0]);
                    } else {
                        assert(groups@[old_groups.len() as int].id@ == all[k].id@);
                    }
                }
            }
        }
        n = n + 1;
    }
    assert(all.take(n as int) == all);
    groups
}


proof fn insert_keeps_listed_order(s: Seq<PullRequestItem>, p: int, g: PullRequestItem)
    requires
        0 <= p <= s.len(),
        forall|i: int, j: int| 0 <= i < j < s.len() ==> listed_before(#[trigger] s[i], #[trigger] s[j]),
        forall|t: int| 0 <= t < p ==> listed_before(#[trigger] s[t], g),
        forall|t: int| p <= t < s.len() ==> listed_before(g, #[trigger] s[t]),
    ensures
        forall|i: int, j: int| 0 <= i < j < s.insert(p, g).len() ==> listed_before(#[trigger] s.insert(p, g)[i], #[trigger] s.insert(p, g)[j]),
{
    let r = s.insert(p, g);
    assert forall|i: int, j: int| 0 <= i < j < r.len() implies listed_before(#[trigger] r[i], #[trigger] r[j]) by {
        if j < p {
            assert(r[i] == s[i] && r[j] == s[j]);
        } else if j == p {
            assert(r[i] == s[i]);
        } else if i < p {
            assert(r[i] == s[i] && r[j] == s[j - 1]);
            listed_before_is_strict_total(s[i], g, s[j - 1]);
        } else if i == p {
            assert(r[j] == s[j - 1]);
        } else {
            assert(r[i] == s[i - 1] && r[j] == s[j - 1]);
        }
    }
}

proof fn after_insert_point(s: Seq<PullRequestItem>, p: int, g: PullRequestItem)
    requires
        0 <= p < s.len(),
        forall|i: int, j: int| 0 <= i < j < s.len() ==> listed_before(#[trigger] s[i], #[trigger] s[j]),
        !listed_before(s[p], g),
        s[p].id@ != g.id@,
    ensures
        forall|t: int| p <= t < s.len() ==> listed_before(g, #[trigger] s[t]),
{
    listed_before_is_strict_total(s[p], g, g);
    assert forall|t: int| p <= t < s.len() implies listed_before(g, #[trigger] s[t]) by {
        if t > p {
            listed_before_is_strict_total(g, s[p], s[t]);
        }
    }
}

proof fn insert_keeps_ids(s: Seq<PullRequestItem>, p: int, all: Seq<PullRequestItem>, n: int)
    requires
        0 <= p <= s.len(),
        0 <= n < all.len(),
        forall|k: int| 0 <= k < n ==> #[trigger] has_id(s, all[k].id@),
    ensures
        forall|k: int| 0 <= k < n + 1 ==> #[trigger] has_id(s.insert(p, all[n]), all[k].id@),
{
    let r = s.insert(p, all[n]);
    assert forall|k: int| 0 <= k < n + 1 implies #[trigger] has_id(r, all[k].id@) by {
        if k < n {
            assert(has_id(s, all[k].id@));
            let t = choose|t: int| 0 <= t < s.len() && (#[trigger] s[t]).id@ == all[k].id@;
            if t < p {
                assert(r[t] == s[t]);
            } else {
                assert(r[t + 1] == s[t]);
            }
        } else {
            assert(r[p] == all[k]);
        }
    }
}

/// Sorts the merged entries, which have distinct ids, into `listed_before`
/// order.
fn sort_listed(groups: Vec<PullRequestItem>, Ghost(items): Ghost<Seq<PullRequestItem>>) -> (sorted: Vec<PullRequestItem>)
    requires
        forall|i: int| 0 <= i < groups@.len() ==> merged_entry(items, #[trigger] groups@[i].id@) == Some(groups@[i]),
        forall|i: int, j: int| 0 <= i < groups@.len() && 0 <= j < groups@.len() && i != j ==> (#[trigger] groups@[i]).id@ != (#[trigger] groups@[j]).id@,
    ensures
        forall|i: int, j: int| 0 <= i < j < sorted@.len() ==> listed_before(#[trigger] sorted@[i], #[trigger] sorted@[j]),
        forall|t: int| 0 <= t < sorted@.len() ==> merged_entry(items, #[trigger] sorted@[t].id@) == Some(sorted@[t]),
        covers_ids(sorted@, groups@),
{
    let ghost all = groups@;
    let mut rest = groups;
    let mut sorted: Vec<PullRequestItem> = Vec::new();
    let mut n: usize = 0;
    let total = rest.len();
    while rest.len() > 0
        invariant
            all.len() == total,
            n + rest@.len() == all.len(),
            rest@ == all.skip(n as int),
            forall|i: int, j: int| 0 <= i < all.len() && 0 <= j < all.len() && i != j ==> (#[trigger] all[i]).id@ != (#[trigger] all[j]).id@,
            forall|i: int| 0 <= i < all.len() ==> merged_entry(items, #[trigger] all[i].id@) == Some(all[i]),
            forall|i: int, j: int| 0 <= i < j < sorted@.len() ==> listed_before(#[trigger] sorted@[i], #[trigger] sorted@[j]),
            forall|t: int| 0 <= t < sorted@.len() ==> merged_entry(items, #[trigger] sorted@[t].id@) == Some(sorted@[t]),
            forall|t: int, j: int| 0 <= t < sorted@.len() && n <= j < all.len() ==> (#[trigger] sorted@[t]).id@ != (#[trigger] all[j]).id@,
            forall|k: int| 0 <= k < n ==> #[trigger] has_id(sorted@, all[k].id@),
        decreases rest@.len(),
    {
        let g = rest.remove(0);
        assert(all.skip(n as int).drop_first() == all.skip(n + 1));
        assert(g == all[n as int]);
        let mut p: usize = 0;
        while p < sorted.len() && is_listed_before(&sorted[p], &g)
            invariant
                p <= sorted@.len(),
                forall|t: int| 0 <= t < p ==> listed_before(#[trigger] sorted@[t], g),
            decreases sorted@.len() - p,
        {
            p = p + 1;
        }
        let ghost old_sorted = sorted@;
        proof {
            if p < old_sorted.len() {
                assert(old_sorted[p as int].id@ != all[n as int].id@);
                after_insert_point(old_sorted, p as int, g);
            }
            insert_keeps_listed_order(old_sorted, p as int, g);
            insert_keeps_ids(old_sorted, p as int, all, n as int);
        }
        sorted.insert(p, g);
        proof {
            assert(sorted@ == old_sorted.insert(p as int, g));
            assert forall|t: int| 0 <= t < sorted@.len() implies merged_entry(items, #[trigger] sorted@[t].id@) == Some(sorted@[t]) by {
                if t < p {
                    assert(sorted@[t] == old_sorted[t]);
                } else if t > p {
                    assert(sorted@[t] == old_sorted[t - 1]);
                }
            }
            assert forall|t: int, j: int| 0 <= t < sorted@.len() && n + 1 <= j < all.len() implies (#[trigger] sorted@[t]).id@ != (#[trigger] all[j]).id@ by {
                if t < p {
                    assert(sorted@[t] == old_sorted[t]);
                } else if t > p {
                    assert(sorted@[t] == old_sorted[t - 1]);
                } else {
                    assert(all[n as int].id@ != all[j].id@);
                }
            }
        }
        n = n + 1;
    }
    assert(all == groups@);
    assert(covers_ids(sorted@, all)) by {
        assert forall|k: int| 0 <= k < all.len() implies #[trigger] has_id(sorted@, all[k].id@) by {
            assert(0 <= k < n);
        }
    }
    sorted
}

/// Merges the pull requests gathered from every source into one list: one
/// entry per id, with the most actionable kind, the latest update time and
/// every detail that any of its duplicates carried, ordered by actionability,
/// then recency, then repository and number.
pub fn merge_pr_items(items: Vec<PullRequestItem>) -> (merged: Vec<PullRequestItem>)
    ensures
        is_merged_list(items@, merged@),
{
    let ghost all = items@;
    let groups = group_by_id(items);
    let ghost grouped = groups@;
    let sorted = sort_listed(groups, Ghost(all));
    proof {
        assert forall|k: int| 0 <= k < all.len() implies exists|i: int| 0 <= i < sorted@.len() && #[trigger] sorted@[i].id@ == (#[trigger] all[k]).id@ by {
            let g = choose|i: int| 0 <= i < grouped.len() && #[trigger] grouped[i].id@ == all[k].id@;
            assert(has_id(sorted@, grouped[g].id@));
            let t = choose|t: int| 0 <= t < sorted@.len() && (#[trigger] sorted@[t]).id@ == grouped[g].id@;
            assert(sorted@[t].id@ == all[k].id@);
        }
    }
    sorted
}

} // verus!

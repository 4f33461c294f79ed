use vstd::prelude::*;
use crate::model::PullRequestItem;

verus! {

/// Remembers which pull requests needed action at the last refresh, so that
/// only pull requests that newly need action raise a desktop notification.
/// The first refresh after start or sign-out only learns the current state.
#[derive(Debug)]
pub struct NotificationTracker {
    known_actionable: Vec<(String, bool)>,
    bootstrapped: bool,
}

/// What a tracker remembers: each id's action status, and whether a refresh
/// was seen yet.
pub struct TrackerView {
    pub known: Map<Seq<char>, bool>,
    pub bootstrapped: bool,
}

/// The action status of each id of `items`; a later item with the same id
/// replaces an earlier one.
pub open spec fn status_map(items: Seq<PullRequestItem>) -> Map<Seq<char>, bool>
    decreases items.len(),
{
    if items.len() == 0 {
        Map::empty()
    } else {
        status_map(items.drop_last()).insert(items.last().id@, items.last().needs_action())
    }
}

/// The map that a list of `(id, status)` entries describes; later entries win.
pub open spec fn entry_map(entries: Seq<(String, bool)>) -> Map<Seq<char>, bool>
    decreases entries.len(),
{
    if entries.len() == 0 {
        Map::empty()
    } else {
        entry_map(entries.drop_last()).insert(entries.last().0@, entries.last().1)
    }
}

/// Whether `known` remembers `id` as needing action.
pub open spec fn known_actionable(known: Map<Seq<char>, bool>, id: Seq<char>) -> bool {
    known.contains_key(id) && known[id]
}

/// The items of `items` that need action and were not known to need action,
/// in order.
pub open spec fn fresh_actionable(items: Seq<PullRequestItem>, known: Map<Seq<char>, bool>) -> Seq<
    PullRequestItem,
>
    decreases items.len(),
{
    if items.len() == 0 {
        seq![]
    } else {
        let prev = fresh_actionable(items.drop_last(), known);
        let it = items.last();
        if it.needs_action() && !known_actionable(known, it.id@) {
            prev.push(it)
        } else {
            prev
        }
    }
}

/// What a tracker in state `t` reports for the refreshed list `items`.
pub open spec fn reported(t: TrackerView, items: Seq<PullRequestItem>) -> Seq<PullRequestItem> {
    if t.bootstrapped {
        fresh_actionable(items, t.known)
    } else {
        seq![]
    }
}

/// The state of a tracker after it saw the refreshed list `items`.
pub open spec fn after_refresh(items: Seq<PullRequestItem>) -> TrackerView {
    TrackerView { known: status_map(items), bootstrapped: true }
}

/// The state of a tracker that saw no refresh yet.
pub open spec fn fresh_tracker() -> TrackerView {
    TrackerView { known: Map::empty(), bootstrapped: false }
}

proof fn entry_map_without_id_after(s: Seq<(String, bool)>, j: int, id: Seq<char>)
    requires
        0 <= j <= s.len(),
        forall|k: int| j <= k < s.len() ==> (#[trigger] s[k]).0@ != id,
    ensures
        entry_map(s).contains_key(id) == entry_map(s.take(j)).contains_key(id),
        entry_map(s).contains_key(id) ==> entry_map(s)[id] == entry_map(s.take(j))[id],
    decreases s.len() - j,
{
    if j < s.len() {
        assert(s.drop_last().take(j) == s.take(j));
        assert(s.last().0@ != id);
        entry_map_without_id_after(s.drop_last(), j, id);
    } else {
        assert(s.take(j) == s);
    }
}

proof fn status_map_of_distinct(items: Seq<PullRequestItem>, k: int)
    requires
        0 <= k < items.len(),
        forall|i: int, j: int| 0 <= i < items.len() && 0 <= j < items.len() && i != j ==> (#[trigger] items[i]).id@ != (#[trigger] items[j]).id@,
    ensures
        status_map(items).contains_key(items[k].id@),
        status_map(items)[items[k].id@] == items[k].needs_action(),
    decreases items.len(),
{
    if k < items.len() - 1 {
        let init = items.drop_last();
        assert(init[k] == items[k]);
        assert(items[k].id@ != items.last().id@);
        status_map_of_distinct(init, k);
    }
}

proof fn nothing_fresh_in_prefix(items: Seq<PullRequestItem>, n: int)
    requires
        0 <= n <= items.len(),
        forall|i: int, j: int| 0 <= i < items.len() && 0 <= j < items.len() && i != j ==> (#[trigger] items[i]).id@ != (#[trigger] items[j]).id@,
    ensures
        fresh_actionable(items.take(n), status_map(items)) == Seq::<PullRequestItem>::empty(),
    decreases n,
{
    if n > 0 {
        assert(items.take(n).drop_last() == items.take(n - 1));
        nothing_fresh_in_prefix(items, n - 1);
        status_map_of_distinct(items, n - 1);
    }
}

/// A refresh that lists the same pull requests as the last one, with
/// distinct ids, raises no notification: whatever needs action now needed
/// action before.
pub proof fn same_list_reports_nothing(items: Seq<PullRequestItem>)
    requires
        forall|i: int, j: int| 0 <= i < items.len() && 0 <= j < items.len() && i != j ==> (#[trigger] items[i]).id@ != (#[trigger] items[j]).id@,
    ensures
        reported(after_refresh(items), items) == Seq::<PullRequestItem>::empty(),
{
    nothing_fresh_in_prefix(items, items.len() as int);
    assert(items.take(items.len() as int) == items);
}

/// After a reset, or before any refresh, a refresh raises no notification.
pub proof fn fresh_tracker_reports_nothing(items: Seq<PullRequestItem>)
    ensures
        reported(fresh_tracker(), items) == Seq::<PullRequestItem>::empty(),
{
}

/// A pull request is reported exactly when it needs action now and the
/// tracker, having seen a refresh, did not know it as needing action.
pub proof fn reported_are_newly_actionable(t: TrackerView, items: Seq<PullRequestItem>, it: PullRequestItem)
    ensures
        reported(t, items).contains(it) <==> (t.bootstrapped && items.contains(it) && it.needs_action()
            && !known_actionable(t.known, it.id@)),
    decreases items.len(),
{
    if items.len() > 0 && t.bootstrapped {
        reported_are_newly_actionable(t, items.drop_last(), it);
        let prev = fresh_actionable(items.drop_last(), t.known);
        assert(items == items.drop_last().push(items.last()));
        assert(items.contains(it) <==> (items.drop_last().contains(it) || items.last() == it)) by {
            if items.contains(it) {
                let k = choose|k: int| 0 <= k < items.len() && items[k] == it;
                if k < items.len() - 1 {
                    assert(items.drop_last()[k] == it);
                }
            }
            if items.drop_last().contains(it) {
                let k = choose|k: int| 0 <= k < items.drop_last().len() && items.drop_last()[k] == it;
                assert(items[k] == it);
            }
        }
        let last = items.last();
        if last.needs_action() && !known_actionable(t.known, last.id@) {
            assert(prev.push(last).contains(it) <==> (prev.contains(it) || last == it)) by {
                if prev.push(last).contains(it) {
                    let k = choose|k: int| 0 <= k < prev.push(last).len() && prev.push(last)[k] == it;
                    if k < prev.len() {
                        assert(prev[k] == it);
                    }
                }
                if prev.contains(it) {
                    let k = choose|k: int| 0 <= k < prev.len() && prev[k] == it;
                    assert(prev.push(last)[k] == it);
                }
                if last == it {
                    assert(prev.push(last)[prev.len() as int] == it);
                }
            }
        }
    }
}

impl View for NotificationTracker {
    type V = TrackerView;

    closed spec fn view(&self) -> TrackerView {
        TrackerView { known: entry_map(self.known_actionable@), bootstrapped: self.bootstrapped }
    }
}

impl NotificationTracker {
    /// A tracker that saw no refresh yet.
    pub fn new() -> (r: Self)
        ensures
            r@ == fresh_tracker(),
    {
        let r = NotificationTracker { known_actionable: Vec::new(), bootstrapped: false };
        assert(r@.known =~= Map::<Seq<char>, bool>::empty());
        r
    }

    /// Whether the tracker remembers `id` as needing action.
    fn knows_actionable(&self, id: &String) -> (r: bool)
        ensures
            r == known_actionable(self@.known, id@),
    {
        let entries = &self.known_actionable;
        let mut j: usize = entries.len();
        while j > 0
            invariant
                entries@ == self.known_actionable@,
                j <= entries@.len(),
                forall|k: int| j <= k < entries@.len() ==> (#[trigger] entries@[k]).0@ != id@,
            decreases j,
        {
            if entries[j - 1].0 == *id {
                proof {
                    entry_map_without_id_after(entries@, j as int, id@);
                    assert(entries@.take(j as int).drop_last() == entries@.take(j - 1));
                    assert(entries@.take(j as int).last() == entries@[j - 1]);
                    let t = entries@.take(j as int);
                    assert(entry_map(t) == entry_map(t.drop_last()).insert(t.last().0@, t.last().1));
                    assert(entry_map(t).contains_key(id@) && entry_map(t)[id@] == entries@[j - 1].1);
                    assert(self@.known == entry_map(entries@));
                }
                return entries[j - 1].1;
            }
            j = j - 1;
        }
        proof {
            entry_map_without_id_after(entries@, 0, id@);
            assert(entries@.take(0) == Seq::<(String, bool)>::empty());
        }
        false
    }

    /// Takes in the refreshed list `items` and returns the items that now need
    /// action but did not at the last refresh. The first refresh after start
    /// or `reset` reports nothing. Afterwards the tracker remembers the status
    /// of each id of `items`.
    pub fn new_notifications(&mut self, items: &[PullRequestItem]) -> (r: Vec<PullRequestItem>)
        ensures
            r@ == reported(old(self)@, items@),
            final(self)@ == after_refresh(items@),
    {
        let mut r: Vec<PullRequestItem> = Vec::new();
        let ghost before = self@;
        if self.bootstrapped {
            let mut i: usize = 0;
            while i < items.len()
                invariant
                    i <= items@.len(),
                    self@ == before,
                    r@ == fresh_actionable(items@.take(i as int), before.known),
                decreases items@.len() - i,
            {
                assert(items@.take(i + 1).drop_last() == items@.take(i as int));
                let item = &items[i];
                if item.is_todo() && !self.knows_actionable(&item.id) {
                    r.push(item.duplicate());
                }
                i = i + 1;
            }
            assert(items@.take(items@.len() as int) == items@);
        }
        let mut entries: Vec<(String, bool)> = Vec::new();
        let mut i: usize = 0;
        while i < items.len()
            invariant
                i <= items@.len(),
                entry_map(entries@) == status_map(items@.take(i as int)),
            decreases items@.len() - i,
        {
            assert(items@.take(i + 1).drop_last() == items@.take(i as int));
            let ghost old_entries = entries@;
            entries.push((items[i].id.clone(), items[i].is_todo()));
            assert(entries@.drop_last() == old_entries);
            i = i + 1;
        }
        assert(items@.take(items@.len() as int) == items@);
        self.known_actionable = entries;
        self.bootstrapped = true;
        r
    }

    /// Forgets everything, so that the next refresh only learns again.
    pub fn reset(&mut self)
        ensures
            final(self)@ == fresh_tracker(),
    {
        self.known_actionable.clear();
        self.bootstrapped = false;
        assert(self@.known =~= Map::<Seq<char>, bool>::empty());
    }
}

impl Default for NotificationTracker {
    fn default() -> (r: Self)
        ensures
            r@ == fresh_tracker(),
    {
        NotificationTracker::new()
    }
}

} // verus!

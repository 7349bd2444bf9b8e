//! Browser tabs: creation, switching, closing and per-tab back/forward
//! history.

use vstd::prelude::*;
use crate::clock::now_unix_secs;

verus! {

/// One open tab.
pub struct Tab {
    pub id: u32,
    pub url: String,
    pub title: String,
    /// Seconds since the Unix epoch at which the tab was last shown.
    pub last_active: u64,
    pub is_suspended: bool,
    /// Serialized page state kept while the tab is suspended.
    pub saved_state: Option<String>,
    pub history: Vec<String>,
    pub history_index: usize,
}

/// The mathematical content of a tab.
pub struct TabView {
    pub id: u32,
    pub url: Seq<char>,
    pub title: Seq<char>,
    pub last_active: u64,
    pub is_suspended: bool,
    pub saved_state: Option<Seq<char>>,
    pub history: Seq<Seq<char>>,
    pub history_index: int,
}

pub open spec fn opt_string_view(o: Option<String>) -> Option<Seq<char>> {
    match o {
        Some(s) => Some(s@),
        None => None,
    }
}

impl View for Tab {
    type V = TabView;

    open spec fn view(&self) -> TabView {
        TabView {
            id: self.id,
            url: self.url@,
            title: self.title@,
            last_active: self.last_active,
            is_suspended: self.is_suspended,
            saved_state: opt_string_view(self.saved_state),
            history: self.history@.map_values(|s: String| s@),
            history_index: self.history_index as int,
        }
    }
}

impl TabView {
    /// A tab's history is never empty and its cursor points into it.
    pub open spec fn wf(self) -> bool {
        &&& self.history.len() >= 1
        &&& 0 <= self.history_index < self.history.len()
    }

    /// The tab after navigating to `url` and recording it in history: forward
    /// entries are dropped, and `url` is appended unless it already is the
    /// last entry.
    pub open spec fn after_push(self, url: Seq<char>) -> TabView {
        let h = if self.history_index < self.history.len() - 1 {
            self.history.take(self.history_index + 1)
        } else {
            self.history
        };
        if h.last() != url {
            TabView { url, history: h.push(url), history_index: h.len() as int, ..self }
        } else {
            TabView { url, history: h, ..self }
        }
    }

    /// The tab shows its current history entry, and no two neighbouring
    /// entries of its history are equal.
    pub open spec fn consistent(self) -> bool {
        &&& self.wf()
        &&& self.url == self.history[self.history_index]
        &&& neighbours_differ(self.history)
    }

    pub open spec fn can_go_back(self) -> bool {
        self.history_index > 0
    }

    pub open spec fn can_go_forward(self) -> bool {
        self.history_index < self.history.len() - 1
    }

    /// The tab after one step back (only meaningful when `can_go_back`).
    pub open spec fn after_back(self) -> TabView {
        TabView {
            history_index: self.history_index - 1,
            url: self.history[self.history_index - 1],
            ..self
        }
    }

    /// The tab after one step forward (only meaningful when `can_go_forward`).
    pub open spec fn after_forward(self) -> TabView {
        TabView {
            history_index: self.history_index + 1,
            url: self.history[self.history_index + 1],
            ..self
        }
    }
}

/// No two neighbouring entries of `h` are equal.
pub open spec fn neighbours_differ(h: Seq<Seq<char>>) -> bool {
    forall|i: int, j: int| 0 <= i && j == i + 1 && j < h.len() ==> #[trigger] h[i] != #[trigger] h[j]
}

/// The set of open tabs, kept in increasing order of id.
pub struct TabManager {
    tabs: Vec<Tab>,
    active_tab_id: u32,
    next_tab_id: u32,
}

pub struct TabManagerView {
    pub tabs: Seq<TabView>,
    pub active: u32,
    pub next: u32,
}

impl TabManagerView {
    pub open spec fn has(self, id: u32) -> bool {
        exists|i: int| 0 <= i < self.tabs.len() && self.tabs[i].id == id
    }

    /// Ids strictly increase along the sequence and are below `next`; every
    /// tab is well formed; the active id names a tab whenever one is open,
    /// and is 0 when none is.
    pub open spec fn wf(self) -> bool {
        &&& forall|i: int, j: int| 0 <= i < j < self.tabs.len() ==> self.tabs[i].id < self.tabs[j].id
        &&& forall|i: int| 0 <= i < self.tabs.len() ==> self.tabs[i].id < self.next
        &&& forall|i: int| 0 <= i < self.tabs.len() ==> (#[trigger] self.tabs[i]).wf()
        &&& self.tabs.len() > 0 ==> self.has(self.active)
        &&& self.tabs.len() == 0 ==> self.active == 0
    }

    /// Every open tab shows its current history entry, and no history holds
    /// the same address twice in a row.
    pub open spec fn consistent(self) -> bool {
        forall|i: int| 0 <= i < self.tabs.len() ==> (#[trigger] self.tabs[i]).consistent()
    }

    /// The position of the tab with the given id.
    pub open spec fn index_of(self, id: u32) -> int {
        choose|i: int| 0 <= i < self.tabs.len() && self.tabs[i].id == id
    }

    pub open spec fn active_tab(self) -> Option<TabView> {
        if self.has(self.active) {
            Some(self.tabs[self.index_of(self.active)])
        } else {
            None
        }
    }

    /// The same tabs with the active one replaced.
    pub open spec fn with_active(self, t: TabView) -> TabManagerView {
        TabManagerView { tabs: self.tabs.update(self.index_of(self.active), t), ..self }
    }

    /// The tabs without the one carrying `id`.
    pub open spec fn without(self, id: u32) -> Seq<TabView> {
        if self.has(id) {
            self.tabs.remove(self.index_of(id))
        } else {
            self.tabs
        }
    }
}

/// In a sequence with strictly increasing ids, an id names at most one
/// position.
pub proof fn lemma_index_unique(v: TabManagerView, id: u32, k: int)
    requires
        v.wf(),
        0 <= k < v.tabs.len(),
        v.tabs[k].id == id,
    ensures
        v.has(id),
        v.index_of(id) == k,
{
    let j = v.index_of(id);
    if j < k {
        assert(v.tabs[j].id < v.tabs[k].id);
    } else if j > k {
        assert(v.tabs[k].id < v.tabs[j].id);
    }
}

/// Where the `k`-th entry of `v.without(id)` sits in `v.tabs`.
pub open spec fn skip_index(v: TabManagerView, id: u32, k: int) -> int {
    if v.has(id) && k >= v.index_of(id) { k + 1 } else { k }
}

/// Replacing the active tab by a well-formed tab with the same id keeps the
/// strip well formed.
pub proof fn lemma_with_active_wf(v: TabManagerView, t: TabView)
    requires
        v.wf(),
        v.has(v.active),
        t.id == v.active,
        t.wf(),
    ensures
        v.with_active(t).wf(),
{
    let i = v.index_of(v.active);
    let w = v.with_active(t);
    assert(w.tabs[i].id == v.tabs[i].id);
    assert(forall|k: int| 0 <= k < v.tabs.len() ==> #[trigger] w.tabs[k].id == v.tabs[k].id);
    assert(w.has(w.active)) by {
        assert(w.tabs[i].id == w.active);
    }
}

/// Recording a navigation keeps a tab well formed and its id.
pub proof fn lemma_after_push_wf(t: TabView, url: Seq<char>)
    requires
        t.wf(),
    ensures
        t.after_push(url).wf(),
        t.after_push(url).id == t.id,
{
}

/// Recording a navigation keeps a tab consistent: the new address is the
/// current entry, and it is not recorded twice in a row.
pub proof fn lemma_after_push_consistent(t: TabView, url: Seq<char>)
    requires
        t.consistent(),
    ensures
        t.after_push(url).consistent(),
{
    let h = if t.history_index < t.history.len() - 1 {
        t.history.take(t.history_index + 1)
    } else {
        t.history
    };
    assert(neighbours_differ(h)) by {
        assert forall|i: int, j: int| 0 <= i && j == i + 1 && j < h.len() implies #[trigger] h[i] != #[trigger] h[j] by {
            assert(h[i] == t.history[i] && h[j] == t.history[j]);
        }
    }
    assert(h.last() == t.history[t.history_index]);
    if h.last() != url {
        let h2 = h.push(url);
        assert forall|i: int, j: int| 0 <= i && j == i + 1 && j < h2.len() implies #[trigger] h2[i] != #[trigger] h2[j] by {
            if j < h.len() {
                assert(h2[i] == h[i] && h2[j] == h[j]);
            }
        }
    }
}

/// Stepping back or forward keeps a tab consistent.
pub proof fn lemma_steps_consistent(t: TabView)
    requires
        t.consistent(),
    ensures
        t.can_go_back() ==> t.after_back().consistent(),
        t.can_go_forward() ==> t.after_forward().consistent(),
{
}

/// Going back one step and then forward one step returns a tab to the
/// history position it had, showing that position's entry.
pub proof fn lemma_back_then_forward(t: TabView)
    requires
        t.wf(),
        t.can_go_back(),
    ensures
        t.after_back().wf(),
        t.after_back().can_go_forward(),
        t.after_back().after_forward() == (TabView { url: t.history[t.history_index], ..t }),
{
}

/// Going forward one step and then back one step returns a tab to the
/// history position it had, showing that position's entry.
pub proof fn lemma_forward_then_back(t: TabView)
    requires
        t.wf(),
        t.can_go_forward(),
    ensures
        t.after_forward().wf(),
        t.after_forward().can_go_back(),
        t.after_forward().after_back() == (TabView { url: t.history[t.history_index], ..t }),
{
}

/// After navigating to a url other than the current history entry, Back
/// is available and shows that previous entry; Forward is not available.
pub proof fn lemma_push_then_back(t: TabView, url: Seq<char>)
    requires
        t.wf(),
        t.history[t.history_index] != url,
    ensures
        t.after_push(url).can_go_back(),
        !t.after_push(url).can_go_forward(),
        t.after_push(url).after_back().url == t.history[t.history_index],
        t.after_push(url).history.last() == url,
{
    let h = if t.history_index < t.history.len() - 1 {
        t.history.take(t.history_index + 1)
    } else {
        t.history
    };
    assert(h.last() == t.history[t.history_index]);
}

/// Recording the same url twice in a row leaves the history as recording it
/// once.
pub proof fn lemma_push_idempotent(t: TabView, url: Seq<char>)
    requires
        t.wf(),
    ensures
        t.after_push(url).after_push(url) == t.after_push(url),
{
    let t1 = t.after_push(url);
    assert(t1.history.last() == url);
    assert(t1.history_index == t1.history.len() - 1);
}

/// Whether the tab at position `k` of `tabs` is due to be suspended.
pub open spec fn due_for_suspension(t: TabView, active: u32, threshold: u64, now: u64) -> bool {
    t.id != active && !t.is_suspended && now - t.last_active > threshold
}

/// A suspension pass never puts the active tab to sleep, never wakes a
/// sleeping tab, and changes nothing but the suspended flag.
pub proof fn lemma_suspension_spares_active(t: TabView, active: u32, threshold: u64, now: u64)
    ensures
        t.id == active ==> after_suspension(t, active, threshold, now) == t,
        t.is_suspended ==> after_suspension(t, active, threshold, now).is_suspended,
        after_suspension(t, active, threshold, now) == (TabView {
            is_suspended: after_suspension(t, active, threshold, now).is_suspended,
            ..t
        }),
{
}

/// The tab after a suspension pass.
pub open spec fn after_suspension(t: TabView, active: u32, threshold: u64, now: u64) -> TabView {
    if due_for_suspension(t, active, threshold, now) {
        TabView { is_suspended: true, ..t }
    } else {
        t
    }
}

/// The `(id, saved state)` pairs to persist for the tabs a suspension pass
/// suspends, in strip order.
pub open spec fn suspension_saves(tabs: Seq<TabView>, active: u32, threshold: u64, now: u64) -> Seq<(u32, Seq<char>)>
    decreases tabs.len(),
{
    if tabs.len() == 0 {
        seq![]
    } else {
        let rest = suspension_saves(tabs.drop_last(), active, threshold, now);
        let t = tabs.last();
        if due_for_suspension(t, active, threshold, now) && t.saved_state is Some {
            rest.push((t.id, t.saved_state->0))
        } else {
            rest
        }
    }
}

impl View for TabManager {
    type V = TabManagerView;

    closed spec fn view(&self) -> TabManagerView {
        TabManagerView {
            tabs: self.tabs@.map_values(|t: Tab| t@),
            active: self.active_tab_id,
            next: self.next_tab_id,
        }
    }
}

/// A `Vec<String>` holding the one given string.
fn singleton(url: String) -> (v: Vec<String>)
    ensures
        v@.map_values(|s: String| s@) == seq![url@],
{
    let mut v: Vec<String> = Vec::new();
    v.push(url);
    assert(v@.map_values(|s: String| s@) =~= seq![url@]);
    v
}

impl TabManager {
    /// The tab strip as stored, entries in id order.
    pub closed spec fn tab_seq(&self) -> Seq<Tab> {
        self.tabs@
    }

    /// The view's tab list is the stored tab list, entry by entry; a caller of
    /// `get_active_tab_mut` uses this to carry an edit through to the view.
    pub proof fn lemma_view_tabs(&self)
        ensures
            self@.tabs.len() == self.tab_seq().len(),
            forall|i: int| 0 <= i < self.tab_seq().len() ==> self@.tabs[i] == #[trigger] self.tab_seq()[i]@,
    {
    }

    pub fn new() -> (m: Self)
        ensures
            m@.tabs.len() == 0,
            m@.active == 0,
            m@.next == 0,
            m@.wf(),
    {
        TabManager { tabs: Vec::new(), active_tab_id: 0, next_tab_id: 0 }
    }

    /// Opens a tab on `url` with the given title, makes it active and
    /// returns its id. The tab's `last_active` is read from the clock.
    pub fn add_tab(&mut self, url: String, title: String) -> (id: u32)
        requires
            old(self)@.wf(),
            old(self)@.next < u32::MAX,
        ensures
            old(self)@.consistent() ==> final(self)@.consistent(),
            final(self)@.wf(),
            id == old(self)@.next,
            !old(self)@.has(id),
            final(self)@.next == id + 1,
            final(self)@.active == id,
            final(self)@.tabs.len() == old(self)@.tabs.len() + 1,
            final(self)@.tabs.drop_last() == old(self)@.tabs,
            ({
                let t = final(self)@.tabs.last();
                &&& t.id == id
                &&& t.url == url@
                &&& t.title == title@
                &&& !t.is_suspended
                &&& t.saved_state is None
                &&& t.history == seq![url@]
                &&& t.history_index == 0
            }),
    {
        let now = now_unix_secs();
        self.add_tab_at(url, title, now)
    }

    /// `add_tab` with the activation time given.
    pub fn add_tab_at(&mut self, url: String, title: String, now: u64) -> (id: u32)
        requires
            old(self)@.wf(),
            old(self)@.next < u32::MAX,
        ensures
            old(self)@.consistent() ==> final(self)@.consistent(),
            final(self)@.wf(),
            id == old(self)@.next,
            !old(self)@.has(id),
            final(self)@.next == id + 1,
            final(self)@.active == id,
            final(self)@.tabs == old(self)@.tabs.push(TabView {
                id,
                url: url@,
                title: title@,
                last_active: now,
                is_suspended: false,
                saved_state: None,
                history: seq![url@],
                history_index: 0,
            }),
    {
        let id = self.next_tab_id;
        self.next_tab_id = self.next_tab_id + 1;
        let history = singleton(url.clone());
        let tab = Tab {
            id,
            url,
            title,
            last_active: now,
            is_suspended: false,
            saved_state: None,
            history,
            history_index: 0,
        };
        let ghost old_tabs = self.tabs@;
        self.tabs.push(tab);
        self.active_tab_id = id;
        proof {
            assert(self.tabs@ == old_tabs.push(tab));
            assert(self.tabs@.map_values(|t: Tab| t@) =~= old_tabs.map_values(|t: Tab| t@).push(tab@));
            let v = self@;
            assert(v.tabs[v.tabs.len() - 1].id == id);
            assert(v.has(id));
        }
        id
    }

    /// Opens a tab titled "New Tab".
    pub fn create_tab(&mut self, url: String) -> (id: u32)
        requires
            old(self)@.wf(),
            old(self)@.next < u32::MAX,
        ensures
            old(self)@.consistent() ==> final(self)@.consistent(),
            final(self)@.wf(),
            id == old(self)@.next,
            final(self)@.next == id + 1,
            final(self)@.active == id,
            final(self)@.tabs.len() == old(self)@.tabs.len() + 1,
            final(self)@.tabs.drop_last() == old(self)@.tabs,
            ({
                let t = final(self)@.tabs.last();
                &&& t.id == id
                &&& t.url == url@
                &&& t.title == "New Tab"@
                &&& !t.is_suspended
                &&& t.saved_state is None
                &&& t.history == seq![url@]
                &&& t.history_index == 0
            }),
    {
        self.add_tab(url, String::from_str("New Tab"))
    }

    /// The position of the tab with id `id`, if any.
    fn find(&self, id: u32) -> (r: Option<usize>)
        requires
            self@.wf(),
        ensures
            match r {
                Some(i) => i < self@.tabs.len() && self@.tabs[i as int].id == id && self@.index_of(id) == i,
                None => !self@.has(id),
            },
    {
        let mut i: usize = 0;
        while i < self.tabs.len()
            invariant
                i <= self.tabs@.len(),
                self@.wf(),
                self@.tabs.len() == self.tabs@.len(),
                forall|k: int| 0 <= k < i ==> self@.tabs[k].id != id,
            decreases self.tabs@.len() - i,
        {
            assert(self@.tabs[i as int] == self.tabs@[i as int]@);
            if self.tabs[i].id == id {
                proof { lemma_index_unique(self@, id, i as int); }
                return Some(i);
            }
            i += 1;
        }
        None
    }

    /// Makes tab `id` active and wakes it, if it exists; otherwise nothing
    /// changes. Its `last_active` is read from the clock.
    pub fn switch_to_tab(&mut self, id: u32)
        requires
            old(self)@.wf(),
        ensures
            old(self)@.consistent() ==> final(self)@.consistent(),
            final(self)@.wf(),
            old(self)@.has(id) ==> {
                let i = old(self)@.index_of(id);
                let t = final(self)@.tabs[i];
                &&& final(self)@.active == id
                &&& final(self)@.next == old(self)@.next
                &&& final(self)@.tabs.len() == old(self)@.tabs.len()
                &&& forall|k: int| 0 <= k < old(self)@.tabs.len() && k != i
                        ==> final(self)@.tabs[k] == old(self)@.tabs[k]
                &&& t == TabView { last_active: t.last_active, is_suspended: false, ..old(self)@.tabs[i] }
            },
            !old(self)@.has(id) ==> final(self)@ == old(self)@,
    {
        let now = now_unix_secs();
        self.switch_to_tab_at(id, now)
    }

    /// `switch_to_tab` with the activation time given.
    pub fn switch_to_tab_at(&mut self, id: u32, now: u64)
        requires
            old(self)@.wf(),
        ensures
            old(self)@.consistent() ==> final(self)@.consistent(),
            final(self)@.wf(),
            old(self)@.has(id) ==> {
                let i = old(self)@.index_of(id);
                &&& final(self)@.active == id
                &&& final(self)@.next == old(self)@.next
                &&& final(self)@.tabs == old(self)@.tabs.update(
                    i,
                    TabView { last_active: now, is_suspended: false, ..old(self)@.tabs[i] },
                )
            },
            !old(self)@.has(id) ==> final(self)@ == old(self)@,
    {
        match self.find(id) {
            Some(i) => {
                let ghost old_v = self@;
                let ghost old_tabs = self.tabs@;
                self.active_tab_id = id;
                let t = &mut self.tabs[i];
                t.last_active = now;
                t.is_suspended = false;
                proof {
                    let nt = self.tabs@[i as int];
                    assert(self.tabs@ == old_tabs.update(i as int, nt));
                    assert(self@.tabs =~= old_v.tabs.update(
                        i as int,
                        TabView { last_active: now, is_suspended: false, ..old_v.tabs[i as int] },
                    ));
                    assert(self@.tabs[i as int].id == id);
                }
            },
            None => {},
        }
    }

    /// Closes tab `id` (if open). When it was the active tab, the open tab
    /// with the smallest id becomes active, or 0 when none is left.
    pub fn close_tab(&mut self, id: u32)
        requires
            old(self)@.wf(),
        ensures
            old(self)@.consistent() ==> final(self)@.consistent(),
            final(self)@.wf(),
            final(self)@.next == old(self)@.next,
            final(self)@.tabs == old(self)@.without(id),
            !final(self)@.has(id),
            old(self)@.active != id ==> final(self)@.active == old(self)@.active,
            old(self)@.active == id ==> final(self)@.active == (
                if final(self)@.tabs.len() > 0 { final(self)@.tabs[0].id } else { 0 }),
    {
        let ghost old_v = self@;
        match self.find(id) {
            Some(i) => {
                let ghost old_tabs = self.tabs@;
                self.tabs.remove(i);
                proof {
                    assert(self.tabs@ == old_tabs.remove(i as int));
                    assert(self@.tabs =~= old_v.tabs.remove(i as int));
                }
            },
            None => {},
        }
        let ghost mid = self@.tabs;
        proof {
            assert forall|k: int| 0 <= k < mid.len() implies #[trigger] mid[k] == old_v.tabs[skip_index(old_v, id, k)]
                && skip_index(old_v, id, k) != old_v.index_of(id) || !old_v.has(id) by {
            }
            assert forall|a: int, b: int| 0 <= a < b < mid.len() implies mid[a].id < mid[b].id by {
                assert(mid[a] == old_v.tabs[skip_index(old_v, id, a)]);
                assert(mid[b] == old_v.tabs[skip_index(old_v, id, b)]);
            }
            assert forall|k: int| 0 <= k < mid.len() implies mid[k].id != id by {
                let j = skip_index(old_v, id, k);
                assert(mid[k] == old_v.tabs[j]);
                if old_v.tabs[j].id == id {
                    lemma_index_unique(old_v, id, j);
                }
            }
        }
        if self.active_tab_id == id {
            if self.tabs.len() > 0 {
                self.active_tab_id = self.tabs[0].id;
                proof {
                    assert(self@.tabs[0].id == self.tabs@[0].id);
                    assert(self@.has(self@.active));
                }
            } else {
                self.active_tab_id = 0;
            }
        } else {
            proof {
                if old_v.tabs.len() > 0 {
                    let k = old_v.index_of(old_v.active);
                    assert(old_v.tabs[k].id == old_v.active);
                    if old_v.has(id) {
                        assert(old_v.tabs[old_v.index_of(id)].id == id);
                    }
                    let k2 = if old_v.has(id) && k > old_v.index_of(id) { k - 1 } else { k };
                    assert(skip_index(old_v, id, k2) == k);
                    assert(mid[k2] == old_v.tabs[k]);
                    assert(self@.has(self@.active));
                }
            }
        }
    }

    /// One row per tab, `(id, title, url, is_active)`, in increasing id order.
    pub fn list_tabs(&self) -> (rows: Vec<(u32, String, String, bool)>)
        requires
            self@.wf(),
        ensures
            rows@.len() == self@.tabs.len(),
            forall|i: int| 0 <= i < rows@.len() ==> {
                let (id, title, url, active) = #[trigger] rows@[i];
                &&& id == self@.tabs[i].id
                &&& title@ == self@.tabs[i].title
                &&& url@ == self@.tabs[i].url
                &&& active == (self@.tabs[i].id == self@.active)
            },
            forall|i: int, j: int| 0 <= i < j < rows@.len() ==> rows@[i].0 < rows@[j].0,
    {
        let mut rows: Vec<(u32, String, String, bool)> = Vec::new();
        let mut i: usize = 0;
        while i < self.tabs.len()
            invariant
                i <= self.tabs@.len(),
                self@.tabs.len() == self.tabs@.len(),
                rows@.len() == i,
                forall|k: int| 0 <= k < i ==> {
                    let (id, title, url, active) = #[trigger] rows@[k];
                    &&& id == self@.tabs[k].id
                    &&& title@ == self@.tabs[k].title
                    &&& url@ == self@.tabs[k].url
                    &&& active == (self@.tabs[k].id == self@.active)
                },
            decreases self.tabs@.len() - i,
        {
            let t = &self.tabs[i];
            assert(self@.tabs[i as int] == self.tabs@[i as int]@);
            rows.push((t.id, t.title.clone(), t.url.clone(), t.id == self.active_tab_id));
            i += 1;
        }
        rows
    }

    pub fn active_tab_id(&self) -> (id: u32)
        ensures
            id == self@.active,
    {
        self.active_tab_id
    }

    pub fn tab_count(&self) -> (n: usize)
        ensures
            n == self@.tabs.len(),
    {
        self.tabs.len()
    }

    /// The tab with id `id`, if it is open.
    pub fn get_tab(&self, id: u32) -> (r: Option<&Tab>)
        requires
            self@.wf(),
        ensures
            match r {
                Some(t) => self@.has(id) && t@ == self@.tabs[self@.index_of(id)],
                None => !self@.has(id),
            },
    {
        match self.find(id) {
            Some(i) => {
                assert(self@.tabs[i as int] == self.tabs@[i as int]@);
                Some(&self.tabs[i])
            },
            None => None,
        }
    }

    /// The active tab, if one is open.
    pub fn get_active_tab(&self) -> (r: Option<&Tab>)
        requires
            self@.wf(),
        ensures
            match r {
                Some(t) => self@.active_tab() == Some(t@),
                None => self@.active_tab() is None,
            },
    {
        match self.find(self.active_tab_id) {
            Some(i) => {
                assert(self@.tabs[i as int] == self.tabs@[i as int]@);
                Some(&self.tabs[i])
            },
            None => None,
        }
    }

    /// Mutable access to the active tab, if one is open; whatever is
    /// written through it lands in that tab's slot, and nothing else changes.
    pub fn get_active_tab_mut(&mut self) -> (r: Option<&mut Tab>)
        requires
            old(self)@.wf(),
        ensures
            match r {
                Some(t) => {
                    let i = old(self)@.index_of(old(self)@.active);
                    &&& old(self)@.has(old(self)@.active)
                    &&& *t == old(self).tab_seq()[i]
                    &&& final(self).tab_seq() == old(self).tab_seq().update(i, *final(t))
                    &&& final(self)@.active == old(self)@.active
                    &&& final(self)@.next == old(self)@.next
                },
                None => {
                    &&& !old(self)@.has(old(self)@.active)
                    &&& final(self)@ == old(self)@
                },
            },
    {
        match self.find(self.active_tab_id) {
            Some(i) => Some(&mut self.tabs[i]),
            None => None,
        }
    }

    /// Shows `url` under `title` in the active tab (history untouched). No
    /// effect when no tab is open.
    pub fn set_active_location(&mut self, url: String, title: String)
        requires
            old(self)@.wf(),
        ensures
            final(self)@.wf(),
            match old(self)@.active_tab() {
                Some(t) => final(self)@ == old(self)@.with_active(TabView { url: url@, title: title@, ..t }),
                None => final(self)@ == old(self)@,
            },
    {
        match self.find(self.active_tab_id) {
            Some(i) => {
                let ghost old_v = self@;
                let ghost old_tabs = self.tabs@;
                let ghost t0 = old_v.tabs[i as int];
                assert(t0 == self.tabs@[i as int]@);
                let t = &mut self.tabs[i];
                t.url = url;
                t.title = title;
                proof {
                    let nt = self.tabs@[i as int];
                    assert(self.tabs@ == old_tabs.update(i as int, nt));
                    assert(self@.tabs =~= old_v.tabs.update(i as int, nt@));
                    lemma_index_unique(old_v, old_v.active, i as int);
                    lemma_with_active_wf(old_v, nt@);
                }
            },
            None => {},
        }
    }

    /// Closes tab `id` but never leaves the strip empty: when at most one
    /// tab was open, a fresh tab on `sentinel://home` is opened after the
    /// close.
    pub fn close_tab_keep_one(&mut self, id: u32)
        requires
            old(self)@.wf(),
            old(self)@.tabs.len() <= 1 ==> old(self)@.next < u32::MAX,
        ensures
            old(self)@.consistent() ==> final(self)@.consistent(),
            final(self)@.wf(),
            final(self)@.tabs.len() >= 1,
            old(self)@.tabs.len() > 1 ==> {
                &&& final(self)@.tabs == old(self)@.without(id)
                &&& final(self)@.next == old(self)@.next
            },
            old(self)@.tabs.len() <= 1 ==> {
                &&& final(self)@.tabs.drop_last() == old(self)@.without(id)
                &&& final(self)@.tabs.last().url == "sentinel://home"@
                &&& final(self)@.tabs.last().id == old(self)@.next
                &&& final(self)@.active == old(self)@.next
                &&& final(self)@.next == old(self)@.next + 1
            },
    {
        if self.tabs.len() <= 1 {
            self.close_tab(id);
            let _ = self.create_tab(String::from_str("sentinel://home"));
        } else {
            self.close_tab(id);
            proof {
                let o = old(self)@;
                if o.has(id) {
                    assert(o.tabs.remove(o.index_of(id)).len() == o.tabs.len() - 1);
                }
            }
        }
    }

    /// Records a navigation to `url` in the active tab's history (see
    /// `TabView::after_push`) and makes it the tab's url. No effect when no
    /// tab is open.
    pub fn push_history(&mut self, url: String)
        requires
            old(self)@.wf(),
        ensures
            old(self)@.consistent() ==> final(self)@.consistent(),
            final(self)@.wf(),
            match old(self)@.active_tab() {
                Some(t) => final(self)@ == old(self)@.with_active(t.after_push(url@)),
                None => final(self)@ == old(self)@,
            },
    {
        match self.find(self.active_tab_id) {
            Some(i) => {
                let ghost old_v = self@;
                let ghost old_tabs = self.tabs@;
                let ghost t0 = old_v.tabs[i as int];
                assert(t0 == self.tabs@[i as int]@);
                let t = &mut self.tabs[i];
                let ghost h0 = t.history@;
                if t.history_index < t.history.len() - 1 {
                    t.history.truncate(t.history_index + 1);
                    proof {
                        assert(t.history@.map_values(|s: String| s@) =~= t0.history.take(t0.history_index + 1));
                    }
                }
                let n = t.history.len();
                let same = t.history[n - 1] == url;
                proof {
                    assert(t.history@.map_values(|s: String| s@).last() == t.history@[n - 1]@);
                }
                if !same {
                    let ghost hb = t.history@;
                    t.history.push(url.clone());
                    t.history_index = t.history.len() - 1;
                    proof {
                        assert(t.history@.map_values(|s: String| s@) =~= hb.map_values(|s: String| s@).push(url@));
                    }
                }
                t.url = url;
                proof {
                    let nt = self.tabs@[i as int];
                    assert(self.tabs@ == old_tabs.update(i as int, nt));
                    assert(self@.tabs =~= old_v.tabs.update(i as int, nt@));
                    assert(nt@ == t0.after_push(url@));
                    lemma_index_unique(old_v, old_v.active, i as int);
                    lemma_after_push_wf(t0, url@);
                    lemma_with_active_wf(old_v, t0.after_push(url@));
                }
            },
            None => {},
        }
    }

    /// Steps the active tab one entry back in its history and returns the
    /// url now shown; `None` (and no change) at the start of history or
    /// with no tab open.
    pub fn go_back(&mut self) -> (r: Option<String>)
        requires
            old(self)@.wf(),
        ensures
            old(self)@.consistent() ==> final(self)@.consistent(),
            final(self)@.wf(),
            match old(self)@.active_tab() {
                Some(t) => if t.can_go_back() {
                    &&& final(self)@ == old(self)@.with_active(t.after_back())
                    &&& r matches Some(u) && u@ == t.history[t.history_index - 1]
                } else {
                    final(self)@ == old(self)@ && r is None
                },
                None => final(self)@ == old(self)@ && r is None,
            },
    {
        match self.find(self.active_tab_id) {
            Some(i) => {
                let ghost old_v = self@;
                let ghost old_tabs = self.tabs@;
                let ghost t0 = old_v.tabs[i as int];
                assert(t0 == self.tabs@[i as int]@);
                if self.tabs[i].history_index > 0 {
                    let t = &mut self.tabs[i];
                    t.history_index = t.history_index - 1;
                    let url = t.history[t.history_index].clone();
                    assert(t.history@.map_values(|s: String| s@)[t.history_index as int] == t.history@[t.history_index as int]@);
                    t.url = url.clone();
                    proof {
                        let nt = self.tabs@[i as int];
                        assert(self.tabs@ == old_tabs.update(i as int, nt));
                        assert(self@.tabs =~= old_v.tabs.update(i as int, nt@));
                        assert(nt@ == t0.after_back());
                        lemma_index_unique(old_v, old_v.active, i as int);
                        lemma_with_active_wf(old_v, t0.after_back());
                    }
                    Some(url)
                } else {
                    None
                }
            },
            None => None,
        }
    }

    /// Steps the active tab one entry forward in its history and returns the
    /// url now shown; `None` (and no change) at the end of history or with
    /// no tab open.
    pub fn go_forward(&mut self) -> (r: Option<String>)
        requires
            old(self)@.wf(),
        ensures
            old(self)@.consistent() ==> final(self)@.consistent(),
            final(self)@.wf(),
            match old(self)@.active_tab() {
                Some(t) => if t.can_go_forward() {
                    &&& final(self)@ == old(self)@.with_active(t.after_forward())
                    &&& r matches Some(u) && u@ == t.history[t.history_index + 1]
                } else {
                    final(self)@ == old(self)@ && r is None
                },
                None => final(self)@ == old(self)@ && r is None,
            },
    {
        match self.find(self.active_tab_id) {
            Some(i) => {
                let ghost old_v = self@;
                let ghost old_tabs = self.tabs@;
                let ghost t0 = old_v.tabs[i as int];
                assert(t0 == self.tabs@[i as int]@);
                if self.tabs[i].history_index < self.tabs[i].history.len() - 1 {
                    let t = &mut self.tabs[i];
                    t.history_index = t.history_index + 1;
                    let url = t.history[t.history_index].clone();
                    assert(t.history@.map_values(|s: String| s@)[t.history_index as int] == t.history@[t.history_index as int]@);
                    t.url = url.clone();
                    proof {
                        let nt = self.tabs@[i as int];
                        assert(self.tabs@ == old_tabs.update(i as int, nt));
                        assert(self@.tabs =~= old_v.tabs.update(i as int, nt@));
                        assert(nt@ == t0.after_forward());
                        lemma_index_unique(old_v, old_v.active, i as int);
                        lemma_with_active_wf(old_v, t0.after_forward());
                    }
                    Some(url)
                } else {
                    None
                }
            },
            None => None,
        }
    }

    /// Marks every inactive, not yet suspended tab whose last activation is
    /// more than `threshold_secs` before `now` as suspended, and returns the
    /// saved states of those tabs so that the caller can persist them.
    pub fn suspend_inactive_tabs(&mut self, threshold_secs: u64, now: u64) -> (saves: Vec<(u32, String)>)
        requires
            old(self)@.wf(),
        ensures
            old(self)@.consistent() ==> final(self)@.consistent(),
            final(self)@.wf(),
            final(self)@.active == old(self)@.active,
            final(self)@.next == old(self)@.next,
            final(self)@.tabs.len() == old(self)@.tabs.len(),
            forall|k: int| 0 <= k < old(self)@.tabs.len() ==> #[trigger] final(self)@.tabs[k]
                == after_suspension(old(self)@.tabs[k], old(self)@.active, threshold_secs, now),
            saves@.map_values(|p: (u32, String)| (p.0, p.1@))
                == suspension_saves(old(self)@.tabs, old(self)@.active, threshold_secs, now),
    {
        let ghost old_v = self@;
        let mut saves: Vec<(u32, String)> = Vec::new();
        let mut i: usize = 0;
        while i < self.tabs.len()
            invariant
                i <= self.tabs@.len(),
                self@.tabs.len() == old_v.tabs.len(),
                self@.active == old_v.active,
                self@.next == old_v.next,
                forall|k: int| 0 <= k < i ==> #[trigger] self@.tabs[k]
                    == after_suspension(old_v.tabs[k], old_v.active, threshold_secs, now),
                forall|k: int| i <= k < old_v.tabs.len() ==> #[trigger] self@.tabs[k] == old_v.tabs[k],
                saves@.map_values(|p: (u32, String)| (p.0, p.1@))
                    == suspension_saves(old_v.tabs.take(i as int), old_v.active, threshold_secs, now),
            decreases self.tabs@.len() - i,
        {
            let ghost before = self.tabs@;
            let ghost vb = self@.tabs;
            let ghost sb = saves@;
            assert(old_v.tabs.take(i + 1).drop_last() =~= old_v.tabs.take(i as int));
            assert(self@.tabs[i as int] == self.tabs@[i as int]@);
            let active = self.active_tab_id;
            let t = &mut self.tabs[i];
            let idle = now >= t.last_active && now - t.last_active > threshold_secs;
            if t.id != active && !t.is_suspended && idle {
                t.is_suspended = true;
                match &t.saved_state {
                    Some(content) => {
                        saves.push((t.id, content.clone()));
                        proof {
                            assert(saves@.map_values(|p: (u32, String)| (p.0, p.1@))
                                =~= sb.map_values(|p: (u32, String)| (p.0, p.1@)).push((t.id, content@)));
                        }
                    },
                    None => {},
                }
            }
            proof {
                let nt = self.tabs@[i as int];
                assert(self.tabs@ == before.update(i as int, nt));
                assert(self@.tabs =~= vb.update(i as int, nt@));
                assert(nt@ == after_suspension(old_v.tabs[i as int], old_v.active, threshold_secs, now));
            }
            i += 1;
        }
        assert(old_v.tabs.take(old_v.tabs.len() as int) =~= old_v.tabs);
        proof {
            let v = self@;
            assert forall|k: int| 0 <= k < v.tabs.len() implies v.tabs[k].id == old_v.tabs[k].id && v.tabs[k].wf() by {
                assert(v.tabs[k] == after_suspension(old_v.tabs[k], old_v.active, threshold_secs, now));
            }
            if v.tabs.len() > 0 {
                let j = old_v.index_of(old_v.active);
                assert(v.tabs[j].id == v.active);
            }
        }
        saves
    }
}

} // verus!

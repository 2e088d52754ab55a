//! App state: panel focus, per-panel data with search filter and selection,
//! new/changed detection, the detail modal and key handling. Every input is
//! a method that updates the state and returns the outside work to perform.
use vstd::prelude::*;
use crate::backend::Backend;
use crate::github::{
    Branch, Commit, DataMsg, DetailKind, DetailPayload, DetailReq, Entry, FetchCmd, Issue, Pr,
    Run, law_pr_signature_tells_updates, or_empty,
};
use crate::i18n::{self, Lang};

use crate::text::{
    contains, contains_seq, decimal, lines, lines_seq, owned, push_char, push_str,
    spec_lowercase, to_lowercase, u64_to_string,
};
use crate::markdown;
use crate::theme::{lines_view, plain_style, style_plain, TextLine, TextSpan, Theme};

verus! {

/// follow (auto-refresh of in-progress run) polling interval — in tick units (≈120ms × 16 ≈ 2s).
pub const FOLLOW_INTERVAL_TICKS: u32 = 16;

/// Panel identifiers in the 2×2 grid. The order is also the Tab cycle order.
#[derive(Clone, Copy, PartialEq, Eq, Debug, Structural)]
pub enum Panel {
    Actions,
    Prs,
    Issues,
    Commits,
}

impl Panel {
    pub open spec fn next_spec(self) -> Panel {
        match self {
            Panel::Actions => Panel::Prs,
            Panel::Prs => Panel::Issues,
            Panel::Issues => Panel::Commits,
            Panel::Commits => Panel::Actions,
        }
    }

    pub open spec fn prev_spec(self) -> Panel {
        match self {
            Panel::Actions => Panel::Commits,
            Panel::Prs => Panel::Actions,
            Panel::Issues => Panel::Prs,
            Panel::Commits => Panel::Issues,
        }
    }

    //   Actions  Prs
    //   Issues   Commits
    pub open spec fn right_spec(self) -> Panel {
        match self {
            Panel::Actions => Panel::Prs,
            Panel::Issues => Panel::Commits,
            other => other,
        }
    }

    pub open spec fn left_spec(self) -> Panel {
        match self {
            Panel::Prs => Panel::Actions,
            Panel::Commits => Panel::Issues,
            other => other,
        }
    }

    pub open spec fn down_spec(self) -> Panel {
        match self {
            Panel::Actions => Panel::Issues,
            Panel::Prs => Panel::Commits,
            other => other,
        }
    }

    pub open spec fn up_spec(self) -> Panel {
        match self {
            Panel::Issues => Panel::Actions,
            Panel::Commits => Panel::Prs,
            other => other,
        }
    }

    /// Next panel in the Tab cycle.
    pub fn next(self) -> (p: Panel)
        ensures
            p == self.next_spec(),
    {
        match self {
            Panel::Actions => Panel::Prs,
            Panel::Prs => Panel::Issues,
            Panel::Issues => Panel::Commits,
            Panel::Commits => Panel::Actions,
        }
    }

    /// Previous panel in the Tab cycle.
    pub fn prev(self) -> (p: Panel)
        ensures
            p == self.prev_spec(),
    {
        match self {
            Panel::Actions => Panel::Commits,
            Panel::Prs => Panel::Actions,
            Panel::Issues => Panel::Prs,
            Panel::Commits => Panel::Issues,
        }
    }

    /// Spatial move right on the 2×2 grid (stays put at the edge).
    pub fn right(self) -> (p: Panel)
        ensures
            p == self.right_spec(),
    {
        match self {
            Panel::Actions => Panel::Prs,
            Panel::Issues => Panel::Commits,
            other => other,
        }
    }

    /// Spatial move left on the 2×2 grid (stays put at the edge).
    pub fn left(self) -> (p: Panel)
        ensures
            p == self.left_spec(),
    {
        match self {
            Panel::Prs => Panel::Actions,
            Panel::Commits => Panel::Issues,
            other => other,
        }
    }

    /// Spatial move down on the 2×2 grid (stays put at the edge).
    pub fn down(self) -> (p: Panel)
        ensures
            p == self.down_spec(),
    {
        match self {
            Panel::Actions => Panel::Issues,
            Panel::Prs => Panel::Commits,
            other => other,
        }
    }

    /// Spatial move up on the 2×2 grid (stays put at the edge).
    pub fn up(self) -> (p: Panel)
        ensures
            p == self.up_spec(),
    {
        match self {
            Panel::Issues => Panel::Actions,
            Panel::Commits => Panel::Prs,
            other => other,
        }
    }
}

/// Tab and Shift+Tab undo each other.
pub proof fn law_next_prev_inverse(p: Panel)
    ensures
        p.next_spec().prev_spec() == p,
        p.prev_spec().next_spec() == p,
{
}

/// Four Tab presses visit every panel once and come back to the start.
pub proof fn law_tab_cycle(p: Panel)
    ensures
        p.next_spec().next_spec().next_spec().next_spec() == p,
        p.next_spec() != p,
        p.next_spec().next_spec() != p,
        p.next_spec().next_spec().next_spec() != p,
{
}

/// A spatial move that leaves its panel is undone by the opposite move; at
/// the edge a move stays put.
pub proof fn law_spatial_moves(p: Panel)
    ensures
        p.right_spec() != p ==> p.right_spec().left_spec() == p,
        p.left_spec() != p ==> p.left_spec().right_spec() == p,
        p.down_spec() != p ==> p.down_spec().up_spec() == p,
        p.up_spec() != p ==> p.up_spec().down_spec() == p,
        p.right_spec().right_spec() == p.right_spec(),
        p.left_spec().left_spec() == p.left_spec(),
        p.down_spec().down_spec() == p.down_spec(),
        p.up_spec().up_spec() == p.up_spec(),
{
}

/// Current panel layout — used to interpret Shift+arrow moves (rendering updates it).
#[derive(Clone, Copy, PartialEq, Eq, Debug, Structural)]
pub enum LayoutKind {
    /// 2×2 grid — arrow keys move spatially (up/down/left/right).
    Grid,
    /// Horizontal 4 columns (4×1) — only left/right matter, up/down ignored.
    Cols,
    /// Vertical 4 rows (1×4) — only up/down matter, left/right ignored.
    Rows,
}

// ─── change detection ────────────────────────────────────────────────────────

/// `(key, signature)` pairs as plain text.
pub open spec fn pair_views(v: Seq<(String, String)>) -> Seq<(Seq<char>, Seq<char>)> {
    v.map_values(|p: (String, String)| (p.0@, p.1@))
}

/// The signature recorded for `k` (the last pair with that key wins).
pub open spec fn sig_lookup(pairs: Seq<(Seq<char>, Seq<char>)>, k: Seq<char>) -> Option<Seq<char>>
    decreases pairs.len(),
{
    if pairs.len() == 0 {
        None
    } else if pairs.last().0 == k {
        Some(pairs.last().1)
    } else {
        sig_lookup(pairs.drop_last(), k)
    }
}

/// `k` is the key of an item that is new (absent before) or whose signature changed.
pub open spec fn is_new_or_changed(
    old: Seq<(Seq<char>, Seq<char>)>,
    items: Seq<(Seq<char>, Seq<char>)>,
    k: Seq<char>,
) -> bool {
    exists|i: int|
        0 <= i < items.len() && (#[trigger] items[i]).0 == k && sig_lookup(old, k) != Some(
            items[i].1,
        )
}

/// Tracks which keys are new/changed relative to the previous fetch.
pub struct Tracker {
    pub sigs: Vec<(String, String)>,
    pub initialized: bool,
}

impl Default for Tracker {
    fn default() -> (t: Tracker)
        ensures
            t.sigs@.len() == 0,
            !t.initialized,
    {
        Tracker { sigs: Vec::new(), initialized: false }
    }
}

fn last_with_key(pairs: &Vec<(String, String)>, k: &String) -> (r: Option<usize>)
    ensures
        match r {
            Some(j) => j < pairs@.len() && pairs@[j as int].0@ == k@ && sig_lookup(
                pair_views(pairs@),
                k@,
            ) == Some(pairs@[j as int].1@),
            None => sig_lookup(pair_views(pairs@), k@) is None,
        },
{
    let ghost pv = pair_views(pairs@);
    let mut i = pairs.len();
    assert(pv.take(i as int) =~= pv);
    while i > 0
        invariant
            i <= pairs@.len(),
            pv == pair_views(pairs@),
            sig_lookup(pv, k@) == sig_lookup(pv.take(i as int), k@),
        decreases i,
    {
        let ghost t = pv.take(i as int);
        if pairs[i - 1].0 == *k {
            assert(t.last() == pv[i - 1]);
            return Some(i - 1);
        }
        assert(t.drop_last() =~= pv.take(i - 1));
        i -= 1;
    }
    assert(pv.take(0) =~= Seq::<(Seq<char>, Seq<char>)>::empty());
    None
}

/// Whether `v` holds a string equal to `s`.
pub fn contains_string(v: &Vec<String>, s: &String) -> (b: bool)
    ensures
        b == v.deep_view().contains(s@),
{
    let mut i: usize = 0;
    while i < v.len()
        invariant
            i <= v@.len(),
            forall|j: int| 0 <= j < i ==> v@[j]@ != s@,
        decreases v@.len() - i,
    {
        if v[i] == *s {
            assert(v.deep_view()[i as int] == s@);
            return true;
        }
        i += 1;
    }
    assert forall|j: int| 0 <= j < v.deep_view().len() implies v.deep_view()[j] != s@ by {
        assert(v.deep_view()[j] == v@[j]@);
    }
    false
}

impl Tracker {
    /// Takes the new `(key, signature)` list and returns the keys that are new
    /// (previously absent) or changed (differing signature), each once.
    /// The first load only records the baseline and highlights nothing.
    pub fn diff(&mut self, items: Vec<(String, String)>) -> (r: Vec<String>)
        ensures
            final(self).initialized,
            pair_views(final(self).sigs@) == pair_views(items@),
            r.deep_view().no_duplicates(),
            forall|k: Seq<char>|
                #![trigger r.deep_view().contains(k)]
                r.deep_view().contains(k) <==> (old(self).initialized && is_new_or_changed(
                    pair_views(old(self).sigs@),
                    pair_views(items@),
                    k,
                )),
    {
        let mut changed: Vec<String> = Vec::new();
        let ghost old_pv = pair_views(self.sigs@);
        let ghost iv = pair_views(items@);
        if self.initialized {
            let mut i: usize = 0;
            while i < items.len()
                invariant
                    i <= items@.len(),
                    old_pv == pair_views(self.sigs@),
                    iv == pair_views(items@),
                    changed.deep_view().no_duplicates(),
                    forall|k: Seq<char>|
                        #![trigger changed.deep_view().contains(k)]
                        changed.deep_view().contains(k) <==> exists|j: int|
                            0 <= j < i && (#[trigger] iv[j]).0 == k && sig_lookup(old_pv, k)
                                != Some(iv[j].1),
                decreases items@.len() - i,
            {
                let k = &items[i].0;
                let is_changed = match last_with_key(&self.sigs, k) {
                    None => true,
                    Some(j) => !(self.sigs[j].1 == items[i].1),
                };
                assert(iv[i as int] == (k@, items@[i as int].1@));
                let ghost before = changed.deep_view();
                if is_changed && !contains_string(&changed, k) {
                    changed.push(k.clone());
                    proof {
                        assert(changed.deep_view() =~= before.push(k@));
                        assert forall|a: int, b: int|
                            0 <= a < b < changed.deep_view().len() implies changed.deep_view()[a]
                            != changed.deep_view()[b] by {
                            if b == before.len() {
                                assert(before[a] == changed.deep_view()[a]);
                            } else {
                                assert(before[a] == changed.deep_view()[a]);
                                assert(before[b] == changed.deep_view()[b]);
                            }
                        }
                    }
                }
                proof {
                    assert forall|key: Seq<char>|
                        #![trigger changed.deep_view().contains(key)]
                        changed.deep_view().contains(key) <==> exists|j: int|
                            0 <= j < i + 1 && (#[trigger] iv[j]).0 == key && sig_lookup(
                                old_pv,
                                key,
                            ) != Some(iv[j].1) by {
                        if changed.deep_view().contains(key) {
                            if before.contains(key) {
                            } else {
                                assert(key == k@);
                                assert(iv[i as int].0 == key);
                            }
                        }
                        if exists|j: int|
                            0 <= j < i + 1 && (#[trigger] iv[j]).0 == key && sig_lookup(
                                old_pv,
                                key,
                            ) != Some(iv[j].1) {
                            let j = choose|j: int|
                                0 <= j < i + 1 && (#[trigger] iv[j]).0 == key && sig_lookup(
                                    old_pv,
                                    key,
                                ) != Some(iv[j].1);
                            if j == i {
                                if !before.contains(key) {
                                    assert(changed.deep_view().last() == key);
                                    assert(changed.deep_view().contains(key));
                                }
                            }
                            if before.contains(key) {
                                let m = choose|m: int| 0 <= m < before.len() && before[m] == key;
                                assert(changed.deep_view()[m] == key);
                            }
                        }
                    }
                }
                i += 1;
            }
        } else {
            self.initialized = true;
        }
        self.sigs = items;
        changed
    }
}

/// Diffing the same list twice in a row highlights nothing the second time,
/// when every key occurs once.
pub proof fn law_rediff_highlights_nothing(pairs: Seq<(Seq<char>, Seq<char>)>, k: Seq<char>)
    requires
        forall|i: int, j: int| 0 <= i < j < pairs.len() ==> pairs[i].0 != pairs[j].0,
    ensures
        !is_new_or_changed(pairs, pairs, k),
{
    if is_new_or_changed(pairs, pairs, k) {
        let i = choose|i: int|
            0 <= i < pairs.len() && (#[trigger] pairs[i]).0 == k && sig_lookup(pairs, k) != Some(
                pairs[i].1,
            );
        lemma_lookup_unique(pairs, i);
    }
}

/// A PR whose update time moved since the last poll is marked as changed:
/// when the previous poll recorded `before`'s signature under the PR's key and
/// the PR now carries another update time, the diff reports its key.
pub proof fn law_updated_pr_marked_changed(
    old: Seq<(Seq<char>, Seq<char>)>,
    before: Pr,
    items: Seq<Pr>,
    k: int,
)
    requires
        0 <= k < items.len(),
        sig_lookup(old, items[k].key_view()) == Some(before.signature_view()),
        before.updated_at@ != items[k].updated_at@,
        !or_empty(before.review_decision).contains(':'),
        !or_empty(items[k].review_decision).contains(':'),
    ensures
        is_new_or_changed(old, entry_pairs(items), items[k].key_view()),
{
    law_pr_signature_tells_updates(before, items[k]);
    let pairs = entry_pairs(items);
    assert(pairs[k] == (items[k].key_view(), items[k].signature_view()));
    assert(sig_lookup(old, items[k].key_view()) != Some(pairs[k].1));
}

proof fn lemma_lookup_unique(pairs: Seq<(Seq<char>, Seq<char>)>, i: int)
    requires
        0 <= i < pairs.len(),
        forall|a: int, b: int| 0 <= a < b < pairs.len() ==> pairs[a].0 != pairs[b].0,
    ensures
        sig_lookup(pairs, pairs[i].0) == Some(pairs[i].1),
    decreases pairs.len(),
{
    if i < pairs.len() - 1 {
        assert(pairs.last() == pairs[pairs.len() - 1]);
        let d = pairs.drop_last();
        assert(d[i] == pairs[i]);
        lemma_lookup_unique(d, i);
    }
}

// ─── per-panel data ──────────────────────────────────────────────────────────

/// Indices of the items that pass the query (all of them for an empty query).
pub open spec fn filter_indices<T: Entry>(items: Seq<T>, q: Seq<char>) -> Seq<int>
    decreases items.len(),
{
    if items.len() == 0 {
        Seq::empty()
    } else {
        let rest = filter_indices(items.drop_last(), q);
        if q.len() == 0 || contains_seq(items.last().search_view(), q) {
            rest.push(items.len() - 1)
        } else {
            rest
        }
    }
}

/// `(key, signature)` of every item.
pub open spec fn entry_pairs<T: Entry>(items: Seq<T>) -> Seq<(Seq<char>, Seq<char>)> {
    items.map_values(|t: T| (t.key_view(), t.signature_view()))
}

/// Selection kept inside a list of `n` visible rows.
pub open spec fn clamp_sel(sel: Option<usize>, n: nat) -> Option<usize> {
    if n == 0 {
        None
    } else {
        let cur = match sel {
            Some(s) => s as int,
            None => 0,
        };
        Some((if cur <= n - 1 { cur } else { n - 1 }) as usize)
    }
}

/// `x` kept within `[lo, hi]`.
pub open spec fn clamp_int(x: int, lo: int, hi: int) -> int {
    if x < lo {
        lo
    } else if x > hi {
        hi
    } else {
        x
    }
}

/// Bundles one panel's data, filter, selection, error, and highlighted keys.
pub struct PanelData<T> {
    pub items: Vec<T>,
    /// Indices into `items` that pass the filter (all indices if no filter).
    pub filtered: Vec<usize>,
    /// Search filter string. Empty string means no filter.
    pub filter: String,
    /// Keys marked new/changed by the last update, each once.
    pub highlighted: Vec<String>,
    pub tracker: Tracker,
    /// Selected row of the visible list.
    pub selected: Option<usize>,
    pub error: Option<String>,
    pub loaded: bool,
}

impl<T: Entry> PanelData<T> {
    pub open spec fn filtered_view(&self) -> Seq<int> {
        self.filtered@.map_values(|i: usize| i as int)
    }

    /// The lowercased filter text.
    pub open spec fn query(&self) -> Seq<char> {
        spec_lowercase(self.filter@)
    }

    /// `filtered` and `selected` follow `filter` over `items`.
    pub open spec fn view_consistent(&self) -> bool {
        &&& self.filtered_view() == filter_indices(self.items@, self.query())
        &&& self.selected == clamp_sel(self.selected, self.filtered@.len())
    }

    /// Same items, highlights, tracker, error and load state.
    pub open spec fn same_data(&self, other: &Self) -> bool {
        &&& self.items == other.items
        &&& self.highlighted == other.highlighted
        &&& self.tracker == other.tracker
        &&& self.error == other.error
        &&& self.loaded == other.loaded
    }

    /// `new` is `old` with its filter set to `f`, the visible list recomputed
    /// and the selection clamped into it.
    pub open spec fn filter_applied(old: Self, new: Self, f: Seq<char>) -> bool {
        &&& new.filter@ == f
        &&& new.same_data(&old)
        &&& new.filtered_view() == filter_indices(old.items@, spec_lowercase(f))
        &&& new.selected == clamp_sel(old.selected, new.filtered@.len())
    }

    /// `new` is `old` after a scroll by `delta` rows.
    pub open spec fn scrolled(old: Self, new: Self, delta: int) -> bool {
        &&& new.items == old.items
        &&& new.filtered == old.filtered
        &&& new.filter == old.filter
        &&& new.same_data(&old)
        &&& new.selected == if old.filtered@.len() == 0 {
            old.selected
        } else {
            Some(
                clamp_int(
                    (match old.selected {
                        Some(s) => s as int,
                        None => 0,
                    }) + delta,
                    0,
                    old.filtered@.len() - 1,
                ) as usize,
            )
        }
    }

    pub fn new() -> (p: Self)
        ensures
            p.items@.len() == 0,
            p.filtered@.len() == 0,
            p.filter@.len() == 0,
            p.highlighted@.len() == 0,
            p.tracker.sigs@.len() == 0,
            !p.tracker.initialized,
            p.selected is None,
            p.error is None,
            !p.loaded,
    {
        PanelData {
            items: Vec::new(),
            filtered: Vec::new(),
            filter: String::new(),
            highlighted: Vec::new(),
            tracker: Tracker::default(),
            selected: None,
            error: None,
            loaded: false,
        }
    }

    /// Updates with new data, computes new/changed keys, then re-applies the filter.
    pub fn update(&mut self, items: Vec<T>)
        ensures
            final(self).items == items,
            final(self).loaded,
            final(self).error is None,
            final(self).filter == old(self).filter,
            final(self).tracker.initialized,
            pair_views(final(self).tracker.sigs@) == entry_pairs(items@),
            final(self).highlighted.deep_view().no_duplicates(),
            forall|k: Seq<char>|
                #![trigger final(self).highlighted.deep_view().contains(k)]
                final(self).highlighted.deep_view().contains(k) <==> (
                old(self).tracker.initialized && is_new_or_changed(
                    pair_views(old(self).tracker.sigs@),
                    entry_pairs(items@),
                    k,
                )),
            final(self).filtered_view() == filter_indices(items@, old(self).query()),
            final(self).selected == clamp_sel(old(self).selected, final(self).filtered@.len()),
    {
        let mut pairs: Vec<(String, String)> = Vec::new();
        let mut i: usize = 0;
        while i < items.len()
            invariant
                i <= items@.len(),
                pair_views(pairs@) == entry_pairs(items@.take(i as int)),
            decreases items@.len() - i,
        {
            let ghost before = pair_views(pairs@);
            pairs.push((items[i].key(), items[i].signature()));
            assert(pair_views(pairs@) =~= before.push(
                (items@[i as int].key_view(), items@[i as int].signature_view()),
            ));
            assert(items@.take(i + 1) =~= items@.take(i as int).push(items@[i as int]));
            assert(pair_views(pairs@) =~= entry_pairs(items@.take(i + 1)));
            i += 1;
        }
        assert(items@.take(i as int) =~= items@);
        self.highlighted = self.tracker.diff(pairs);
        self.items = items;
        self.loaded = true;
        self.error = None;
        self.recompute_filter();
    }

    /// Records a failed fetch.
    pub fn fail(&mut self, e: String)
        ensures
            *final(self) == (PanelData { error: Some(e), loaded: true, ..*old(self) }),
    {
        self.error = Some(e);
        self.loaded = true;
    }

    /// Sets the search filter and recomputes the visible list.
    pub fn set_filter(&mut self, filter: String)
        ensures
            Self::filter_applied(*old(self), *final(self), filter@),
            final(self).filter == filter,
    {
        self.filter = filter;
        self.recompute_filter();
    }

    /// Rebuilds the `filtered` indices to match `filter` (case-insensitive substring).
    pub fn recompute_filter(&mut self)
        ensures
            final(self).filter == old(self).filter,
            final(self).same_data(&*old(self)),
            final(self).filtered_view() == filter_indices(old(self).items@, old(self).query()),
            final(self).selected == clamp_sel(old(self).selected, final(self).filtered@.len()),
    {
        let q = to_lowercase(self.filter.as_str());
        let empty = q.as_str().is_empty();
        let mut out: Vec<usize> = Vec::new();
        let mut i: usize = 0;
        while i < self.items.len()
            invariant
                i <= self.items@.len(),
                q@ == self.query(),
                empty == (q@.len() == 0),
                out@.map_values(|x: usize| x as int) == filter_indices(
                    self.items@.take(i as int),
                    q@,
                ),
            decreases self.items@.len() - i,
        {
            let ghost before = out@.map_values(|x: usize| x as int);
            let keep = empty || contains(self.items[i].search_text().as_str(), q.as_str());
            let ghost t = self.items@.take(i + 1);
            assert(t.drop_last() =~= self.items@.take(i as int));
            assert(t.last() == self.items@[i as int]);
            if keep {
                out.push(i);
                assert(out@.map_values(|x: usize| x as int) =~= before.push(i as int));
            }
            i += 1;
        }
        assert(self.items@.take(i as int) =~= self.items@);
        self.filtered = out;
        self.clamp_selection();
    }

    /// Clamps the selection index into the visible list range.
    pub fn clamp_selection(&mut self)
        ensures
            *final(self) == (PanelData {
                selected: clamp_sel(old(self).selected, old(self).filtered@.len()),
                ..*old(self)
            }),
    {
        if self.filtered.len() == 0 {
            self.selected = None;
        } else {
            let last = self.filtered.len() - 1;
            let cur = match self.selected {
                Some(s) => s,
                None => 0,
            };
            self.selected = Some(
                if cur <= last {
                    cur
                } else {
                    last
                },
            );
        }
    }

    /// Scrolls one step up/down in the focused panel (based on the visible list).
    pub fn scroll(&mut self, delta: isize)
        ensures
            Self::scrolled(*old(self), *final(self), delta as int),
            *final(self) == (PanelData { selected: final(self).selected, ..*old(self) }),
    {
        if self.filtered.len() == 0 {
            return;
        }
        let last = self.filtered.len() - 1;
        let cur: i128 = match self.selected {
            Some(s) => s as i128,
            None => 0,
        };
        let next: i128 = cur + delta as i128;
        let v: usize = if next < 0 {
            0
        } else if next > last as i128 {
            last
        } else {
            next as usize
        };
        self.selected = Some(v);
    }

    /// Number of items marked as new/changed.
    pub fn highlight_count(&self) -> (n: usize)
        ensures
            n == self.highlighted@.len(),
    {
        self.highlighted.len()
    }

    /// Whether a filter is active.
    pub fn is_filtered(&self) -> (b: bool)
        ensures
            b == (self.filter@.len() > 0),
    {
        !self.filter.as_str().is_empty()
    }

    /// Number of visible (filter-passing) items.
    pub fn visible_count(&self) -> (n: usize)
        ensures
            n == self.filtered@.len(),
    {
        self.filtered.len()
    }

    /// Whether row `pos` of the visible list names an item.
    pub open spec fn has_visible(&self, pos: int) -> bool {
        0 <= pos < self.filtered@.len() && self.filtered@[pos] < self.items@.len()
    }

    /// Reference to the `pos`-th item in the visible list.
    pub fn visible_item(&self, pos: usize) -> (r: Option<&T>)
        ensures
            match r {
                Some(x) => self.has_visible(pos as int) && *x == self.items@[self.filtered@[pos as int] as int],
                None => !self.has_visible(pos as int),
            },
    {
        if pos < self.filtered.len() {
            let idx = self.filtered[pos];
            if idx < self.items.len() {
                return Some(&self.items[idx]);
            }
        }
        None
    }

    /// The row the selection points at (the first row when nothing is selected).
    pub open spec fn selected_pos(&self) -> int {
        match self.selected {
            Some(s) => s as int,
            None => 0,
        }
    }

    /// Currently selected item (first item if none selected, None if empty).
    pub fn selected_item(&self) -> (r: Option<&T>)
        ensures
            match r {
                Some(x) => self.has_visible(self.selected_pos()) && *x == self.items@[self.filtered@[self.selected_pos()] as int],
                None => !self.has_visible(self.selected_pos()),
            },
    {
        let pos = match self.selected {
            Some(s) => s,
            None => 0,
        };
        self.visible_item(pos)
    }
}


// ─── detail modal ────────────────────────────────────────────────────────────

/// Detail preview modal state.
pub struct Detail {
    pub title: String,
    pub url: String,
    /// Rendered body lines (markdown or plain).
    pub lines: Vec<TextLine>,
    pub loading: bool,
    /// Whether the run is in progress and being auto-refreshed (follow).
    pub following: bool,
    pub scroll: u16,
    /// For follow re-requests — which item.
    pub kind: DetailKind,
    pub follow_ticks: u32,
    /// Generation of this modal's content. Responses with a different epoch are ignored.
    pub epoch: u64,
}

impl Detail {
    /// A modal that waits for its body.
    pub fn loading(title: String, url: String, kind: DetailKind, epoch: u64) -> (d: Detail)
        ensures
            d.title == title,
            d.url == url,
            d.lines@.len() == 0,
            d.loading,
            !d.following,
            d.scroll == 0,
            d.kind == kind,
            d.follow_ticks == 0,
            d.epoch == epoch,
    {
        Detail {
            title,
            url,
            lines: Vec::new(),
            loading: true,
            following: false,
            scroll: 0,
            kind,
            follow_ticks: 0,
            epoch,
        }
    }
}

/// A copy of a detail kind.
pub fn clone_kind(k: &DetailKind) -> (r: DetailKind)
    ensures
        r == *k,
{
    match k {
        DetailKind::Run { id, log } => DetailKind::Run { id: *id, log: *log },
        DetailKind::Issue { number } => DetailKind::Issue { number: *number },
        DetailKind::Pr { number } => DetailKind::Pr { number: *number },
        DetailKind::Commit { sha } => DetailKind::Commit { sha: sha.clone() },
    }
}

/// The currently displayed overlay.
pub enum Modal {
    /// No overlay.
    Closed,
    Detail(Detail),
}

// ─── input and effects ───────────────────────────────────────────────────────

/// Key identity (the subset of terminal keys the app distinguishes).
#[derive(Clone, Copy, PartialEq, Eq, Debug, Structural)]
pub enum KeyCode {
    Char(char),
    Esc,
    Enter,
    Backspace,
    Tab,
    BackTab,
    Left,
    Right,
    Up,
    Down,
    PageUp,
    PageDown,
    Home,
    End,
    Other,
}

/// Press, auto-repeat or release.
#[derive(Clone, Copy, PartialEq, Eq, Debug, Structural)]
pub enum KeyKind {
    Press,
    Repeat,
    Release,
}

/// A key event with the modifiers the app reads.
#[derive(Clone, Copy, PartialEq, Eq, Debug, Structural)]
pub struct KeyInput {
    pub code: KeyCode,
    pub ctrl: bool,
    pub shift: bool,
    pub kind: KeyKind,
}

/// Terminal input: a key, or anything else (resize, mouse, focus…).
#[derive(Clone, Copy, PartialEq, Eq, Debug, Structural)]
pub enum InputEvent {
    Key(KeyInput),
    Other,
}

/// Outside work an input asks for, performed by the caller.
pub enum Effect {
    Nothing,
    /// A command for the polling loop.
    Fetch(FetchCmd),
    /// A detail request for the detail worker.
    Detail(DetailReq),
    /// Open a URL with the OS default handler.
    OpenUrl(String),
}

/// What a key does in the current mode.
#[derive(Clone, Copy, PartialEq, Eq, Debug, Structural)]
pub enum KeyAction {
    Quit,
    CloseModal,
    ModalScrollDown(u16),
    ModalScrollUp(u16),
    ModalTop,
    ModalBottom,
    ToggleLog,
    OpenModalUrl,
    SearchCancel,
    SearchConfirm,
    SearchBackspace,
    SearchType(char),
    FocusNext,
    FocusPrev,
    ShiftMove(KeyCode),
    ScrollPanel(isize),
    Refresh,
    StartSearch,
    SlowerInterval,
    FasterInterval,
    OpenSelected,
    OpenDetail,
    Ignore,
}

pub open spec fn is_char(k: KeyInput, c: char) -> bool {
    k.code == KeyCode::Char(c)
}

/// The key map: modal keys while a modal is open, editing keys while a search
/// is typed, panel keys otherwise.
pub open spec fn key_action(modal_open: bool, searching: bool, k: KeyInput) -> KeyAction {
    if modal_open {
        if k.code == KeyCode::Esc || is_char(k, 'q') || is_char(k, 'v') || k.code == KeyCode::Left {
            KeyAction::CloseModal
        } else if is_char(k, 'c') && k.ctrl {
            KeyAction::Quit
        } else if k.code == KeyCode::Down || is_char(k, 'j') {
            KeyAction::ModalScrollDown(1)
        } else if k.code == KeyCode::Up || is_char(k, 'k') {
            KeyAction::ModalScrollUp(1)
        } else if k.code == KeyCode::PageDown || is_char(k, ' ') {
            KeyAction::ModalScrollDown(15)
        } else if k.code == KeyCode::PageUp || is_char(k, 'b') {
            KeyAction::ModalScrollUp(15)
        } else if is_char(k, 'g') || k.code == KeyCode::Home {
            KeyAction::ModalTop
        } else if is_char(k, 'G') || k.code == KeyCode::End {
            KeyAction::ModalBottom
        } else if is_char(k, 'l') {
            KeyAction::ToggleLog
        } else if k.code == KeyCode::Enter || is_char(k, 'o') {
            KeyAction::OpenModalUrl
        } else {
            KeyAction::Ignore
        }
    } else if searching {
        if is_char(k, 'c') && k.ctrl {
            KeyAction::Quit
        } else if k.code == KeyCode::Esc {
            KeyAction::SearchCancel
        } else if k.code == KeyCode::Enter {
            KeyAction::SearchConfirm
        } else if k.code == KeyCode::Backspace {
            KeyAction::SearchBackspace
        } else if let KeyCode::Char(c) = k.code {
            KeyAction::SearchType(c)
        } else {
            KeyAction::Ignore
        }
    } else {
        if is_char(k, 'q') || k.code == KeyCode::Esc {
            KeyAction::Quit
        } else if is_char(k, 'c') && k.ctrl {
            KeyAction::Quit
        } else if k.code == KeyCode::Tab || is_char(k, 'l') {
            KeyAction::FocusNext
        } else if k.code == KeyCode::BackTab || is_char(k, 'h') {
            KeyAction::FocusPrev
        } else if (k.code == KeyCode::Left || k.code == KeyCode::Right || k.code == KeyCode::Up
            || k.code == KeyCode::Down) && k.shift {
            KeyAction::ShiftMove(k.code)
        } else if k.code == KeyCode::Down || is_char(k, 'j') {
            KeyAction::ScrollPanel(1)
        } else if k.code == KeyCode::Up || is_char(k, 'k') {
            KeyAction::ScrollPanel(-1isize)
        } else if is_char(k, 'r') {
            KeyAction::Refresh
        } else if is_char(k, '/') {
            KeyAction::StartSearch
        } else if is_char(k, '+') || is_char(k, '=') {
            KeyAction::SlowerInterval
        } else if is_char(k, '-') || is_char(k, '_') {
            KeyAction::FasterInterval
        } else if k.code == KeyCode::Enter || is_char(k, 'o') {
            KeyAction::OpenSelected
        } else if is_char(k, 'v') || k.code == KeyCode::Right {
            KeyAction::OpenDetail
        } else {
            KeyAction::Ignore
        }
    }
}

/// The key map, executable.
pub fn classify_key(modal_open: bool, searching: bool, k: KeyInput) -> (a: KeyAction)
    ensures
        a == key_action(modal_open, searching, k),
{
    let code = k.code;
    if modal_open {
        match code {
            KeyCode::Esc | KeyCode::Char('q') | KeyCode::Char('v') | KeyCode::Left => {
                KeyAction::CloseModal
            },
            KeyCode::Char('c') if k.ctrl => KeyAction::Quit,
            KeyCode::Down | KeyCode::Char('j') => KeyAction::ModalScrollDown(1),
            KeyCode::Up | KeyCode::Char('k') => KeyAction::ModalScrollUp(1),
            KeyCode::PageDown | KeyCode::Char(' ') => KeyAction::ModalScrollDown(15),
            KeyCode::PageUp | KeyCode::Char('b') => KeyAction::ModalScrollUp(15),
            KeyCode::Char('g') | KeyCode::Home => KeyAction::ModalTop,
            KeyCode::Char('G') | KeyCode::End => KeyAction::ModalBottom,
            KeyCode::Char('l') => KeyAction::ToggleLog,
            KeyCode::Enter | KeyCode::Char('o') => KeyAction::OpenModalUrl,
            _ => KeyAction::Ignore,
        }
    } else if searching {
        match code {
            KeyCode::Char('c') if k.ctrl => KeyAction::Quit,
            KeyCode::Esc => KeyAction::SearchCancel,
            KeyCode::Enter => KeyAction::SearchConfirm,
            KeyCode::Backspace => KeyAction::SearchBackspace,
            KeyCode::Char(c) => KeyAction::SearchType(c),
            _ => KeyAction::Ignore,
        }
    } else {
        match code {
            KeyCode::Char('q') | KeyCode::Esc => KeyAction::Quit,
            KeyCode::Char('c') if k.ctrl => KeyAction::Quit,
            KeyCode::Tab | KeyCode::Char('l') => KeyAction::FocusNext,
            KeyCode::BackTab | KeyCode::Char('h') => KeyAction::FocusPrev,
            KeyCode::Left if k.shift => KeyAction::ShiftMove(code),
            KeyCode::Right if k.shift => KeyAction::ShiftMove(code),
            KeyCode::Up if k.shift => KeyAction::ShiftMove(code),
            KeyCode::Down if k.shift => KeyAction::ShiftMove(code),
            KeyCode::Down | KeyCode::Char('j') => KeyAction::ScrollPanel(1),
            KeyCode::Up | KeyCode::Char('k') => KeyAction::ScrollPanel(-1),
            KeyCode::Char('r') => KeyAction::Refresh,
            KeyCode::Char('/') => KeyAction::StartSearch,
            KeyCode::Char('+') | KeyCode::Char('=') => KeyAction::SlowerInterval,
            KeyCode::Char('-') | KeyCode::Char('_') => KeyAction::FasterInterval,
            KeyCode::Enter | KeyCode::Char('o') => KeyAction::OpenSelected,
            KeyCode::Char('v') | KeyCode::Right => KeyAction::OpenDetail,
            _ => KeyAction::Ignore,
        }
    }
}

/// Where Shift+arrow moves the focus in a layout.
pub open spec fn shift_target(layout: LayoutKind, focus: Panel, code: KeyCode) -> Panel {
    match layout {
        LayoutKind::Grid => match code {
            KeyCode::Left => focus.left_spec(),
            KeyCode::Right => focus.right_spec(),
            KeyCode::Up => focus.up_spec(),
            KeyCode::Down => focus.down_spec(),
            _ => focus,
        },
        LayoutKind::Cols => match code {
            KeyCode::Left => focus.prev_spec(),
            KeyCode::Right => focus.next_spec(),
            _ => focus,
        },
        LayoutKind::Rows => match code {
            KeyCode::Up => focus.prev_spec(),
            KeyCode::Down => focus.next_spec(),
            _ => focus,
        },
    }
}

// ─── polling interval steps ──────────────────────────────────────────────────

/// Polling interval steps (seconds) cycled by `+`/`-`: 2 3 5 10 15 30 60 120 300.
pub open spec fn interval_step(i: int) -> u64 {
    if i <= 0 {
        2
    } else if i == 1 {
        3
    } else if i == 2 {
        5
    } else if i == 3 {
        10
    } else if i == 4 {
        15
    } else if i == 5 {
        30
    } else if i == 6 {
        60
    } else if i == 7 {
        120
    } else {
        300
    }
}

/// Index of the first step at or above `poll` (the last step when none is).
pub open spec fn step_index_of(poll: u64) -> int {
    if poll <= 2 {
        0
    } else if poll <= 3 {
        1
    } else if poll <= 5 {
        2
    } else if poll <= 10 {
        3
    } else if poll <= 15 {
        4
    } else if poll <= 30 {
        5
    } else if poll <= 60 {
        6
    } else if poll <= 120 {
        7
    } else {
        8
    }
}

/// The interval one step slower (`dir > 0`) or faster than `poll`.
pub open spec fn interval_after(poll: u64, dir: i32) -> u64 {
    let idx = step_index_of(poll);
    if dir > 0 {
        interval_step(if idx + 1 <= 8 { idx + 1 } else { 8 })
    } else {
        interval_step(if idx >= 1 { idx - 1 } else { 0 })
    }
}

fn step_value(i: usize) -> (v: u64)
    ensures
        v == interval_step(i as int),
{
    if i == 0 {
        2
    } else if i == 1 {
        3
    } else if i == 2 {
        5
    } else if i == 3 {
        10
    } else if i == 4 {
        15
    } else if i == 5 {
        30
    } else if i == 6 {
        60
    } else if i == 7 {
        120
    } else {
        300
    }
}

/// Every interval reached by `+`/`-` is one of the steps, within 2..=300 s.
pub proof fn law_interval_within_steps(poll: u64, dir: i32)
    ensures
        2 <= interval_after(poll, dir) <= 300,
        exists|i: int| 0 <= i <= 8 && interval_after(poll, dir) == interval_step(i),
{
    let idx = step_index_of(poll);
    if dir > 0 {
        let j = if idx + 1 <= 8 { idx + 1 } else { 8 };
        assert(interval_after(poll, dir) == interval_step(j));
    } else {
        let j = if idx >= 1 { idx - 1 } else { 0 };
        assert(interval_after(poll, dir) == interval_step(j));
    }
}

/// From a step, `+` never shortens and `-` never lengthens the interval;
/// `-` then `+` (and `+` then `-`) returns to the step, except at the ends.
pub proof fn law_interval_steps_monotone(i: int)
    requires
        0 <= i <= 8,
    ensures
        interval_after(interval_step(i), 1) >= interval_step(i),
        interval_after(interval_step(i), -1i32) <= interval_step(i),
        i < 8 ==> interval_after(interval_after(interval_step(i), 1i32), -1i32) == interval_step(i),
        i > 0 ==> interval_after(interval_after(interval_step(i), -1i32), 1i32) == interval_step(i),
        interval_after(interval_step(8), 1) == 300,
        interval_after(interval_step(0), -1i32) == 2,
{
}

// ─── the app ─────────────────────────────────────────────────────────────────

/// Which panel data backs the focused slot.
#[derive(Clone, Copy, PartialEq, Eq, Debug, Structural)]
pub enum Slot {
    Runs,
    Prs,
    Issues,
    Branches,
    Commits,
}

/// On Bitbucket the Branches panel is in the Issues slot.
pub open spec fn slot_of(focus: Panel, backend: Backend) -> Slot {
    match focus {
        Panel::Actions => Slot::Runs,
        Panel::Prs => Slot::Prs,
        Panel::Issues => if backend == Backend::Bitbucket {
            Slot::Branches
        } else {
            Slot::Issues
        },
        Panel::Commits => Slot::Commits,
    }
}

pub struct App {
    pub repo: String,
    pub runs: PanelData<Run>,
    pub prs: PanelData<Pr>,
    pub issues: PanelData<Issue>,
    /// Bitbucket-only — active branches shown in the Issues slot on Bitbucket.
    pub branches: PanelData<Branch>,
    pub commits: PanelData<Commit>,
    pub focus: Panel,
    /// Data source backend — used to split the 4th panel into Issues/Branches.
    pub backend: Backend,
    /// Current panel layout (rendering updates it) — for interpreting arrow moves.
    pub layout: LayoutKind,
    /// Clock text of the last panel refresh.
    pub last_refresh: Option<String>,
    pub poll_secs: u64,
    pub spinner: usize,
    pub should_quit: bool,
    pub modal: Modal,
    /// Color theme.
    pub theme: Theme,
    /// UI language.
    pub lang: Lang,
    /// Newer version available (set by the update notifier), shown in the header.
    pub update: Option<String>,
    /// Whether search input mode is active (targets the focused panel).
    pub search_active: bool,
    /// Search input buffer.
    pub search_buffer: String,
    /// Modal generation counter — incremented each time a modal opens or its content switches.
    pub detail_epoch: u64,
}

/// Same data in every panel.
pub open spec fn same_panels(a: App, b: App) -> bool {
    &&& a.runs == b.runs
    &&& a.prs == b.prs
    &&& a.issues == b.issues
    &&& a.branches == b.branches
    &&& a.commits == b.commits
}

/// The focused slot's panel of `new` is that of `old` with filter `f`
/// applied; the other panels are unchanged.
pub open spec fn slot_filter_applied(old: App, new: App, f: Seq<char>) -> bool {
    match slot_of(old.focus, old.backend) {
        Slot::Runs => PanelData::filter_applied(old.runs, new.runs, f) && new.prs == old.prs
            && new.issues == old.issues && new.branches == old.branches && new.commits
            == old.commits,
        Slot::Prs => PanelData::filter_applied(old.prs, new.prs, f) && new.runs == old.runs
            && new.issues == old.issues && new.branches == old.branches && new.commits
            == old.commits,
        Slot::Issues => PanelData::filter_applied(old.issues, new.issues, f) && new.runs
            == old.runs && new.prs == old.prs && new.branches == old.branches && new.commits
            == old.commits,
        Slot::Branches => PanelData::filter_applied(old.branches, new.branches, f) && new.runs
            == old.runs && new.prs == old.prs && new.issues == old.issues && new.commits
            == old.commits,
        Slot::Commits => PanelData::filter_applied(old.commits, new.commits, f) && new.runs
            == old.runs && new.prs == old.prs && new.issues == old.issues && new.branches
            == old.branches,
    }
}

/// The focused slot's panel of `new` is that of `old` scrolled by `delta`.
pub open spec fn slot_scrolled(old: App, new: App, delta: int) -> bool {
    match slot_of(old.focus, old.backend) {
        Slot::Runs => PanelData::scrolled(old.runs, new.runs, delta) && new == (App {
            runs: new.runs,
            ..old
        }),
        Slot::Prs => PanelData::scrolled(old.prs, new.prs, delta) && new == (App {
            prs: new.prs,
            ..old
        }),
        Slot::Issues => PanelData::scrolled(old.issues, new.issues, delta) && new == (App {
            issues: new.issues,
            ..old
        }),
        Slot::Branches => PanelData::scrolled(old.branches, new.branches, delta) && new == (App {
            branches: new.branches,
            ..old
        }),
        Slot::Commits => PanelData::scrolled(old.commits, new.commits, delta) && new == (App {
            commits: new.commits,
            ..old
        }),
    }
}

/// The item a panel's selection points at.
pub open spec fn selected_spec<T: Entry>(p: PanelData<T>) -> Option<T> {
    if p.has_visible(p.selected_pos()) {
        Some(p.items@[p.filtered@[p.selected_pos()] as int])
    } else {
        None
    }
}

/// A selected item: browser URL, modal title and detail request.
pub struct Selection {
    pub url: String,
    pub title: String,
    pub kind: DetailKind,
}

/// `(url, title, kind)` of the selected item.
pub type SelectionView = (Seq<char>, Seq<char>, DetailKind);

impl App {
    pub open spec fn slot(&self) -> Slot {
        slot_of(self.focus, self.backend)
    }

    /// The filter of the focused slot's panel.
    pub open spec fn focused_filter_spec(&self) -> Seq<char> {
        match self.slot() {
            Slot::Runs => self.runs.filter@,
            Slot::Prs => self.prs.filter@,
            Slot::Issues => self.issues.filter@,
            Slot::Branches => self.branches.filter@,
            Slot::Commits => self.commits.filter@,
        }
    }

    /// URL, modal title and detail kind of the focused panel's selected item.
    pub open spec fn selection_spec(&self) -> Option<SelectionView> {
        match self.slot() {
            Slot::Runs => match selected_spec(self.runs) {
                Some(r) => Some(
                    (
                        r.url@,
                        "⚙ "@ + r.workflow_name@ + " · "@ + r.display_title@,
                        DetailKind::Run { id: r.database_id, log: false },
                    ),
                ),
                None => None,
            },
            Slot::Prs => match selected_spec(self.prs) {
                Some(p) => Some(
                    (
                        p.url@,
                        "⑃ #"@ + decimal(p.number as nat) + " "@ + p.title@,
                        DetailKind::Pr { number: p.number },
                    ),
                ),
                None => None,
            },
            Slot::Branches => match selected_spec(self.branches) {
                Some(b) => Some(
                    (b.url@, "⌥ "@ + b.name@, DetailKind::Commit { sha: b.commit_sha }),
                ),
                None => None,
            },
            Slot::Issues => match selected_spec(self.issues) {
                Some(i) => Some(
                    (
                        i.url@,
                        "◎ #"@ + decimal(i.number as nat) + " "@ + i.title@,
                        DetailKind::Issue { number: i.number },
                    ),
                ),
                None => None,
            },
            Slot::Commits => match selected_spec(self.commits) {
                Some(c) => Some(
                    (
                        c.html_url@,
                        "⎇ "@ + c.short_sha_spec() + " "@ + c.summary_spec(),
                        DetailKind::Commit { sha: c.sha },
                    ),
                ),
                None => None,
            },
        }
    }

    /// Any run that is neither completed nor paused at a gate.
    pub open spec fn has_active_runs_spec(&self) -> bool {
        exists|i: int|
            0 <= i < self.runs.items@.len() && (#[trigger] self.runs.items@[i]).status@
                != "completed"@ && self.runs.items@[i].status@ != "waiting"@
    }

    pub fn new(repo: String, backend: Backend, poll_secs: u64, theme: Theme, lang: Lang) -> (a: App)
        ensures
            a.repo == repo,
            a.backend == backend,
            a.poll_secs == poll_secs,
            a.theme == theme,
            a.lang == lang,
            a.focus == Panel::Actions,
            a.layout == LayoutKind::Grid,
            a.last_refresh is None,
            a.spinner == 0,
            !a.should_quit,
            a.modal is Closed,
            a.update is None,
            !a.search_active,
            a.search_buffer@.len() == 0,
            a.detail_epoch == 0,
            !a.runs.loaded && a.runs.items@.len() == 0 && a.runs.filter@.len() == 0,
            !a.prs.loaded && a.prs.items@.len() == 0 && a.prs.filter@.len() == 0,
            !a.issues.loaded && a.issues.items@.len() == 0 && a.issues.filter@.len() == 0,
            !a.branches.loaded && a.branches.items@.len() == 0 && a.branches.filter@.len() == 0,
            !a.commits.loaded && a.commits.items@.len() == 0 && a.commits.filter@.len() == 0,
    {
        App {
            repo,
            runs: PanelData::new(),
            prs: PanelData::new(),
            issues: PanelData::new(),
            branches: PanelData::new(),
            commits: PanelData::new(),
            focus: Panel::Actions,
            backend,
            layout: LayoutKind::Grid,
            last_refresh: None,
            poll_secs,
            spinner: 0,
            should_quit: false,
            modal: Modal::Closed,
            theme,
            lang,
            update: None,
            search_active: false,
            search_buffer: String::new(),
            detail_epoch: 0,
        }
    }

    /// Whether any workflow run is in progress (condition for showing the header spinner).
    /// `waiting` is a manual/approval gate, not active work.
    pub fn has_active_runs(&self) -> (b: bool)
        ensures
            b == self.has_active_runs_spec(),
    {
        let mut i: usize = 0;
        while i < self.runs.items.len()
            invariant
                i <= self.runs.items@.len(),
                forall|j: int|
                    0 <= j < i ==> ((#[trigger] self.runs.items@[j]).status@ == "completed"@
                        || self.runs.items@[j].status@ == "waiting"@),
            decreases self.runs.items@.len() - i,
        {
            let st = self.runs.items[i].status.as_str();
            if !crate::text::str_eq(st, "completed") && !crate::text::str_eq(st, "waiting") {
                return true;
            }
            i += 1;
        }
        false
    }

    /// The focused slot's filter.
    pub fn focused_filter(&self) -> (r: String)
        ensures
            r@ == self.focused_filter_spec(),
    {
        match self.focus {
            Panel::Actions => self.runs.filter.clone(),
            Panel::Prs => self.prs.filter.clone(),
            Panel::Issues => if self.backend == Backend::Bitbucket {
                self.branches.filter.clone()
            } else {
                self.issues.filter.clone()
            },
            Panel::Commits => self.commits.filter.clone(),
        }
    }

    /// Applies the current input buffer as the focused panel's filter.
    pub fn apply_search(&mut self)
        ensures
            slot_filter_applied(*old(self), *final(self), old(self).search_buffer@),
            *final(self) == (App {
                runs: final(self).runs,
                prs: final(self).prs,
                issues: final(self).issues,
                branches: final(self).branches,
                commits: final(self).commits,
                ..*old(self)
            }),
    {
        let q = self.search_buffer.clone();
        match self.focus {
            Panel::Actions => self.runs.set_filter(q),
            Panel::Prs => self.prs.set_filter(q),
            Panel::Issues => if self.backend == Backend::Bitbucket {
                self.branches.set_filter(q)
            } else {
                self.issues.set_filter(q)
            },
            Panel::Commits => self.commits.set_filter(q),
        }
    }

    /// Scrolls the focused panel by one row.
    pub fn focused_panel_scroll(&mut self, delta: isize)
        ensures
            slot_scrolled(*old(self), *final(self), delta as int),
    {
        match self.focus {
            Panel::Actions => self.runs.scroll(delta),
            Panel::Prs => self.prs.scroll(delta),
            Panel::Issues => if self.backend == Backend::Bitbucket {
                self.branches.scroll(delta)
            } else {
                self.issues.scroll(delta)
            },
            Panel::Commits => self.commits.scroll(delta),
        }
    }

    /// Starts search input for the focused panel (continues editing the existing filter).
    pub fn start_search(&mut self)
        ensures
            final(self).search_buffer@ == old(self).focused_filter_spec(),
            *final(self) == (App {
                search_buffer: final(self).search_buffer,
                search_active: true,
                ..*old(self)
            }),
    {
        self.search_buffer = self.focused_filter();
        self.search_active = true;
    }

    /// Interprets Shift+arrow moves according to the current layout.
    /// - Grid (2×2): spatial up/down/left/right moves
    /// - Cols (4×1, horizontal): left/right only (up/down ignored)
    /// - Rows (1×4, vertical): up/down only (left/right ignored)
    pub fn shift_move(&mut self, code: KeyCode)
        ensures
            *final(self) == (App {
                focus: shift_target(old(self).layout, old(self).focus, code),
                ..*old(self)
            }),
    {
        self.focus = match (self.layout, code) {
            (LayoutKind::Grid, KeyCode::Left) => self.focus.left(),
            (LayoutKind::Grid, KeyCode::Right) => self.focus.right(),
            (LayoutKind::Grid, KeyCode::Up) => self.focus.up(),
            (LayoutKind::Grid, KeyCode::Down) => self.focus.down(),
            (LayoutKind::Cols, KeyCode::Left) => self.focus.prev(),
            (LayoutKind::Cols, KeyCode::Right) => self.focus.next(),
            (LayoutKind::Rows, KeyCode::Up) => self.focus.prev(),
            (LayoutKind::Rows, KeyCode::Down) => self.focus.next(),
            _ => self.focus,
        };
    }

    /// Adjusts the polling interval by one step (dir>0: slower/longer, dir<0: faster/shorter).
    /// On change, asks the fetcher for the new interval (it refreshes at once).
    pub fn adjust_interval(&mut self, dir: i32) -> (e: Effect)
        ensures
            ({
                let n = interval_after(old(self).poll_secs, dir);
                if n != old(self).poll_secs {
                    *final(self) == (App { poll_secs: n, ..*old(self) }) && e == Effect::Fetch(
                        FetchCmd::SetInterval(n),
                    )
                } else {
                    *final(self) == *old(self) && e == Effect::Nothing
                }
            }),
    {
        let p = self.poll_secs;
        let idx: usize = if p <= 2 {
            0
        } else if p <= 3 {
            1
        } else if p <= 5 {
            2
        } else if p <= 10 {
            3
        } else if p <= 15 {
            4
        } else if p <= 30 {
            5
        } else if p <= 60 {
            6
        } else if p <= 120 {
            7
        } else {
            8
        };
        let new_idx = if dir > 0 {
            if idx + 1 <= 8 {
                idx + 1
            } else {
                8
            }
        } else {
            if idx >= 1 {
                idx - 1
            } else {
                0
            }
        };
        let new_secs = step_value(new_idx);
        if new_secs != self.poll_secs {
            self.poll_secs = new_secs;
            Effect::Fetch(FetchCmd::SetInterval(new_secs))
        } else {
            Effect::Nothing
        }
    }

    /// The URL and detail info of the item selected in the focused panel.
    pub fn current_selection(&self) -> (r: Option<Selection>)
        ensures
            match r {
                Some(s) => self.selection_spec() == Some((s.url@, s.title@, s.kind)),
                None => self.selection_spec() is None,
            },
    {
        match self.focus {
            Panel::Actions => {
                let r = match self.runs.selected_item() {
                    Some(r) => r,
                    None => return None,
                };
                let mut title = owned("⚙ ");
                push_str(&mut title, r.workflow_name.as_str());
                push_str(&mut title, " · ");
                push_str(&mut title, r.display_title.as_str());
                Some(
                    Selection {
                        url: r.url.clone(),
                        title,
                        kind: DetailKind::Run { id: r.database_id, log: false },
                    },
                )
            },
            Panel::Prs => {
                let p = match self.prs.selected_item() {
                    Some(p) => p,
                    None => return None,
                };
                let mut title = owned("⑃ #");
                push_str(&mut title, u64_to_string(p.number).as_str());
                push_str(&mut title, " ");
                push_str(&mut title, p.title.as_str());
                Some(
                    Selection {
                        url: p.url.clone(),
                        title,
                        kind: DetailKind::Pr { number: p.number },
                    },
                )
            },
            Panel::Issues => if self.backend == Backend::Bitbucket {
                let b = match self.branches.selected_item() {
                    Some(b) => b,
                    None => return None,
                };
                let mut title = owned("⌥ ");
                push_str(&mut title, b.name.as_str());
                Some(
                    Selection {
                        url: b.url.clone(),
                        title,
                        kind: DetailKind::Commit { sha: b.commit_sha.clone() },
                    },
                )
            } else {
                let i = match self.issues.selected_item() {
                    Some(i) => i,
                    None => return None,
                };
                let mut title = owned("◎ #");
                push_str(&mut title, u64_to_string(i.number).as_str());
                push_str(&mut title, " ");
                push_str(&mut title, i.title.as_str());
                Some(
                    Selection {
                        url: i.url.clone(),
                        title,
                        kind: DetailKind::Issue { number: i.number },
                    },
                )
            },
            Panel::Commits => {
                let c = match self.commits.selected_item() {
                    Some(c) => c,
                    None => return None,
                };
                let mut title = owned("⎇ ");
                push_str(&mut title, c.short_sha().as_str());
                push_str(&mut title, " ");
                push_str(&mut title, c.summary().as_str());
                Some(
                    Selection {
                        url: c.html_url.clone(),
                        title,
                        kind: DetailKind::Commit { sha: c.sha.clone() },
                    },
                )
            },
        }
    }

    /// Opens the selected item in the default browser (nothing without a link).
    pub fn open_selected(&self) -> (e: Effect)
        ensures
            match self.selection_spec() {
                Some(sel) => if sel.0.len() > 0 {
                    e matches Effect::OpenUrl(u) && u@ == sel.0
                } else {
                    e is Nothing
                },
                None => e is Nothing,
            },
    {
        match self.current_selection() {
            Some(sel) => if sel.url.as_str().is_empty() {
                Effect::Nothing
            } else {
                Effect::OpenUrl(sel.url)
            },
            None => Effect::Nothing,
        }
    }

    /// `new` shows a freshly opened, loading modal for `sel` under the next
    /// modal generation, everything else unchanged.
    pub open spec fn opened_detail(old: App, new: App, sel: SelectionView) -> bool {
        &&& new.modal matches Modal::Detail(d) && {
            &&& d.url@ == sel.0
            &&& d.title@ == sel.1
            &&& d.kind == sel.2
            &&& d.lines@.len() == 0
            &&& d.loading
            &&& !d.following
            &&& d.scroll == 0
            &&& d.follow_ticks == 0
            &&& d.epoch == old.detail_epoch + 1
        }
        &&& new == (App { modal: new.modal, detail_epoch: (old.detail_epoch + 1) as u64, ..old })
    }

    /// Opens the detail preview modal for the selected item and requests its body.
    pub fn open_detail(&mut self) -> (e: Effect)
        requires
            old(self).detail_epoch < u64::MAX,
        ensures
            match old(self).selection_spec() {
                Some(sel) => App::opened_detail(*old(self), *final(self), sel) && e == Effect::Detail(
                    DetailReq {
                        repo: old(self).repo,
                        kind: sel.2,
                        epoch: (old(self).detail_epoch + 1) as u64,
                    },
                ),
                None => *final(self) == *old(self) && e is Nothing,
            },
    {
        match self.current_selection() {
            Some(sel) => {
                self.detail_epoch = self.detail_epoch + 1;
                let epoch = self.detail_epoch;
                let kind = clone_kind(&sel.kind);
                self.modal = Modal::Detail(Detail::loading(sel.title, sel.url, sel.kind, epoch));
                Effect::Detail(DetailReq { repo: self.repo.clone(), kind, epoch })
            },
            None => Effect::Nothing,
        }
    }
}


// ─── applying fetched data ───────────────────────────────────────────────────

/// A plain (non-markdown) body split into unstyled lines.
pub open spec fn plain_lines_spec(s: Seq<char>) -> Seq<(Seq<(Seq<char>, crate::theme::TextStyle)>, crate::theme::TextStyle)> {
    lines_seq(s).map_values(|l: Seq<char>| (seq![(l, plain_style())], plain_style()))
}

/// Converts a detail body string into plain lines (not markdown).
pub fn plain_lines(s: &str) -> (r: Vec<TextLine>)
    ensures
        lines_view(r@) == plain_lines_spec(s@),
{
    let ls = lines(s);
    let ghost lv = ls.deep_view();
    let mut out: Vec<TextLine> = Vec::new();
    let mut i: usize = 0;
    while i < ls.len()
        invariant
            i <= ls@.len(),
            lv == ls.deep_view(),
            lv == lines_seq(s@),
            lines_view(out@) == plain_lines_spec(s@).take(i as int),
        decreases ls@.len() - i,
    {
        let ghost before = lines_view(out@);
        let mut spans: Vec<TextSpan> = Vec::new();
        spans.push(TextSpan { text: ls[i].clone(), style: style_plain() });
        let line = TextLine { spans, style: style_plain() };
        out.push(line);
        proof {
            assert(crate::theme::spans_view(line.spans@) =~= seq![(lv[i as int], plain_style())]);
            assert(lines_view(out@) =~= before.push(crate::theme::line_view(line)));
            assert(plain_lines_spec(s@).take(i + 1) =~= plain_lines_spec(s@).take(i as int).push(
                plain_lines_spec(s@)[i as int],
            ));
        }
        i += 1;
    }
    assert(plain_lines_spec(s@).take(i as int) =~= plain_lines_spec(s@));
    out
}

impl<T: Entry> PanelData<T> {
    /// `new` is `old` after a successful fetch of `items`.
    pub open spec fn updated(old: Self, new: Self, items: Vec<T>) -> bool {
        &&& new.items == items
        &&& new.loaded
        &&& new.error is None
        &&& new.filter == old.filter
        &&& new.tracker.initialized
        &&& pair_views(new.tracker.sigs@) == entry_pairs(items@)
        &&& new.highlighted.deep_view().no_duplicates()
        &&& forall|k: Seq<char>|
            #![trigger new.highlighted.deep_view().contains(k)]
            new.highlighted.deep_view().contains(k) <==> (old.tracker.initialized
                && is_new_or_changed(pair_views(old.tracker.sigs@), entry_pairs(items@), k))
        &&& new.filtered_view() == filter_indices(items@, old.query())
        &&& new.selected == clamp_sel(old.selected, new.filtered@.len())
    }
}

/// The lines a detail response fills the modal with.
pub open spec fn detail_lines_spec(result: Result<DetailPayload, String>, lang: Lang, t: Theme) -> Seq<(Seq<(Seq<char>, crate::theme::TextStyle)>, crate::theme::TextStyle)> {
    match result {
        Ok(p) => if p.markdown {
            markdown::render_spec(markdown::spec_md_events(p.body@), t)
        } else {
            plain_lines_spec(p.body@)
        },
        Err(e) => plain_lines_spec(i18n::load_failed_text(lang, e@)),
    }
}

impl App {
    /// `new` is `old` after a data message (`now` is the refresh clock text).
    pub open spec fn applied(old: App, new: App, msg: DataMsg, now: String) -> bool {
        match msg {
            DataMsg::Detail { epoch, result } => match old.modal {
                Modal::Detail(d) => if d.epoch == epoch {
                    &&& new.modal matches Modal::Detail(d2) && {
                        &&& lines_view(d2.lines@) == detail_lines_spec(result, old.lang, old.theme)
                        &&& d2 == (Detail {
                            lines: d2.lines,
                            loading: false,
                            following: match result {
                                Ok(p) => p.run_active,
                                Err(_) => false,
                            },
                            ..d
                        })
                    }
                    &&& new == (App { modal: new.modal, ..old })
                } else {
                    new == old
                },
                Modal::Closed => new == old,
            },
            DataMsg::Update(v) => new == (App { update: Some(v), ..old }),
            DataMsg::Runs(Ok(v)) => PanelData::updated(old.runs, new.runs, v) && new == (App {
                runs: new.runs,
                last_refresh: Some(now),
                ..old
            }),
            DataMsg::Runs(Err(e)) => new == (App {
                runs: PanelData { error: Some(e), loaded: true, ..old.runs },
                last_refresh: Some(now),
                ..old
            }),
            DataMsg::Prs(Ok(v)) => PanelData::updated(old.prs, new.prs, v) && new == (App {
                prs: new.prs,
                last_refresh: Some(now),
                ..old
            }),
            DataMsg::Prs(Err(e)) => new == (App {
                prs: PanelData { error: Some(e), loaded: true, ..old.prs },
                last_refresh: Some(now),
                ..old
            }),
            DataMsg::Issues(Ok(v)) => PanelData::updated(old.issues, new.issues, v) && new == (
            App { issues: new.issues, last_refresh: Some(now), ..old }),
            DataMsg::Issues(Err(e)) => new == (App {
                issues: PanelData { error: Some(e), loaded: true, ..old.issues },
                last_refresh: Some(now),
                ..old
            }),
            DataMsg::Branches(Ok(v)) => PanelData::updated(old.branches, new.branches, v) && new
                == (App { branches: new.branches, last_refresh: Some(now), ..old }),
            DataMsg::Branches(Err(e)) => new == (App {
                branches: PanelData { error: Some(e), loaded: true, ..old.branches },
                last_refresh: Some(now),
                ..old
            }),
            DataMsg::Commits(Ok(v)) => PanelData::updated(old.commits, new.commits, v) && new
                == (App { commits: new.commits, last_refresh: Some(now), ..old }),
            DataMsg::Commits(Err(e)) => new == (App {
                commits: PanelData { error: Some(e), loaded: true, ..old.commits },
                last_refresh: Some(now),
                ..old
            }),
        }
    }

    /// Applies a data message sent by the background fetcher. Detail bodies
    /// fill the open modal only when their epoch matches its generation;
    /// panel data refreshes the clock text to `now`.
    pub fn apply(&mut self, msg: DataMsg, now: String)
        ensures
            App::applied(*old(self), *final(self), msg, now),
    {
        match msg {
            DataMsg::Detail { epoch, result } => {
                let theme = self.theme;
                let lang = self.lang;
                if let Modal::Detail(d) = &mut self.modal {
                    if d.epoch != epoch {
                        return;
                    }
                    match result {
                        Ok(payload) => {
                            d.lines = if payload.markdown {
                                markdown::render(payload.body.as_str(), &theme)
                            } else {
                                plain_lines(payload.body.as_str())
                            };
                            d.following = payload.run_active;
                        },
                        Err(e) => {
                            d.lines = plain_lines(i18n::load_failed(lang, e.as_str()).as_str());
                            d.following = false;
                        },
                    }
                    d.loading = false;
                }
            },
            DataMsg::Update(v) => {
                self.update = Some(v);
            },
            DataMsg::Runs(Ok(v)) => {
                self.runs.update(v);
                self.last_refresh = Some(now);
            },
            DataMsg::Runs(Err(e)) => {
                self.runs.fail(e);
                self.last_refresh = Some(now);
            },
            DataMsg::Prs(Ok(v)) => {
                self.prs.update(v);
                self.last_refresh = Some(now);
            },
            DataMsg::Prs(Err(e)) => {
                self.prs.fail(e);
                self.last_refresh = Some(now);
            },
            DataMsg::Issues(Ok(v)) => {
                self.issues.update(v);
                self.last_refresh = Some(now);
            },
            DataMsg::Issues(Err(e)) => {
                self.issues.fail(e);
                self.last_refresh = Some(now);
            },
            DataMsg::Branches(Ok(v)) => {
                self.branches.update(v);
                self.last_refresh = Some(now);
            },
            DataMsg::Branches(Err(e)) => {
                self.branches.fail(e);
                self.last_refresh = Some(now);
            },
            DataMsg::Commits(Ok(v)) => {
                self.commits.update(v);
                self.last_refresh = Some(now);
            },
            DataMsg::Commits(Err(e)) => {
                self.commits.fail(e);
                self.last_refresh = Some(now);
            },
        }
    }

    /// The follow counter can be advanced without overflow.
    pub open spec fn tick_ok(&self) -> bool {
        match self.modal {
            Modal::Detail(d) => d.following && !d.loading ==> d.follow_ticks < u32::MAX,
            Modal::Closed => true,
        }
    }

    /// Called on every timer tick — advances the spinner and, for a followed
    /// run, re-requests its detail every `FOLLOW_INTERVAL_TICKS` ticks.
    pub fn tick(&mut self) -> (r: Option<DetailReq>)
        requires
            old(self).tick_ok(),
        ensures
            final(self).spinner == (if old(self).spinner == usize::MAX {
                0
            } else {
                (old(self).spinner + 1) as usize
            }),
            *final(self) == (App {
                spinner: final(self).spinner,
                modal: final(self).modal,
                ..*old(self)
            }),
            match old(self).modal {
                Modal::Detail(d) => if d.following && !d.loading {
                    if d.follow_ticks + 1 >= FOLLOW_INTERVAL_TICKS {
                        final(self).modal == Modal::Detail(Detail { follow_ticks: 0, ..d })
                            && r == Some(DetailReq { repo: old(self).repo, kind: d.kind, epoch: d.epoch })
                    } else {
                        final(self).modal == Modal::Detail(
                            Detail { follow_ticks: (d.follow_ticks + 1) as u32, ..d },
                        ) && r is None
                    }
                } else {
                    final(self).modal == old(self).modal && r is None
                },
                Modal::Closed => final(self).modal == old(self).modal && r is None,
            },
    {
        self.spinner = if self.spinner == usize::MAX {
            0
        } else {
            self.spinner + 1
        };
        let mut req: Option<DetailReq> = None;
        if let Modal::Detail(d) = &mut self.modal {
            if d.following && !d.loading {
                d.follow_ticks = d.follow_ticks + 1;
                if d.follow_ticks >= FOLLOW_INTERVAL_TICKS {
                    d.follow_ticks = 0;
                    req = Some(
                        DetailReq { repo: self.repo.clone(), kind: clone_kind(&d.kind), epoch: d.epoch },
                    );
                }
            }
        }
        req
    }
}


// ─── key handling ────────────────────────────────────────────────────────────

/// The search text after Backspace.
pub open spec fn pop_seq(s: Seq<char>) -> Seq<char> {
    if s.len() > 0 {
        s.drop_last()
    } else {
        s
    }
}

/// `String::pop`, keeping the rest.
pub fn pop_char(s: &String) -> (r: String)
    ensures
        r@ == pop_seq(s@),
{
    let v = crate::text::chars_of(s.as_str());
    if v.len() == 0 {
        return String::new();
    }
    let r = crate::text::string_of_range(&v, 0, v.len() - 1);
    assert(r@ =~= v@.drop_last());
    r
}

/// `new` is `old` with the search buffer set to `b` and applied as the
/// focused panel's filter, nothing else changed but `search_active`.
pub open spec fn search_edited(old: App, new: App, b: Seq<char>, active: bool) -> bool {
    &&& new.search_buffer@ == b
    &&& slot_filter_applied(old, new, b)
    &&& new == (App {
        runs: new.runs,
        prs: new.prs,
        issues: new.issues,
        branches: new.branches,
        commits: new.commits,
        search_buffer: new.search_buffer,
        search_active: active,
        ..old
    })
}

/// `new` is `old` with the open modal replaced by `d`.
pub open spec fn with_detail(old: App, d: Detail) -> App {
    App { modal: Modal::Detail(d), ..old }
}

/// The effect and state after one key action.
pub open spec fn key_step(old: App, new: App, e: Effect, a: KeyAction) -> bool {
    match a {
        KeyAction::Quit => new == (App { should_quit: true, ..old }) && e is Nothing,
        KeyAction::CloseModal => new == (App { modal: Modal::Closed, ..old }) && e is Nothing,
        KeyAction::ModalScrollDown(n) => e is Nothing && match old.modal {
            Modal::Detail(d) => new == with_detail(
                old,
                Detail { scroll: d.scroll.saturating_add(n), ..d },
            ),
            Modal::Closed => new == old,
        },
        KeyAction::ModalScrollUp(n) => e is Nothing && match old.modal {
            Modal::Detail(d) => new == with_detail(
                old,
                Detail { scroll: d.scroll.saturating_sub(n), ..d },
            ),
            Modal::Closed => new == old,
        },
        KeyAction::ModalTop => e is Nothing && match old.modal {
            Modal::Detail(d) => new == with_detail(old, Detail { scroll: 0, ..d }),
            Modal::Closed => new == old,
        },
        KeyAction::ModalBottom => e is Nothing && match old.modal {
            Modal::Detail(d) => new == with_detail(old, Detail { scroll: u16::MAX, ..d }),
            Modal::Closed => new == old,
        },
        KeyAction::ToggleLog => match old.modal {
            Modal::Detail(d) => match d.kind {
                DetailKind::Run { id, log } => {
                    let ep = (old.detail_epoch + 1) as u64;
                    let k = DetailKind::Run { id, log: !log };
                    &&& new == (App {
                        detail_epoch: ep,
                        modal: Modal::Detail(
                            Detail { kind: k, epoch: ep, loading: true, scroll: 0, ..d },
                        ),
                        ..old
                    })
                    &&& e == Effect::Detail(DetailReq { repo: old.repo, kind: k, epoch: ep })
                },
                _ => new == old && e is Nothing,
            },
            Modal::Closed => new == old && e is Nothing,
        },
        KeyAction::OpenModalUrl => new == old && match old.modal {
            Modal::Detail(d) => if d.url@.len() > 0 {
                e matches Effect::OpenUrl(u) && u@ == d.url@
            } else {
                e is Nothing
            },
            Modal::Closed => e is Nothing,
        },
        KeyAction::SearchCancel => search_edited(old, new, Seq::empty(), false) && e is Nothing,
        KeyAction::SearchConfirm => new == (App { search_active: false, ..old }) && e is Nothing,
        KeyAction::SearchBackspace => search_edited(
            old,
            new,
            pop_seq(old.search_buffer@),
            old.search_active,
        ) && e is Nothing,
        KeyAction::SearchType(c) => search_edited(
            old,
            new,
            old.search_buffer@.push(c),
            old.search_active,
        ) && e is Nothing,
        KeyAction::FocusNext => new == (App { focus: old.focus.next_spec(), ..old }) && e is Nothing,
        KeyAction::FocusPrev => new == (App { focus: old.focus.prev_spec(), ..old }) && e is Nothing,
        KeyAction::ShiftMove(code) => new == (App {
            focus: shift_target(old.layout, old.focus, code),
            ..old
        }) && e is Nothing,
        KeyAction::ScrollPanel(d) => slot_scrolled(old, new, d as int) && e is Nothing,
        KeyAction::Refresh => new == old && e == Effect::Fetch(FetchCmd::RefreshNow),
        KeyAction::StartSearch => new.search_buffer@ == old.focused_filter_spec() && new == (App {
            search_buffer: new.search_buffer,
            search_active: true,
            ..old
        }) && e is Nothing,
        KeyAction::SlowerInterval => interval_stepped(old, new, e, 1i32),
        KeyAction::FasterInterval => interval_stepped(old, new, e, -1i32),
        KeyAction::OpenSelected => new == old && match old.selection_spec() {
            Some(sel) => if sel.0.len() > 0 {
                e matches Effect::OpenUrl(u) && u@ == sel.0
            } else {
                e is Nothing
            },
            None => e is Nothing,
        },
        KeyAction::OpenDetail => match old.selection_spec() {
            Some(sel) => App::opened_detail(old, new, sel) && e == Effect::Detail(
                DetailReq { repo: old.repo, kind: sel.2, epoch: (old.detail_epoch + 1) as u64 },
            ),
            None => new == old && e is Nothing,
        },
        KeyAction::Ignore => new == old && e is Nothing,
    }
}

/// `new`/`e` after one `+` (`dir > 0`) or `-` step of the polling interval.
pub open spec fn interval_stepped(old: App, new: App, e: Effect, dir: i32) -> bool {
    let n = interval_after(old.poll_secs, dir);
    if n != old.poll_secs {
        new == (App { poll_secs: n, ..old }) && e == Effect::Fetch(FetchCmd::SetInterval(n))
    } else {
        new == old && e is Nothing
    }
}

impl App {
    /// The action a key maps to in the current mode.
    pub open spec fn action_of(&self, key: KeyInput) -> KeyAction {
        key_action(self.modal is Detail, self.search_active, key)
    }

    /// A modal generation is left for actions that open a new one.
    pub open spec fn key_ok(&self, key: KeyInput) -> bool {
        (self.action_of(key) == KeyAction::ToggleLog || self.action_of(key) == KeyAction::OpenDetail)
            ==> self.detail_epoch < u64::MAX
    }

    /// Handles one key press: modal keys while a modal is open, editing keys
    /// while typing a search, panel keys otherwise.
    pub fn handle_key(&mut self, key: KeyInput) -> (e: Effect)
        requires
            old(self).key_ok(key),
        ensures
            key_step(*old(self), *final(self), e, old(self).action_of(key)),
    {
        let modal_open = match &self.modal {
            Modal::Detail(_) => true,
            Modal::Closed => false,
        };
        let a = classify_key(modal_open, self.search_active, key);
        match a {
            KeyAction::Quit => {
                self.should_quit = true;
                Effect::Nothing
            },
            KeyAction::CloseModal => {
                self.modal = Modal::Closed;
                Effect::Nothing
            },
            KeyAction::ModalScrollDown(n) => {
                if let Modal::Detail(d) = &mut self.modal {
                    d.scroll = d.scroll.saturating_add(n);
                }
                Effect::Nothing
            },
            KeyAction::ModalScrollUp(n) => {
                if let Modal::Detail(d) = &mut self.modal {
                    d.scroll = d.scroll.saturating_sub(n);
                }
                Effect::Nothing
            },
            KeyAction::ModalTop => {
                if let Modal::Detail(d) = &mut self.modal {
                    d.scroll = 0;
                }
                Effect::Nothing
            },
            KeyAction::ModalBottom => {
                if let Modal::Detail(d) = &mut self.modal {
                    d.scroll = u16::MAX;
                }
                Effect::Nothing
            },
            KeyAction::ToggleLog => {
                // In run detail, toggle tree ↔ full per-step logs.
                let next_epoch = self.detail_epoch + 1;
                let mut eff = Effect::Nothing;
                let mut bumped = false;
                if let Modal::Detail(d) = &mut self.modal {
                    if let DetailKind::Run { id, log } = d.kind {
                        let kind = DetailKind::Run { id, log: !log };
                        d.kind = DetailKind::Run { id, log: !log };
                        d.epoch = next_epoch;
                        d.loading = true;
                        d.scroll = 0;
                        eff = Effect::Detail(DetailReq { repo: self.repo.clone(), kind, epoch: next_epoch });
                        bumped = true;
                    }
                }
                if bumped {
                    self.detail_epoch = next_epoch;
                }
                eff
            },
            KeyAction::OpenModalUrl => {
                match &self.modal {
                    Modal::Detail(d) => if d.url.as_str().is_empty() {
                        Effect::Nothing
                    } else {
                        Effect::OpenUrl(d.url.clone())
                    },
                    Modal::Closed => Effect::Nothing,
                }
            },
            KeyAction::SearchCancel => {
                // Cancel search: clear the filter and exit input.
                self.search_buffer = String::new();
                self.apply_search();
                self.search_active = false;
                Effect::Nothing
            },
            KeyAction::SearchConfirm => {
                self.search_active = false;
                Effect::Nothing
            },
            KeyAction::SearchBackspace => {
                self.search_buffer = pop_char(&self.search_buffer);
                self.apply_search();
                Effect::Nothing
            },
            KeyAction::SearchType(c) => {
                push_char(&mut self.search_buffer, c);
                self.apply_search();
                Effect::Nothing
            },
            KeyAction::FocusNext => {
                self.focus = self.focus.next();
                Effect::Nothing
            },
            KeyAction::FocusPrev => {
                self.focus = self.focus.prev();
                Effect::Nothing
            },
            KeyAction::ShiftMove(code) => {
                self.shift_move(code);
                Effect::Nothing
            },
            KeyAction::ScrollPanel(d) => {
                self.focused_panel_scroll(d);
                Effect::Nothing
            },
            KeyAction::Refresh => Effect::Fetch(FetchCmd::RefreshNow),
            KeyAction::StartSearch => {
                self.start_search();
                Effect::Nothing
            },
            KeyAction::SlowerInterval => self.adjust_interval(1),
            KeyAction::FasterInterval => self.adjust_interval(-1),
            KeyAction::OpenSelected => self.open_selected(),
            KeyAction::OpenDetail => self.open_detail(),
            KeyAction::Ignore => Effect::Nothing,
        }
    }

    /// The effect and state after a terminal event: key presses are handled,
    /// releases (duplicated on some platforms) and other events ignored.
    pub open spec fn event_step(old: App, new: App, e: Effect, ev: InputEvent) -> bool {
        match ev {
            InputEvent::Key(k) => if k.kind == KeyKind::Release {
                new == old && e is Nothing
            } else {
                key_step(old, new, e, old.action_of(k))
            },
            InputEvent::Other => new == old && e is Nothing,
        }
    }

    /// Handles terminal events such as key presses/resize.
    pub fn handle_event(&mut self, ev: InputEvent) -> (e: Effect)
        requires
            ev matches InputEvent::Key(k) ==> old(self).key_ok(k),
        ensures
            App::event_step(*old(self), *final(self), e, ev),
    {
        match ev {
            InputEvent::Key(k) => if k.kind == KeyKind::Release {
                Effect::Nothing
            } else {
                self.handle_key(k)
            },
            InputEvent::Other => Effect::Nothing,
        }
    }
}

/// A detail response that belongs to another modal generation, or that
/// arrives with no modal open, changes nothing.
pub proof fn law_stale_detail_ignored(
    old: App,
    new: App,
    epoch: u64,
    result: Result<DetailPayload, String>,
    now: String,
)
    requires
        App::applied(old, new, DataMsg::Detail { epoch, result }, now),
        !(old.modal matches Modal::Detail(d) && d.epoch == epoch),
    ensures
        new == old,
{
}

/// A refresh keeps a panel's search filter, and the visible rows are the
/// new items that match it.
pub proof fn law_filter_persists_across_refresh<T: Entry>(old: PanelData<T>, new: PanelData<T>, items: Vec<T>)
    requires
        PanelData::updated(old, new, items),
    ensures
        new.filter == old.filter,
        new.filtered_view() == filter_indices(items@, new.query()),
{
}

} // verus!

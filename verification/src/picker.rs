//! Generic modal picker with fuzzy filtering, cursor navigation and
//! multi-selection.
use vstd::prelude::*;
use crate::collections::IdSet;
use crate::fuzzy::{score_bound, score_subsequence, score_text};
use crate::paper::clone_opt;
use crate::text::{owned, str_chars, string_pop, string_push, trim, trim_str};

verus! {

/// An item displayed in a picker.
#[derive(Debug, PartialEq, Eq)]
pub struct PickerItem {
    pub id: u128,
    pub title: String,
    pub subtitle: Option<String>,
    pub category: Option<String>,
}

impl Clone for PickerItem {
    fn clone(&self) -> (r: Self)
        ensures
            r == *self,
    {
        PickerItem {
            id: self.id,
            title: self.title.clone(),
            subtitle: clone_opt(&self.subtitle),
            category: clone_opt(&self.category),
        }
    }
}

impl PickerItem {
    pub fn new(id: u128, title: &str) -> (r: Self)
        ensures
            r.id == id,
            r.title@ == title@,
            r.subtitle is None,
            r.category is None,
    {
        PickerItem { id, title: owned(title), subtitle: None, category: None }
    }

    pub fn with_subtitle(self, subtitle: &str) -> (r: Self)
        ensures
            r == (PickerItem { subtitle: r.subtitle, ..self }),
            r.subtitle matches Some(s) && s@ == subtitle@,
    {
        PickerItem { subtitle: Some(owned(subtitle)), ..self }
    }

    pub fn with_category(self, category: &str) -> (r: Self)
        ensures
            r == (PickerItem { category: r.category, ..self }),
            r.category matches Some(s) && s@ == category@,
    {
        PickerItem { category: Some(owned(category)), ..self }
    }
}

/// The score of an optional text.
pub open spec fn opt_score(o: Option<String>, q: Seq<char>) -> Option<int> {
    match o {
        Some(s) => score_text(s@, q),
        None => None,
    }
}

/// The score of an item: the title counts with a bonus of 3000, the subtitle
/// with 1500, the category as is; `None` when none of them matches.
pub open spec fn item_score(it: PickerItem, q: Seq<char>) -> Option<int> {
    let t = score_text(it.title@, q);
    let s = opt_score(it.subtitle, q);
    let c = opt_score(it.category, q);
    if t is None && s is None && c is None {
        None
    } else {
        Some(
            (match t {
                Some(v) => v + 3_000,
                None => 0,
            }) + (match s {
                Some(v) => v + 1_500,
                None => 0,
            }) + (match c {
                Some(v) => v,
                None => 0,
            }),
        )
    }
}

fn opt_score_exec(o: &Option<String>, q: &Vec<char>) -> (r: Option<i128>)
    ensures
        r matches Some(v) ==> -score_bound() <= v <= score_bound(),
        match (r, opt_score(*o, q@)) {
            (Some(a), Some(b)) => a == b,
            (None, None) => true,
            _ => false,
        },
{
    match o {
        Some(s) => {
            let t = str_chars(s.as_str());
            score_subsequence(&t, q)
        },
        None => None,
    }
}

/// Scores one item against the trimmed query.
pub fn score_item(item: &PickerItem, q: &Vec<char>) -> (r: Option<i128>)
    ensures
        match (r, item_score(*item, q@)) {
            (Some(a), Some(b)) => a == b,
            (None, None) => true,
            _ => false,
        },
        r matches Some(v) ==> -4 * score_bound() <= v <= 4 * score_bound(),
{
    let tc = str_chars(item.title.as_str());
    let t = score_subsequence(&tc, q);
    let s = opt_score_exec(&item.subtitle, q);
    let c = opt_score_exec(&item.category, q);
    if t.is_none() && s.is_none() && c.is_none() {
        return None;
    }
    let mut total: i128 = 0;
    match t {
        Some(v) => {
            total = total + v + 3_000;
        },
        None => {},
    }
    match s {
        Some(v) => {
            total = total + v + 1_500;
        },
        None => {},
    }
    match c {
        Some(v) => {
            total = total + v;
        },
        None => {},
    }
    Some(total)
}

/// Ranking order of scored items: higher score first, then lower index.
pub open spec fn ranks_before(a: (usize, i128), b: (usize, i128)) -> bool {
    a.1 > b.1 || (a.1 == b.1 && a.0 < b.0)
}

/// The visible indices for a query: every item when the trimmed query is
/// empty, otherwise exactly the matching items, each once, best first.
pub open spec fn filter_result(items: Seq<PickerItem>, query: Seq<char>, vis: Seq<usize>) -> bool {
    let q = trim(query);
    if q.len() == 0 {
        vis == Seq::new(items.len(), |i: int| i as usize)
    } else {
        &&& vis.no_duplicates()
        &&& forall|k: int| 0 <= k < vis.len() ==> (#[trigger] vis[k]) < items.len()
            && item_score(items[vis[k] as int], q) is Some
        &&& forall|i: int|
            0 <= i < items.len() && (#[trigger] item_score(items[i], q)) is Some ==> vis.contains(
                i as usize,
            )
        &&& forall|k: int|
            0 <= k < vis.len() - 1 ==> ranks_before(
                #[trigger] rank_at(items, q, vis, k),
                rank_at(items, q, vis, k + 1),
            )
    }
}

/// The rank key of the `k`-th visible item: its index and its score.
pub open spec fn rank_at(items: Seq<PickerItem>, q: Seq<char>, vis: Seq<usize>, k: int) -> (usize, i128) {
    (vis[k], item_score(items[vis[k] as int], q).unwrap() as i128)
}

/// The cursor after clamping into the visible list.
pub open spec fn clamped(selected: int, n: int) -> int {
    if n == 0 {
        0
    } else if selected >= n {
        n - 1
    } else {
        selected
    }
}

/// Generic modal picker.
#[derive(Debug)]
pub struct GenericPicker {
    pub title: String,
    pub items: Vec<PickerItem>,
    pub visible_indices: Vec<usize>,
    pub selected: usize,
    pub query: String,
    pub checked: IdSet,
    pub multi_select: bool,
}

/// The ranks of the scored items seen so far, best first.
spec fn scored_ok(items: Seq<PickerItem>, q: Seq<char>, out: Seq<(usize, i128)>, upto: int) -> bool {
    &&& forall|k: int|
        0 <= k < out.len() ==> (#[trigger] out[k]).0 < upto && item_score(items[out[k].0 as int], q)
            == Some(out[k].1 as int)
    &&& forall|i: int|
        0 <= i < upto && (#[trigger] item_score(items[i], q)) is Some ==> exists|k: int|
            0 <= k < out.len() && out[k].0 == i
    &&& forall|k: int| 0 <= k < out.len() - 1 ==> #[trigger] ranks_before(out[k], out[k + 1])
    &&& forall|a: int, b: int| 0 <= a < out.len() && 0 <= b < out.len() && a != b ==> out[a].0 != out[b].0
}

impl GenericPicker {
    /// A picker over `items`, all visible, cursor on the first, nothing checked.
    pub fn new(title: &str, items: Vec<PickerItem>, multi_select: bool) -> (p: Self)
        ensures
            p.title@ == title@,
            p.items@ == items@,
            p.visible_indices@ == Seq::new(items@.len(), |i: int| i as usize),
            p.selected == 0,
            p.query@ == Seq::<char>::empty(),
            p.checked@ == Set::<u128>::empty(),
            p.multi_select == multi_select,
    {
        let visible_indices = all_indices(items.len());
        GenericPicker {
            title: owned(title),
            items,
            visible_indices,
            selected: 0,
            query: String::new(),
            checked: IdSet::new(),
            multi_select,
        }
    }

    /// Replaces the checked set.
    pub fn with_checked(self, checked: IdSet) -> (p: Self)
        ensures
            p == (GenericPicker { checked, ..self }),
    {
        GenericPicker { checked, ..self }
    }

    /// Sets the query and refilters.
    pub fn set_query(&mut self, query: &str)
        ensures
            final(self).query@ == query@,
            filter_result(final(self).items@, query@, final(self).visible_indices@),
            final(self).selected == clamped(old(self).selected as int, final(self).visible_indices@.len() as int),
            *final(self) == (GenericPicker {
                query: final(self).query,
                visible_indices: final(self).visible_indices,
                selected: final(self).selected,
                ..*old(self)
            }),
    {
        self.query = owned(query);
        self.update_filter();
    }

    /// Appends a character to the query and refilters.
    pub fn push_query_char(&mut self, c: char)
        ensures
            final(self).query@ == old(self).query@.push(c),
            filter_result(final(self).items@, final(self).query@, final(self).visible_indices@),
            final(self).selected == clamped(old(self).selected as int, final(self).visible_indices@.len() as int),
            *final(self) == (GenericPicker {
                query: final(self).query,
                visible_indices: final(self).visible_indices,
                selected: final(self).selected,
                ..*old(self)
            }),
    {
        string_push(&mut self.query, c);
        self.update_filter();
    }

    /// Removes the last character of the query and refilters.
    pub fn pop_query_char(&mut self)
        ensures
            final(self).query@ == (if old(self).query@.len() == 0 {
                old(self).query@
            } else {
                old(self).query@.drop_last()
            }),
            filter_result(final(self).items@, final(self).query@, final(self).visible_indices@),
            final(self).selected == clamped(old(self).selected as int, final(self).visible_indices@.len() as int),
            *final(self) == (GenericPicker {
                query: final(self).query,
                visible_indices: final(self).visible_indices,
                selected: final(self).selected,
                ..*old(self)
            }),
    {
        string_pop(&mut self.query);
        self.update_filter();
    }

    /// Moves the cursor by `delta`, clamped to the visible list.
    pub fn move_cursor(&mut self, delta: isize)
        requires
            old(self).selected <= isize::MAX,
            isize::MIN <= old(self).selected + delta <= isize::MAX,
        ensures
            final(self).selected == (if old(self).visible_indices@.len() == 0 {
                0
            } else {
                crate::navigation::clamp(
                    old(self).selected + delta,
                    0,
                    old(self).visible_indices@.len() - 1,
                )
            }),
            *final(self) == (GenericPicker { selected: final(self).selected, ..*old(self) }),
    {
        if self.visible_indices.len() == 0 {
            self.selected = 0;
            return;
        }
        let max_idx = self.visible_indices.len() - 1;
        let next = self.selected as isize + delta;
        if next < 0 {
            self.selected = 0;
        } else if next as usize > max_idx {
            self.selected = max_idx;
        } else {
            self.selected = next as usize;
        }
    }

    /// Moves the cursor to the first visible item.
    pub fn move_to_first(&mut self)
        ensures
            *final(self) == (GenericPicker { selected: 0, ..*old(self) }),
    {
        self.selected = 0;
        self.clamp_selected();
    }

    /// Moves the cursor to the last visible item.
    pub fn move_to_last(&mut self)
        ensures
            final(self).selected == (if old(self).visible_indices@.len() == 0 {
                0
            } else {
                old(self).visible_indices@.len() - 1
            }),
            *final(self) == (GenericPicker { selected: final(self).selected, ..*old(self) }),
    {
        if self.visible_indices.len() > 0 {
            self.selected = self.visible_indices.len() - 1;
        } else {
            self.selected = 0;
        }
    }

    /// Toggles the checked state of the item under the cursor (multi-select
    /// pickers only).
    pub fn toggle_selected(&mut self)
        ensures
            *final(self) == (GenericPicker { checked: final(self).checked, ..*old(self) }),
            final(self).checked@ == toggle_of(old(self).checked@, *old(self)),
    {
        if !self.multi_select {
            return;
        }
        let id = match self.selected_item() {
            Some(item) => item.id,
            None => {
                return;
            },
        };
        if self.checked.contains(&id) {
            self.checked.remove(&id);
        } else {
            self.checked.insert(id);
        }
    }

    /// The item under the cursor, if any.
    pub fn selected_item(&self) -> (r: Option<&PickerItem>)
        ensures
            r == match cursor_item(*self) {
                Some(it) => Some(&it),
                None => None,
            },
    {
        if self.selected < self.visible_indices.len() {
            let idx = self.visible_indices[self.selected];
            if idx < self.items.len() {
                return Some(&self.items[idx]);
            }
        }
        None
    }

    /// The checked identifiers.
    pub fn checked_items(&self) -> (r: &IdSet)
        ensures
            r == &self.checked,
    {
        &self.checked
    }

    /// Recomputes the visible indices from the query and clamps the cursor.
    pub fn update_filter(&mut self)
        ensures
            filter_result(final(self).items@, final(self).query@, final(self).visible_indices@),
            final(self).selected == clamped(old(self).selected as int, final(self).visible_indices@.len() as int),
            *final(self) == (GenericPicker {
                visible_indices: final(self).visible_indices,
                selected: final(self).selected,
                ..*old(self)
            }),
    {
        let trimmed = trim_str(self.query.as_str());
        let q = str_chars(trimmed.as_str());
        if q.len() == 0 {
            self.visible_indices = all_indices(self.items.len());
        } else {
            let mut out: Vec<(usize, i128)> = Vec::new();
            let mut i: usize = 0;
            while i < self.items.len()
                invariant
                    i <= self.items@.len(),
                    q@ == trim(self.query@),
                    q@.len() > 0,
                    scored_ok(self.items@, q@, out@, i as int),
                decreases self.items@.len() - i,
            {
                match score_item(&self.items[i], &q) {
                    Some(s) => {
                        insert_ranked(&mut out, Ghost(self.items@), Ghost(q@), i, s);
                    },
                    None => {
                        assert(scored_ok(self.items@, q@, out@, i + 1));
                    },
                }
                i = i + 1;
            }
            let mut vis: Vec<usize> = Vec::new();
            let mut k: usize = 0;
            while k < out.len()
                invariant
                    k <= out@.len(),
                    vis@.len() == k,
                    forall|m: int| 0 <= m < k ==> vis@[m] == (#[trigger] out@[m]).0,
                decreases out@.len() - k,
            {
                vis.push(out[k].0);
                k = k + 1;
            }
            proof {
                let items = self.items@;
                assert forall|m: int| 0 <= m < vis@.len() implies (#[trigger] vis@[m]) < items.len()
                    && item_score(items[vis@[m] as int], q@) is Some by {
                    assert(vis@[m] == out@[m].0);
                }
                assert forall|ii: int|
                    0 <= ii < items.len() && (#[trigger] item_score(items[ii], q@)) is Some implies vis@.contains(
                    ii as usize,
                ) by {
                    let m = choose|m: int| 0 <= m < out@.len() && out@[m].0 == ii;
                    assert(vis@[m] == ii as usize);
                }
                assert forall|m: int| 0 <= m < vis@.len() - 1 implies ranks_before(
                    #[trigger] rank_at(items, q@, vis@, m),
                    rank_at(items, q@, vis@, m + 1),
                ) by {
                    assert(ranks_before(out@[m], out@[m + 1]));
                    assert(vis@[m] == out@[m].0 && vis@[m + 1] == out@[m + 1].0);
                }
                assert(vis@.no_duplicates()) by {
                    assert forall|a: int, b: int|
                        0 <= a < vis@.len() && 0 <= b < vis@.len() && a != b implies vis@[a] != vis@[b] by {
                        assert(vis@[a] == out@[a].0 && vis@[b] == out@[b].0);
                    }
                }
            }
            self.visible_indices = vis;
        }
        self.clamp_selected();
    }

    /// Keeps the cursor inside the visible list.
    fn clamp_selected(&mut self)
        ensures
            final(self).selected == clamped(old(self).selected as int, old(self).visible_indices@.len() as int),
            *final(self) == (GenericPicker { selected: final(self).selected, ..*old(self) }),
    {
        if self.visible_indices.len() == 0 {
            self.selected = 0;
        } else if self.selected >= self.visible_indices.len() {
            self.selected = self.visible_indices.len() - 1;
        }
    }
}

/// The item under the cursor of a picker.
pub open spec fn cursor_item(p: GenericPicker) -> Option<PickerItem> {
    if p.selected < p.visible_indices@.len() && p.visible_indices@[p.selected as int] < p.items@.len() {
        Some(p.items@[p.visible_indices@[p.selected as int] as int])
    } else {
        None
    }
}

/// The checked ids after a toggle in picker `p`: in a multi-select picker
/// with an item under the cursor, that item's id leaves the set if it was
/// in it and joins it otherwise; anything else leaves the set as it is.
pub open spec fn toggle_of(checked: Set<u128>, p: GenericPicker) -> Set<u128> {
    if p.multi_select && cursor_item(p) is Some {
        let id = cursor_item(p).unwrap().id;
        if checked.contains(id) {
            checked.remove(id)
        } else {
            checked.insert(id)
        }
    } else {
        checked
    }
}

/// Toggling twice in a row leaves the checked ids as they were.
pub proof fn lemma_toggle_twice(p1: GenericPicker, p2: GenericPicker)
    requires
        p2 == (GenericPicker { checked: p2.checked, ..p1 }),
        p2.checked@ == toggle_of(p1.checked@, p1),
    ensures
        toggle_of(p2.checked@, p2) == p1.checked@,
{
    if p1.multi_select && cursor_item(p1) is Some {
        let id = cursor_item(p1).unwrap().id;
        assert(cursor_item(p2) == cursor_item(p1));
        if p1.checked@.contains(id) {
            assert(p1.checked@.remove(id).insert(id) =~= p1.checked@);
        } else {
            assert(p1.checked@.insert(id).remove(id) =~= p1.checked@);
        }
    }
}

/// Puts the match `(i, s)` where its rank belongs among the matches before it.
#[verifier::rlimit(50)]
fn insert_ranked(out: &mut Vec<(usize, i128)>, items: Ghost<Seq<PickerItem>>, q: Ghost<Seq<char>>, i: usize, s: i128)
    requires
        i < items@.len(),
        scored_ok(items@, q@, old(out)@, i as int),
        item_score(items@[i as int], q@) == Some(s as int),
    ensures
        scored_ok(items@, q@, final(out)@, i + 1),
{
    let x = (i, s);
    let mut j = out.len();
    while j > 0 && ranks_before_exec(x, out[j - 1])
        invariant
            j <= out@.len(),
            forall|k: int| j <= k < out@.len() ==> ranks_before(x, #[trigger] out@[k]),
        decreases j,
    {
        j = j - 1;
    }
    let ghost before = out@;
    out.insert(j, x);
    proof {
        let ghost its = items@;
        assert(out@ == before.insert(j as int, x));
        assert forall|k: int| 0 <= k < out@.len() - 1 implies #[trigger] ranks_before(
            out@[k],
            out@[k + 1],
        ) by {
            if k < j - 1 {
                assert(out@[k] == before[k] && out@[k + 1] == before[k + 1]);
            } else if k == j - 1 {
                assert(out@[k] == before[k]);
                assert(before[k].0 < i);
            } else if k == j {
            } else {
                assert(out@[k] == before[k - 1] && out@[k + 1] == before[k]);
                assert(ranks_before(before[k - 1], before[(k - 1) + 1]));
            }
        }
        assert forall|ii: int|
            0 <= ii < i + 1 && (#[trigger] item_score(its[ii], q@)) is Some implies exists|k: int|
            0 <= k < out@.len() && out@[k].0 == ii by {
            if ii == i {
                assert(out@[j as int].0 == ii);
            } else {
                let k0 = choose|k: int| 0 <= k < before.len() && before[k].0 == ii;
                if k0 < j {
                    assert(out@[k0].0 == ii);
                } else {
                    assert(out@[k0 + 1].0 == ii);
                }
            }
        }
        assert forall|a: int, b: int|
            0 <= a < out@.len() && 0 <= b < out@.len() && a != b implies out@[a].0
            != out@[b].0 by {
            let oa = if a < j { a } else { a - 1 };
            let ob = if b < j { b } else { b - 1 };
            if a != j as int && b != j as int {
                assert(out@[a] == before[oa] && out@[b] == before[ob]);
            } else if a == j as int {
                assert(out@[b] == before[ob]);
            } else {
                assert(out@[a] == before[oa]);
            }
        }
        assert(scored_ok(items@, q@, out@, i + 1));
    }
}

fn ranks_before_exec(a: (usize, i128), b: (usize, i128)) -> (r: bool)
    ensures
        r == ranks_before(a, b),
{
    a.1 > b.1 || (a.1 == b.1 && a.0 < b.0)
}

/// The indices `0..n` in order.
pub fn all_indices(n: usize) -> (v: Vec<usize>)
    ensures
        v@ == Seq::new(n as nat, |i: int| i as usize),
{
    let mut v: Vec<usize> = Vec::new();
    let mut i: usize = 0;
    while i < n
        invariant
            i <= n,
            v@ =~= Seq::new(i as nat, |k: int| k as usize),
        decreases n - i,
    {
        v.push(i);
        i = i + 1;
    }
    v
}

/// Filtering never shows an item twice or an item that does not exist, and
/// the cursor, once clamped, points into the visible list whenever it is
/// non-empty.
pub proof fn lemma_filter_in_range(items: Seq<PickerItem>, query: Seq<char>, vis: Seq<usize>, sel: int)
    requires
        filter_result(items, query, vis),
        0 <= sel,
    ensures
        forall|k: int| 0 <= k < vis.len() ==> #[trigger] vis[k] < items.len(),
        vis.len() > 0 ==> 0 <= clamped(sel, vis.len() as int) < vis.len(),
{
}

} // verus!

//! Movement inside the panels: panel focus, list motions with count
//! prefixes, sorting and visual (multi-)selection.
use vstd::prelude::*;
use crate::app::{
    lemma_first_paper, clamp_idx, clamp_index, cursor_selection, find_paper, has_paper, lemma_paper_sync_frame,
    lemma_selection_frame, noted_paper, noted_toc, paper_pos, paper_synced, selection_from_indices,
    before_selection, App,
};
use crate::app_view::{arranged, collection_synced};
use crate::navigation::{accumulate_count, calculate_target_index, motion_in_range, motion_target, next_count, Motion};
use crate::panel::ActivePanel;
use crate::paper::Paper;
use crate::selection::{CollectionKey, SelectionState};
use crate::sorting::{sort_papers, PaperSortField, SortDirection, next_sort_spec};

verus! {

// ------------------------------------------------------------ visual mode

/// The ids of the listed papers that are in `set`, in list order.
pub open spec fn ids_in(ps: Seq<Paper>, set: Set<u128>) -> Seq<u128>
    decreases ps.len(),
{
    if ps.len() == 0 {
        Seq::empty()
    } else {
        let r = ids_in(ps.drop_last(), set);
        if set.contains(ps.last().id) {
            r.push(ps.last().id)
        } else {
            r
        }
    }
}

/// The papers an action on "the selection" works on: the visual selection
/// in list order when there is one, else the paper under the cursor.
pub open spec fn visual_targets(a: App) -> Seq<u128> {
    if a.visual_mode && a.visual_selected_uuids@.len() > 0 {
        ids_in(a.papers@, a.visual_selected_uuids@)
    } else if a.selected_paper < a.papers@.len() {
        seq![a.papers@[a.selected_paper as int].id]
    } else {
        Seq::empty()
    }
}

/// The ids of `ps[lo..=hi]`.
#[verifier::opaque]
pub open spec fn id_range(ps: Seq<Paper>, lo: int, hi: int) -> Set<u128> {
    Set::new(|id: u128| exists|i: int| lo <= i <= hi && #[trigger] ps[i].id == id)
}

proof fn lemma_id_range_step(ps: Seq<Paper>, lo: int, i: int)
    requires
        0 <= lo <= i < ps.len(),
    ensures
        id_range(ps, lo, i) == id_range(ps, lo, i - 1).insert(ps[i].id),
{
    reveal(id_range);
    assert forall|x: u128| id_range(ps, lo, i).contains(x) == id_range(ps, lo, i - 1).insert(ps[i].id).contains(x) by {
        if id_range(ps, lo, i).contains(x) {
            let k = choose|k: int| lo <= k <= i && #[trigger] ps[k].id == x;
            if k < i {
                assert(lo <= k <= i - 1 && ps[k].id == x);
            }
        }
        if id_range(ps, lo, i - 1).contains(x) {
            let k = choose|k: int| lo <= k <= i - 1 && #[trigger] ps[k].id == x;
            assert(lo <= k <= i && ps[k].id == x);
        }
        if x == ps[i].id {
            assert(lo <= i <= i && ps[i].id == x);
        }
    }
    assert(id_range(ps, lo, i) =~= id_range(ps, lo, i - 1).insert(ps[i].id));
}

/// The visual selection after the range from the anchor to the cursor is
/// added to it (nothing when the range runs past the list).
#[verifier::opaque]
pub open spec fn visual_range_set(a: App) -> Set<u128> {
    if a.visual_mode && a.visual_anchor is Some {
        let anchor = a.visual_anchor.unwrap() as int;
        let lo = if anchor < a.selected_paper { anchor } else { a.selected_paper as int };
        let hi = if anchor < a.selected_paper { a.selected_paper as int } else { anchor };
        if hi < a.papers@.len() {
            a.visual_selected_uuids@.union(id_range(a.papers@, lo, hi))
        } else {
            a.visual_selected_uuids@
        }
    } else {
        a.visual_selected_uuids@
    }
}

// ------------------------------------------------------------ motions

/// The count a motion is repeated by: the pending count, else 1.
pub open spec fn motion_count(o: App) -> int {
    match o.pending_count {
        Some(c) => c as int,
        None => 1,
    }
}

/// The state with the pending count and chord cleared.
pub open spec fn chord_cleared(o: App) -> App {
    App { pending_count: None, pending_chord: None, ..o }
}

/// The paper memory after the selected paper is recorded for the selected
/// collection.
pub open spec fn recorded_paper(o: App) -> Map<CollectionKey, u128> {
    match o.selection.paper_id {
        Some(pid) => o.last_paper_by_collection@.insert(o.selection.collection, pid),
        None => o.last_paper_by_collection@,
    }
}

/// The TOC memory after the selected TOC entry is recorded for the selected
/// paper.
pub open spec fn recorded_toc(o: App) -> Map<u128, u128> {
    match (o.selection.paper_id, o.selection.toc_id) {
        (Some(pid), Some(tid)) => o.last_toc_by_paper@.insert(pid, tid),
        _ => o.last_toc_by_paper@,
    }
}

/// Whether a motion stays within the machine integers for the list it
/// moves in (the condition of `calculate_target_index`).
pub open spec fn motion_ok(o: App, motion: Motion) -> bool {
    let count = motion_count(o);
    let cur = if o.is_viewing_fullscreen_toc || o.active_panel == ActivePanel::Details {
        o.selected_toc
    } else if o.active_panel == ActivePanel::Collections {
        o.selected_collection
    } else {
        o.selected_paper
    };
    0 <= count <= usize::MAX && motion_in_range(cur, count as usize, motion)
}

/// A motion in the TOC list (fullscreen view or Details panel) from state
/// `m`: the cursor moves, the old position and the new selection are
/// recorded; nothing happens when the cursor stays.
pub open spec fn toc_step(m: App, n: App, motion: Motion, count: int) -> bool {
    let len = m.toc_preview@.len() as int;
    let t = motion_target(m.selected_toc as int, len, motion, count);
    if len == 0 || t == m.selected_toc {
        n == m
    } else {
        let m1 = App { selected_toc: t as usize, ..m };
        &&& n == App {
            selection: n.selection,
            last_paper_by_collection: n.last_paper_by_collection,
            last_toc_by_paper: n.last_toc_by_paper,
            ..m1
        }
        &&& n.selection == cursor_selection(m1)
        &&& n.last_paper_by_collection@ == noted_paper(m1, m.last_paper_by_collection@)
        &&& n.last_toc_by_paper@ == noted_toc(m1, recorded_toc(m))
    }
}

proof fn lemma_move_toc(m: App, t: usize, s2: App, n: App)
    requires
        s2 == (App { selected_toc: t, last_toc_by_paper: s2.last_toc_by_paper, ..m }),
        s2.last_toc_by_paper@ == recorded_toc(m),
        selection_from_indices(s2, n),
    ensures
        ({
            let m1 = App { selected_toc: t, ..m };
            &&& n == (App {
                selection: n.selection,
                last_paper_by_collection: n.last_paper_by_collection,
                last_toc_by_paper: n.last_toc_by_paper,
                ..m1
            })
            &&& n.selection == cursor_selection(m1)
            &&& n.last_paper_by_collection@ == noted_paper(m1, m.last_paper_by_collection@)
            &&& n.last_toc_by_paper@ == noted_toc(m1, recorded_toc(m))
        }),
{
    reveal(selection_from_indices);
    let m1 = App { selected_toc: t, ..m };
    assert(cursor_selection(s2) == cursor_selection(m1));
}

/// A motion in the Collections panel from state `m`: the old position is
/// recorded, the cursor moves and the view loads the new collection.
pub open spec fn collection_step(m: App, n: App, motion: Motion, count: int) -> bool {
    let len = m.collections@.len() as int;
    let t = motion_target(m.selected_collection as int, len, motion, count);
    if len == 0 || t == m.selected_collection {
        n == m
    } else {
        exists|m1: App|
            #[trigger] collection_synced(m1, n) && m1 == (App {
                selected_collection: t as usize,
                selected_paper: 0,
                selected_toc: 0,
                last_paper_by_collection: m1.last_paper_by_collection,
                ..m
            }) && m1.last_paper_by_collection@ == recorded_paper(m)
    }
}

/// A motion in the Papers panel from state `m`: the old position is
/// recorded, the cursor moves, the TOC preview follows, the selection is
/// recomputed and, in visual mode, the range is extended.
pub open spec fn paper_step(m: App, n: App, motion: Motion, count: int) -> bool {
    let len = m.papers@.len() as int;
    let t = motion_target(m.selected_paper as int, len, motion, count);
    if len == 0 || t == m.selected_paper {
        n == m
    } else {
        exists|m1: App, m2: App, m3: App|
            #![trigger paper_synced(m1, m2), selection_from_indices(m2, m3)]
            m1 == (App {
                selected_paper: t as usize,
                selected_toc: 0,
                last_toc_by_paper: m1.last_toc_by_paper,
                ..m
            }) && m1.last_toc_by_paper@ == recorded_toc(m) && paper_synced(m1, m2) && selection_from_indices(
                m2,
                m3,
            ) && n == (App { visual_selected_uuids: n.visual_selected_uuids, ..m3 })
                && n.visual_selected_uuids@ == visual_range_set(m3)
    }
}

/// The state after a motion: the pending count and chord are consumed and
/// the list of the focused panel (or of the fullscreen TOC) moves by the
/// motion repeated by the pending count.
#[verifier::opaque]
pub open spec fn motion_applied(o: App, n: App, motion: Motion) -> bool {
    let m0 = chord_cleared(o);
    let c = motion_count(o);
    if o.is_viewing_fullscreen_toc || o.active_panel == ActivePanel::Details {
        toc_step(m0, n, motion, c)
    } else if o.active_panel == ActivePanel::Collections {
        collection_step(m0, n, motion, c)
    } else {
        paper_step(m0, n, motion, c)
    }
}

/// The id of the selected collection (`None` for a virtual one or when the
/// cursor is off the list).
pub open spec fn current_collection_id(o: App) -> Option<u128> {
    if o.selected_collection < o.collections@.len() {
        o.collections@[o.selected_collection as int].id
    } else {
        None
    }
}

/// The paper cursor after the papers are re-sorted: the selected paper
/// wherever it went, else the old cursor clamped.
pub open spec fn resorted_cursor(o: App, papers: Seq<Paper>) -> int {
    if papers.len() == 0 {
        0
    } else if o.selection.paper_id is Some && has_paper(papers, o.selection.paper_id.unwrap()) {
        paper_pos(papers, o.selection.paper_id.unwrap())
    } else {
        clamp_index(o.selected_paper as int, papers.len() as int)
    }
}

/// The state after the papers are sorted by the active sort: the papers
/// shown and the stored list of the selected collection are sorted, the
/// cursor follows the selected paper and the selection is recomputed.
#[verifier::opaque]
pub open spec fn papers_resorted(o: App, n: App) -> bool {
    let key = current_collection_id(o);
    let m1 = App {
        papers: n.papers,
        papers_by_collection: n.papers_by_collection,
        selected_paper: resorted_cursor(o, n.papers@) as usize,
        ..o
    };
    &&& arranged(n.papers@, o.papers@, o.sort_field, o.sort_direction)
    &&& if o.papers_by_collection@.contains_key(key) {
        &&& n.papers_by_collection@ == o.papers_by_collection@.insert(key, n.papers_by_collection@[key])
        &&& arranged(n.papers_by_collection@[key]@, o.papers_by_collection@[key]@, o.sort_field, o.sort_direction)
    } else {
        n.papers_by_collection@ == o.papers_by_collection@
    }
    &&& selection_from_indices(m1, n)
}

/// The state after the focus moves to panel `target`: visual mode ends when
/// leaving the Papers panel, both positions are recorded.
pub open spec fn focus_moved(o: App, n: App, target: ActivePanel) -> bool {
    let leaving_visual = o.visual_mode && o.active_panel == ActivePanel::Papers;
    &&& n == App {
        active_panel: target,
        last_paper_by_collection: n.last_paper_by_collection,
        last_toc_by_paper: n.last_toc_by_paper,
        visual_mode: if leaving_visual { false } else { o.visual_mode },
        visual_anchor: if leaving_visual { None } else { o.visual_anchor },
        visual_selected_uuids: n.visual_selected_uuids,
        ..o
    }
    &&& n.last_paper_by_collection@ == recorded_paper(o)
    &&& n.last_toc_by_paper@ == recorded_toc(o)
    &&& n.visual_selected_uuids@ == if leaving_visual {
        Set::<u128>::empty()
    } else {
        o.visual_selected_uuids@
    }
}

/// Sorting keeps the selected paper selected: the cursor follows it to its
/// new place, and the selection keeps naming it.
pub proof fn lemma_sort_keeps_selection(o: App, n: App, pid: u128)
    requires
        papers_resorted(o, n),
        o.selection.paper_id == Some(pid),
        has_paper(o.papers@, pid),
    ensures
        n.selected_paper < n.papers@.len(),
        n.papers@[n.selected_paper as int].id == pid,
        o.collections@.len() > 0 ==> n.selection.paper_id == Some(pid),
{
    reveal(papers_resorted);
    reveal(arranged);
    reveal(selection_from_indices);
    let j = choose|j: int| 0 <= j < o.papers@.len() && o.papers@[j].id == pid;
    let p = o.papers@[j];
    o.papers@.to_multiset_ensures();
    n.papers@.to_multiset_ensures();
    assert(o.papers@.contains(p));
    assert(o.papers@.to_multiset().count(p) > 0);
    assert(n.papers@.to_multiset().count(p) > 0);
    assert(n.papers@.contains(p));
    let k = choose|k: int| 0 <= k < n.papers@.len() && n.papers@[k] == p;
    assert(has_paper(n.papers@, pid));
    lemma_first_paper(n.papers@, pid);
    assert(n.papers@.len() == n.papers.len());
    let pos = paper_pos(n.papers@, pid);
    assert(resorted_cursor(o, n.papers@) == pos);
    assert((pos as usize) as int == pos);
}

proof fn lemma_resorted(o: App, s1: App, s2: App, n: App)
    requires
        s1 == (App { papers_by_collection: s1.papers_by_collection, ..o }),
        if o.papers_by_collection@.contains_key(current_collection_id(o)) {
            &&& s1.papers_by_collection@ == o.papers_by_collection@.insert(
                current_collection_id(o),
                s1.papers_by_collection@[current_collection_id(o)],
            )
            &&& arranged(
                s1.papers_by_collection@[current_collection_id(o)]@,
                o.papers_by_collection@[current_collection_id(o)]@,
                o.sort_field,
                o.sort_direction,
            )
        } else {
            s1.papers_by_collection@ == o.papers_by_collection@
        },
        s2 == (App { papers: s2.papers, selected_paper: resorted_cursor(s1, s2.papers@) as usize, ..s1 }),
        arranged(s2.papers@, s1.papers@, s1.sort_field, s1.sort_direction),
        selection_from_indices(s2, n),
    ensures
        papers_resorted(o, n),
{
    lemma_selection_frame(s2, n);
    assert(n.papers == s2.papers);
    assert(n.papers_by_collection == s2.papers_by_collection);
    assert(resorted_cursor(s1, n.papers@) == resorted_cursor(o, n.papers@));
    reveal(papers_resorted);
}

impl App {
    /// Sorts the papers list by the active sort field and direction and
    /// keeps the selected paper selected.
    pub fn sort_current_papers(&mut self)
        ensures
            papers_resorted(*old(self), *final(self)),
    {
        let ghost o = *self;
        let key = self.current_collection_id_exec();
        self.sort_stored_papers(key);
        let ghost s1 = *self;
        self.sort_shown_papers();
        let ghost s2 = *self;
        self.update_selection_from_indices();
        proof {
            lemma_resorted(o, s1, s2, *self);
        }
    }

    fn current_collection_id_exec(&self) -> (r: Option<u128>)
        ensures
            r == current_collection_id(*self),
    {
        if self.selected_collection < self.collections.len() {
            self.collections[self.selected_collection].id
        } else {
            None
        }
    }

    fn sort_stored_papers(&mut self, key: Option<u128>)
        ensures
            *final(self) == (App { papers_by_collection: final(self).papers_by_collection, ..*old(self) }),
            if old(self).papers_by_collection@.contains_key(key) {
                &&& final(self).papers_by_collection@ == old(self).papers_by_collection@.insert(
                    key,
                    final(self).papers_by_collection@[key],
                )
                &&& arranged(
                    final(self).papers_by_collection@[key]@,
                    old(self).papers_by_collection@[key]@,
                    old(self).sort_field,
                    old(self).sort_direction,
                )
            } else {
                final(self).papers_by_collection@ == old(self).papers_by_collection@
            },
    {
        let stored = match self.papers_by_collection.get(&key) {
            Some(v) => Some(crate::paper::clone_papers(v)),
            None => None,
        };
        match stored {
            Some(mut list) => {
                sort_papers(&mut list, self.sort_field, self.sort_direction);
                proof {
                    reveal(arranged);
                }
                self.papers_by_collection.insert(key, list);
            },
            None => {},
        }
    }

    fn sort_shown_papers(&mut self)
        ensures
            *final(self) == (App {
                papers: final(self).papers,
                selected_paper: resorted_cursor(*old(self), final(self).papers@) as usize,
                ..*old(self)
            }),
            arranged(final(self).papers@, old(self).papers@, old(self).sort_field, old(self).sort_direction),
    {
        let mut list = crate::paper::clone_papers(&self.papers);
        sort_papers(&mut list, self.sort_field, self.sort_direction);
        proof {
            reveal(arranged);
        }
        let sp = self.resorted_cursor_for(&list);
        self.papers = list;
        self.selected_paper = sp;
    }

    fn resorted_cursor_for(&self, papers: &Vec<Paper>) -> (r: usize)
        ensures
            r == resorted_cursor(*self, papers@),
    {
        if papers.len() == 0 {
            return 0;
        }
        let found = match self.selection.paper_id {
            Some(pid) => find_paper(papers, pid),
            None => None,
        };
        match found {
            Some(i) => i,
            None => clamp_idx(self.selected_paper, papers.len()),
        }
    }

    /// Advances to the next sort field (with its default direction) and
    /// sorts the papers.
    pub fn cycle_paper_sort(&mut self)
        ensures
            papers_resorted(
                App {
                    sort_field: next_sort_spec(old(self).sort_field).0,
                    sort_direction: next_sort_spec(old(self).sort_field).1,
                    ..*old(self)
                },
                *final(self),
            ),
    {
        let (f, d) = self.sort_field.next_sort(self.sort_direction);
        self.sort_field = f;
        self.sort_direction = d;
        self.sort_current_papers();
    }

    /// Moves the focus to `target`, leaving visual mode when leaving the
    /// Papers panel and recording both positions.
    pub fn focus_panel(&mut self, target: ActivePanel)
        ensures
            focus_moved(*old(self), *final(self), target),
    {
        if self.visual_mode && self.active_panel == ActivePanel::Papers {
            self.exit_visual_mode();
        }
        self.record_position_for_current_collection();
        self.record_position_for_current_paper();
        self.active_panel = target;
    }

    /// Enters visual mode in the Papers panel when papers are listed.
    pub fn enter_visual_mode(&mut self)
        requires
            old(self).active_panel == ActivePanel::Papers && old(self).papers@.len() > 0 ==> old(
                self,
            ).selected_paper < old(self).papers@.len(),
        ensures
            if old(self).active_panel == ActivePanel::Papers && old(self).papers@.len() > 0 {
                &&& *final(self) == (App {
                    visual_mode: true,
                    visual_anchor: Some(old(self).selected_paper),
                    visual_selected_uuids: final(self).visual_selected_uuids,
                    ..*old(self)
                })
                &&& final(self).visual_selected_uuids@ == set![old(self).papers@[old(self).selected_paper as int].id]
            } else {
                *final(self) == *old(self)
            },
    {
        if self.active_panel == ActivePanel::Papers && self.papers.len() > 0 {
            self.start_visual();
        }
    }

    fn start_visual(&mut self)
        requires
            old(self).selected_paper < old(self).papers@.len(),
        ensures
            *final(self) == (App {
                visual_mode: true,
                visual_anchor: Some(old(self).selected_paper),
                visual_selected_uuids: final(self).visual_selected_uuids,
                ..*old(self)
            }),
            final(self).visual_selected_uuids@ == set![old(self).papers@[old(self).selected_paper as int].id],
    {
        let id = self.papers[self.selected_paper].id;
        self.visual_mode = true;
        self.visual_anchor = Some(self.selected_paper);
        self.visual_selected_uuids.clear();
        self.visual_selected_uuids.insert(id);
        assert(self.visual_selected_uuids@ =~= set![id]);
    }

    /// Leaves visual mode and forgets the visual selection.
    pub fn exit_visual_mode(&mut self)
        ensures
            *final(self) == (App {
                visual_mode: false,
                visual_anchor: None,
                visual_selected_uuids: final(self).visual_selected_uuids,
                ..*old(self)
            }),
            final(self).visual_selected_uuids@ == Set::<u128>::empty(),
    {
        self.visual_mode = false;
        self.visual_anchor = None;
        self.visual_selected_uuids.clear();
    }

    /// Toggles visual mode.
    pub fn toggle_visual_mode(&mut self)
        requires
            !old(self).visual_mode && old(self).active_panel == ActivePanel::Papers && old(self).papers@.len()
                > 0 ==> old(self).selected_paper < old(self).papers@.len(),
        ensures
            old(self).visual_mode ==> *final(self) == (App {
                visual_mode: false,
                visual_anchor: None,
                visual_selected_uuids: final(self).visual_selected_uuids,
                ..*old(self)
            }) && final(self).visual_selected_uuids@ == Set::<u128>::empty(),
            !old(self).visual_mode && old(self).active_panel == ActivePanel::Papers && old(self).papers@.len()
                > 0 ==> *final(self) == (App {
                visual_mode: true,
                visual_anchor: Some(old(self).selected_paper),
                visual_selected_uuids: final(self).visual_selected_uuids,
                ..*old(self)
            }) && final(self).visual_selected_uuids@ == set![old(self).papers@[old(self).selected_paper as int].id],
            !old(self).visual_mode && !(old(self).active_panel == ActivePanel::Papers && old(self).papers@.len()
                > 0) ==> *final(self) == *old(self),
    {
        if self.visual_mode {
            self.exit_visual_mode();
        } else {
            self.enter_visual_mode();
        }
    }

    /// Adds the papers from the anchor to the cursor to the visual selection.
    #[verifier::rlimit(60)]
    pub fn update_visual_range(&mut self)
        ensures
            *final(self) == (App { visual_selected_uuids: final(self).visual_selected_uuids, ..*old(self) }),
            final(self).visual_selected_uuids@ == visual_range_set(*old(self)),
    {
        let r = self.visual_range_bounds();
        match r {
            Some(b) => self.add_visual_range(b.0, b.1),
            None => self.keep_visual(),
        }
    }

    pub fn keep_visual(&mut self)
        ensures
            *final(self) == *old(self),
    {
    }

    /// The range from the anchor to the cursor, when visual mode is on and
    /// the range lies inside the list.
    pub fn visual_range_bounds(&self) -> (r: Option<(usize, usize)>)
        ensures
            match r {
                Some((lo, hi)) => lo <= hi < self.papers@.len() && visual_range_set(*self)
                    == self.visual_selected_uuids@.union(id_range(self.papers@, lo as int, hi as int)),
                None => visual_range_set(*self) == self.visual_selected_uuids@,
            },
    {
        proof {
            reveal(visual_range_set);
        }
        if !self.visual_mode {
            return None;
        }
        let anchor = match self.visual_anchor {
            Some(a) => a,
            None => {
                return None;
            },
        };
        let lo = if anchor < self.selected_paper { anchor } else { self.selected_paper };
        let hi = if anchor < self.selected_paper { self.selected_paper } else { anchor };
        if hi >= self.papers.len() {
            return None;
        }
        Some((lo, hi))
    }

    pub fn add_visual_range(&mut self, lo: usize, hi: usize)
        requires
            lo <= hi < old(self).papers@.len(),
        ensures
            *final(self) == (App { visual_selected_uuids: final(self).visual_selected_uuids, ..*old(self) }),
            final(self).visual_selected_uuids@ == old(self).visual_selected_uuids@.union(
                id_range(old(self).papers@, lo as int, hi as int),
            ),
    {
        let ghost base = self.visual_selected_uuids@;
        let ghost ps = self.papers@;
        let n = self.papers.len();
        assert(ps.len() == n);
        let mut i = lo;
        assert(id_range(ps, lo as int, lo - 1) =~= Set::<u128>::empty()) by {
            reveal(id_range);
        }
        while i <= hi
            invariant
                lo <= i <= hi + 1,
                hi < ps.len(),
                ps.len() <= usize::MAX,
                self.papers@ == ps,
                *self == (App { visual_selected_uuids: self.visual_selected_uuids, ..*old(self) }),
                self.visual_selected_uuids@ == base.union(id_range(ps, lo as int, i - 1)),
            decreases hi + 1 - i,
        {
            let id = self.papers[i].id;
            self.visual_selected_uuids.insert(id);
            proof {
                lemma_id_range_step(ps, lo as int, i as int);
                assert(self.visual_selected_uuids@ =~= base.union(id_range(ps, lo as int, i as int)));
            }
            i = i + 1;
        }
    }

    /// Toggles the paper under the cursor in the visual selection.
    pub fn toggle_current_paper_selection(&mut self)
        ensures
            *final(self) == (App { visual_selected_uuids: final(self).visual_selected_uuids, ..*old(self) }),
            final(self).visual_selected_uuids@ == if old(self).visual_mode && old(self).selected_paper
                < old(self).papers@.len() {
                let id = old(self).papers@[old(self).selected_paper as int].id;
                if old(self).visual_selected_uuids@.contains(id) {
                    old(self).visual_selected_uuids@.remove(id)
                } else {
                    old(self).visual_selected_uuids@.insert(id)
                }
            } else {
                old(self).visual_selected_uuids@
            },
    {
        if self.visual_mode && self.selected_paper < self.papers.len() {
            let id = self.papers[self.selected_paper].id;
            if self.visual_selected_uuids.contains(&id) {
                self.visual_selected_uuids.remove(&id);
            } else {
                self.visual_selected_uuids.insert(id);
            }
        }
    }

    /// The papers selected in visual mode, in list order; else the paper
    /// under the cursor; else none.
    pub fn visual_selected_papers(&self) -> (r: Vec<u128>)
        ensures
            r@ == visual_targets(*self),
    {
        if self.visual_mode && !self.visual_selected_uuids.is_empty() {
            let mut out: Vec<u128> = Vec::new();
            let mut i: usize = 0;
            while i < self.papers.len()
                invariant
                    i <= self.papers@.len(),
                    out@ == ids_in(self.papers@.take(i as int), self.visual_selected_uuids@),
                decreases self.papers@.len() - i,
            {
                proof {
                    assert(self.papers@.take(i + 1).drop_last() =~= self.papers@.take(i as int));
                }
                let id = self.papers[i].id;
                if self.visual_selected_uuids.contains(&id) {
                    out.push(id);
                }
                i = i + 1;
            }
            assert(self.papers@.take(self.papers@.len() as int) =~= self.papers@);
            out
        } else if self.selected_paper < self.papers.len() {
            let v = vec![self.papers[self.selected_paper].id];
            assert(v@ =~= seq![self.papers@[self.selected_paper as int].id]);
            v
        } else {
            Vec::new()
        }
    }

    /// Applies a navigation motion to the focused list (or the fullscreen
    /// TOC), repeated by the pending count, which it consumes with the
    /// pending chord.
    pub fn apply_motion(&mut self, motion: Motion)
        requires
            motion_ok(*old(self), motion),
        ensures
            motion_applied(*old(self), *final(self), motion),
    {
        let count = match self.pending_count {
            Some(c) => c,
            None => 1,
        };
        self.clear_chord();
        if self.is_viewing_fullscreen_toc || self.active_panel == ActivePanel::Details {
            self.toc_motion(motion, count);
        } else if self.active_panel == ActivePanel::Collections {
            self.collection_motion(motion, count);
        } else {
            self.paper_motion(motion, count);
        }
        proof {
            reveal(motion_applied);
        }
    }

    fn clear_chord(&mut self)
        ensures
            *final(self) == chord_cleared(*old(self)),
    {
        self.pending_count = None;
        self.pending_chord = None;
    }

    fn toc_motion(&mut self, motion: Motion, count: usize)
        requires
            motion_in_range(old(self).selected_toc, count, motion),
        ensures
            toc_step(*old(self), *final(self), motion, count as int),
    {
        let t = calculate_target_index(self.selected_toc, self.toc_preview.len(), motion, count);
        let moves = match t {
            Some(x) => x != self.selected_toc,
            None => false,
        };
        if moves {
            self.move_toc_to(t.unwrap());
        }
    }

    fn move_toc_to(&mut self, t: usize)
        ensures
            ({
                let m = *old(self);
                let m1 = App { selected_toc: t, ..m };
                &&& *final(self) == (App {
                    selection: final(self).selection,
                    last_paper_by_collection: final(self).last_paper_by_collection,
                    last_toc_by_paper: final(self).last_toc_by_paper,
                    ..m1
                })
                &&& final(self).selection == cursor_selection(m1)
                &&& final(self).last_paper_by_collection@ == noted_paper(m1, m.last_paper_by_collection@)
                &&& final(self).last_toc_by_paper@ == noted_toc(m1, recorded_toc(m))
            }),
    {
        let ghost m = *self;
        self.selected_toc = t;
        self.record_position_for_current_paper();
        let ghost s2 = *self;
        self.update_selection_from_indices();
        proof {
            lemma_move_toc(m, t, s2, *self);
        }
    }

    fn collection_motion(&mut self, motion: Motion, count: usize)
        requires
            motion_in_range(old(self).selected_collection, count, motion),
        ensures
            collection_step(*old(self), *final(self), motion, count as int),
    {
        let t = calculate_target_index(self.selected_collection, self.collections.len(), motion, count);
        let moves = match t {
            Some(x) => x != self.selected_collection,
            None => false,
        };
        if moves {
            self.move_collection_to(t.unwrap());
        }
    }

    fn move_collection_to(&mut self, t: usize)
        ensures
            exists|m1: App|
                #[trigger] collection_synced(m1, *final(self)) && m1 == (App {
                    selected_collection: t,
                    selected_paper: 0,
                    selected_toc: 0,
                    last_paper_by_collection: m1.last_paper_by_collection,
                    ..*old(self)
                }) && m1.last_paper_by_collection@ == recorded_paper(*old(self)),
    {
        self.record_position_for_current_collection();
        self.selected_collection = t;
        self.selected_paper = 0;
        self.selected_toc = 0;
        let ghost m1 = *self;
        self.sync_current_selection();
        assert(collection_synced(m1, *self));
    }

    fn paper_motion(&mut self, motion: Motion, count: usize)
        requires
            motion_in_range(old(self).selected_paper, count, motion),
        ensures
            paper_step(*old(self), *final(self), motion, count as int),
    {
        let t = calculate_target_index(self.selected_paper, self.papers.len(), motion, count);
        let moves = match t {
            Some(x) => x != self.selected_paper,
            None => false,
        };
        if moves {
            self.move_paper_to(t.unwrap());
        }
    }

    fn move_paper_to(&mut self, t: usize)
        ensures
            exists|m1: App, m2: App, m3: App|
                #![trigger paper_synced(m1, m2), selection_from_indices(m2, m3)]
                m1 == (App {
                    selected_paper: t,
                    selected_toc: 0,
                    last_toc_by_paper: m1.last_toc_by_paper,
                    ..*old(self)
                }) && m1.last_toc_by_paper@ == recorded_toc(*old(self)) && paper_synced(m1, m2)
                    && selection_from_indices(m2, m3) && *final(self) == (App {
                    visual_selected_uuids: final(self).visual_selected_uuids,
                    ..m3
                }) && final(self).visual_selected_uuids@ == visual_range_set(m3),
    {
        self.record_position_for_current_paper();
        self.selected_paper = t;
        self.selected_toc = 0;
        let ghost m1 = *self;
        self.sync_paper_selection();
        let ghost m2 = *self;
        self.update_selection_from_indices();
        let ghost m3 = *self;
        if self.visual_mode {
            self.update_visual_range();
        } else {
            proof {
                reveal(visual_range_set);
            }
        }
        assert(paper_synced(m1, m2) && selection_from_indices(m2, m3));
    }

    /// Adds a digit to the pending count prefix.
    pub fn handle_digit(&mut self, digit: usize)
        ensures
            *final(self) == (App {
                pending_count: Some(
                    next_count(
                        match old(self).pending_count {
                            Some(c) => c as int,
                            None => 0,
                        },
                        digit as int,
                    ) as usize,
                ),
                ..*old(self)
            }),
    {
        let current = match self.pending_count {
            Some(c) => c,
            None => 0,
        };
        let next = accumulate_count(current, digit);
        self.pending_count = Some(next);
    }
}

} // verus!

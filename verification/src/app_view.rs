//! Loading the papers of the selected collection into the view: collection
//! switches, search filtering, sorting and selection restore.
use vstd::prelude::*;
use crate::app::{
    lemma_first_paper, lemma_paper_sync_in_range, before_selection, clamp_idx, clamp_index, lemma_paper_sync_frame, lemma_selection_frame, find_collection, find_paper, find_toc, first_paper_at, has_collection,
    has_paper, has_toc, map_get, paper_pos, paper_synced, papers_in, selection_from_indices, toc_pos,
    tocs_in, collection_pos, first_collection_at, App,
};
use crate::paper::{Paper, TocEntry};
use crate::search::{search_papers, search_result};
use crate::selection::{CollectionItem, CollectionKey, SelectionState};
use crate::sorting::{level_with, sort_papers, sorted_by, PaperSortField, SortDirection};
use crate::text::{owned, str_chars, trim, trim_str, string_push, string_pop};

verus! {

/// The id of the collection that search filters: the search target while
/// search mode is active, else the selected collection.
pub open spec fn search_collection(o: App) -> Option<u128> {
    let idx = if o.is_searching { o.search_collection_index } else { o.selected_collection };
    let ci = clamp_index(idx as int, o.collections@.len() as int);
    if ci < o.collections@.len() {
        o.collections@[ci].id
    } else {
        None
    }
}

/// The papers shown for the current query.
pub open spec fn shown_papers(o: App) -> Seq<Paper> {
    search_result(papers_in(o.papers_by_collection@, search_collection(o)), o.tags_by_paper@, o.search_query@)
}

/// The state after the search filter is applied: the papers shown are the
/// query's result, the paper cursor resets to the top when it falls off the
/// list, and the TOC preview follows.
#[verifier::opaque]
pub open spec fn search_applied(o: App, n: App) -> bool {
    let shown = shown_papers(o);
    let sp = if o.selected_paper >= shown.len() { 0 } else { o.selected_paper as int };
    &&& n.papers@ == shown
    &&& paper_synced(App { papers: n.papers, selected_paper: sp as usize, ..o }, n)
}

/// `papers` holds the papers of `loaded`, each as often, sorted by the
/// given field and direction, papers that compare equal in their order in
/// `loaded`.
#[verifier::opaque]
pub open spec fn arranged(papers: Seq<Paper>, loaded: Seq<Paper>, f: PaperSortField, d: SortDirection) -> bool {
    &&& papers.to_multiset() == loaded.to_multiset()
    &&& papers.len() == loaded.len()
    &&& sorted_by(papers, f, d)
    &&& forall|a: Paper| #[trigger] level_with(papers, a, f, d) == level_with(loaded, a, f, d)
}

/// The paper cursor after a collection's papers are loaded: the paper
/// remembered for the collection when it is listed, else the old cursor.
#[verifier::opaque]
pub open spec fn remembered_paper(o: App, papers: Seq<Paper>, key: CollectionKey) -> int {
    let mem = map_get(o.last_paper_by_collection@, key);
    if mem is Some && has_paper(papers, mem.unwrap()) {
        paper_pos(papers, mem.unwrap())
    } else {
        o.selected_paper as int
    }
}

/// The collection cursor and key after a restore: the collection of the
/// selection when it is listed, else the old cursor clamped.
pub open spec fn restored_collection(o: App) -> (int, CollectionKey) {
    let cs = o.collections@;
    if cs.len() == 0 {
        (0, CollectionKey::All)
    } else if has_collection(cs, o.selection.collection) {
        (collection_pos(cs, o.selection.collection), o.selection.collection)
    } else {
        let sc = clamp_index(o.selected_collection as int, cs.len() as int);
        (sc, cs[sc].key)
    }
}

/// The paper to restore: the selected one when listed, else the one
/// remembered, when listed.
pub open spec fn paper_target(papers: Seq<Paper>, want: Option<u128>, mem: Option<u128>) -> Option<u128> {
    if want is Some && has_paper(papers, want.unwrap()) {
        want
    } else if mem is Some && has_paper(papers, mem.unwrap()) {
        mem
    } else {
        None
    }
}

/// The TOC entry to restore: the selected one when listed, else the one
/// remembered, when listed.
pub open spec fn toc_target(tocs: Seq<TocEntry>, want: Option<u128>, mem: Option<u128>) -> Option<u128> {
    if want is Some && has_toc(tocs, want.unwrap()) {
        want
    } else if mem is Some && has_toc(tocs, mem.unwrap()) {
        mem
    } else {
        None
    }
}

/// The values of a restore: collection cursor and key, papers, paper cursor
/// and id, TOC entries, TOC cursor and id.
pub open spec fn restore_values(
    o: App,
    sc: int,
    key: CollectionKey,
    papers: Seq<Paper>,
    sp: int,
    pid: Option<u128>,
    tocs: Seq<TocEntry>,
    st: int,
    tid: Option<u128>,
) -> bool {
    &&& sc == restored_collection(o).0
    &&& key == restored_collection(o).1
    &&& if o.collections@.len() == 0 {
        papers.len() == 0 && sp == 0 && pid is None
    } else {
        let loaded = papers_in(o.papers_by_collection@, o.collections@[sc].id);
        let target = paper_target(loaded, o.selection.paper_id, map_get(o.last_paper_by_collection@, key));
        &&& papers == loaded
        &&& if loaded.len() == 0 {
            sp == 0 && pid is None
        } else {
            match target {
                Some(t) => sp == paper_pos(loaded, t) && pid == target,
                None => {
                    let c = clamp_index(o.selected_paper as int, loaded.len() as int);
                    sp == c && pid == Some(loaded[c].id)
                },
            }
        }
    }
    &&& if papers.len() == 0 {
        tocs.len() == 0 && st == 0 && tid is None
    } else {
        let p = papers[sp].id;
        let loaded = tocs_in(o.tocs_by_paper@, p);
        let target = toc_target(loaded, o.selection.toc_id, map_get(o.last_toc_by_paper@, p));
        &&& tocs == loaded
        &&& if loaded.len() == 0 {
            st == 0 && tid is None
        } else {
            match target {
                Some(t) => st == toc_pos(loaded, t) && tid == target,
                None => {
                    let c = clamp_index(o.selected_toc as int, loaded.len() as int);
                    st == c && tid == Some(loaded[c].id)
                },
            }
        }
    }
}

/// The list cursors after a restore from the authoritative selection.
///
/// The collection of the selection is found again (or the cursor clamped);
/// its papers are loaded as stored (no sorting); the selected paper, else
/// the remembered one, is found again, else the cursor is clamped; the same
/// for the TOC entry of the selected paper.
#[verifier::opaque]
pub open spec fn restored(o: App, n: App) -> bool {
    &&& n == App {
        selected_collection: n.selected_collection,
        papers: n.papers,
        selected_paper: n.selected_paper,
        toc_preview: n.toc_preview,
        selected_toc: n.selected_toc,
        selection: n.selection,
        ..o
    }
    &&& restore_values(
        o,
        n.selected_collection as int,
        n.selection.collection,
        n.papers@,
        n.selected_paper as int,
        n.selection.paper_id,
        n.toc_preview@,
        n.selected_toc as int,
        n.selection.toc_id,
    )
}

proof fn lemma_first_collection(s: Seq<CollectionItem>, k: CollectionKey)
    requires
        has_collection(s, k),
    ensures
        first_collection_at(s, k, collection_pos(s, k)),
    decreases s.len(),
{
    if has_collection(s.drop_last(), k) {
        lemma_first_collection(s.drop_last(), k);
        let i = collection_pos(s.drop_last(), k);
        assert forall|j: int| 0 <= j < i implies s[j].key != k by {
            assert(s[j] == s.drop_last()[j]);
        }
        assert(s[i] == s.drop_last()[i]);
        assert(first_collection_at(s, k, i));
    } else {
        let m = choose|m: int| 0 <= m < s.len() && s[m].key == k;
        if m < s.len() - 1 {
            assert(s.drop_last()[m] == s[m]);
        }
        assert forall|j: int| 0 <= j < s.len() - 1 implies s[j].key != k by {
            assert(s.drop_last()[j] == s[j]);
        }
        assert(first_collection_at(s, k, s.len() - 1));
    }
}

/// Restoring the selection by id leaves every cursor on an entry and the
/// selection naming what the cursors show: the collection cursor is on a
/// collection whose key the selection names and whose stored papers are
/// shown, the paper cursor is on a paper that the selection names, and a
/// selected paper that is still listed is the one under the cursor again.
pub proof fn lemma_restore_keeps_selection(o: App, n: App)
    requires
        restored(o, n),
    ensures
        n.collections == o.collections,
        o.collections@.len() > 0 ==> {
            &&& n.selected_collection < n.collections@.len()
            &&& n.selection.collection == n.collections@[n.selected_collection as int].key
            &&& n.papers@ == papers_in(o.papers_by_collection@, n.collections@[n.selected_collection as int].id)
        },
        n.papers@.len() > 0 ==> {
            &&& n.selected_paper < n.papers@.len()
            &&& n.selection.paper_id == Some(n.papers@[n.selected_paper as int].id)
        },
        forall|pid: u128|
            o.selection.paper_id == Some(pid) && #[trigger] has_paper(n.papers@, pid) ==> n.papers@[n.selected_paper as int].id
                == pid,
{
    reveal(restored);
    let cs = o.collections@;
    if cs.len() > 0 && has_collection(cs, o.selection.collection) {
        lemma_first_collection(cs, o.selection.collection);
    }
    if cs.len() > 0 {
        let sc = restored_collection(o).0;
        let key = restored_collection(o).1;
        let loaded = papers_in(o.papers_by_collection@, cs[sc].id);
        let target = paper_target(loaded, o.selection.paper_id, map_get(o.last_paper_by_collection@, key));
        if loaded.len() > 0 {
            match target {
                Some(t) => {
                    lemma_first_paper(loaded, t);
                },
                None => {},
            }
        }
        assert forall|pid: u128|
            o.selection.paper_id == Some(pid) && #[trigger] has_paper(n.papers@, pid) implies n.papers@[n.selected_paper as int].id
                == pid by {
            lemma_first_paper(loaded, pid);
        }
    }
}

/// The state after the view is synchronised with the selected collection.
///
/// Without collections the view empties. With a blank query the cursor is
/// clamped, the collection's papers are loaded and sorted by the active
/// sort, the cursor goes to the paper remembered for the collection, the TOC
/// preview follows and the selection is recomputed. With a query the search
/// filter is applied instead.
#[verifier::opaque]
pub open spec fn collection_synced(o: App, n: App) -> bool {
    if o.collections@.len() == 0 {
        let m1 = App { selected_collection: 0, papers: n.papers, selected_toc: 0, ..o };
        &&& n.papers@.len() == 0
        &&& paper_synced(m1, before_selection(n, m1))
        &&& selection_from_indices(before_selection(n, m1), n)
    } else {
        let sc = clamp_index(o.selected_collection as int, o.collections@.len() as int);
        if trim(o.search_query@).len() == 0 {
            let item = o.collections@[sc];
            let loaded = papers_in(o.papers_by_collection@, item.id);
            let m1 = App {
                selected_collection: sc as usize,
                papers: n.papers,
                selected_paper: remembered_paper(o, n.papers@, item.key) as usize,
                selected_toc: 0,
                ..o
            };
            &&& arranged(n.papers@, loaded, o.sort_field, o.sort_direction)
            &&& paper_synced(m1, before_selection(n, m1))
            &&& selection_from_indices(before_selection(n, m1), n)
        } else {
            search_applied(App { selected_collection: sc as usize, ..o }, n)
        }
    }
}

/// Reloading the view leaves both cursors on an entry, or at 0 for an
/// empty list.
pub proof fn lemma_reload_cursors_in_range(o: App, n: App)
    requires
        collection_synced(o, n),
    ensures
        n.papers@.len() == 0 ==> n.selected_paper == 0,
        n.papers@.len() > 0 ==> n.selected_paper < n.papers@.len(),
        n.toc_preview@.len() == 0 ==> n.selected_toc == 0,
        n.toc_preview@.len() > 0 ==> n.selected_toc < n.toc_preview@.len(),
{
    reveal(collection_synced);
    if o.collections@.len() == 0 {
        let m1 = App { selected_collection: 0, papers: n.papers, selected_toc: 0, ..o };
        lemma_paper_sync_in_range(m1, before_selection(n, m1));
        reveal(selection_from_indices);
    } else {
        let sc = clamp_index(o.selected_collection as int, o.collections@.len() as int);
        if trim(o.search_query@).len() == 0 {
            let item = o.collections@[sc];
            let m1 = App {
                selected_collection: sc as usize,
                papers: n.papers,
                selected_paper: remembered_paper(o, n.papers@, item.key) as usize,
                selected_toc: 0,
                ..o
            };
            lemma_paper_sync_in_range(m1, before_selection(n, m1));
            reveal(selection_from_indices);
        } else {
            reveal(search_applied);
            let o2 = App { selected_collection: sc as usize, ..o };
            let shown = shown_papers(o2);
            let sp = if o2.selected_paper >= shown.len() { 0 } else { o2.selected_paper as int };
            lemma_paper_sync_in_range(App { papers: n.papers, selected_paper: sp as usize, ..o2 }, n);
        }
    }
}

/// Coming back to a collection puts the cursor on the paper remembered for
/// it, when that paper is still listed (with a blank query).
pub proof fn lemma_memory_restores_paper(o: App, n: App, pid: u128)
    requires
        collection_synced(o, n),
        o.collections@.len() > 0,
        trim(o.search_query@).len() == 0,
        map_get(
            o.last_paper_by_collection@,
            o.collections@[clamp_index(o.selected_collection as int, o.collections@.len() as int)].key,
        ) == Some(pid),
        has_paper(n.papers@, pid),
    ensures
        n.selected_paper < n.papers@.len(),
        n.papers@[n.selected_paper as int].id == pid,
{
    reveal(collection_synced);
    reveal(remembered_paper);
    reveal(paper_synced);
    reveal(selection_from_indices);
    lemma_first_paper(n.papers@, pid);
    assert(n.papers@.len() == n.papers.len());
    let pos = paper_pos(n.papers@, pid);
    let item = o.collections@[clamp_index(o.selected_collection as int, o.collections@.len() as int)];
    assert(remembered_paper(o, n.papers@, item.key) == pos);
    assert((pos as usize) as int == pos);
}

/// The three steps of a collection load compose into `collection_synced`.
proof fn lemma_collection_synced_steps(o: App, s1: App, s2: App, n: App)
    requires
        o.collections@.len() > 0,
        trim(o.search_query@).len() == 0,
        ({
            let sc = clamp_index(o.selected_collection as int, o.collections@.len() as int);
            let item = o.collections@[sc];
            let loaded = papers_in(o.papers_by_collection@, item.id);
            &&& s1 == (App {
                selected_collection: sc as usize,
                papers: s1.papers,
                selected_paper: remembered_paper(o, s1.papers@, item.key) as usize,
                selected_toc: 0,
                ..o
            })
            &&& arranged(s1.papers@, loaded, o.sort_field, o.sort_direction)
        }),
        paper_synced(s1, s2),
        selection_from_indices(s2, n),
    ensures
        collection_synced(o, n),
{
    lemma_paper_sync_frame(s1, s2);
    lemma_selection_frame(s2, n);
    assert(n.papers == s2.papers);
    assert(before_selection(n, s1) == before_selection(n, s2));
    reveal(collection_synced);
}

/// Whether a query is blank once trimmed.
pub fn query_is_blank(q: &String) -> (b: bool)
    ensures
        b == (trim(q@).len() == 0),
{
    let t = trim_str(q.as_str());
    let c = str_chars(t.as_str());
    c.len() == 0
}

/// The cursor kept when it is inside a list of `len`, else reset to 0.
fn reset_if_out(i: usize, len: usize) -> (r: usize)
    ensures
        r == if i >= len { 0 } else { i },
{
    if i >= len {
        0
    } else {
        i
    }
}

fn pick_paper(papers: &Vec<Paper>, want: Option<u128>, mem: Option<u128>, sp: usize) -> (r: (usize, u128))
    requires
        papers@.len() > 0,
    ensures
        match paper_target(papers@, want, mem) {
            Some(t) => r.0 == paper_pos(papers@, t) && r.1 == t,
            None => r.0 == clamp_index(sp as int, papers@.len() as int) && r.1 == papers@[r.0 as int].id,
        },
        r.0 < papers@.len(),
        papers@[r.0 as int].id == r.1,
{
    if let Some(w) = want {
        if let Some(i) = find_paper(papers, w) {
            return (i, w);
        }
    }
    if let Some(m) = mem {
        if let Some(i) = find_paper(papers, m) {
            return (i, m);
        }
    }
    let i = clamp_idx(sp, papers.len());
    (i, papers[i].id)
}

fn pick_toc(tocs: &Vec<TocEntry>, want: Option<u128>, mem: Option<u128>, st: usize) -> (r: (usize, u128))
    requires
        tocs@.len() > 0,
    ensures
        match toc_target(tocs@, want, mem) {
            Some(t) => r.0 == toc_pos(tocs@, t) && r.1 == t,
            None => r.0 == clamp_index(st as int, tocs@.len() as int) && r.1 == tocs@[r.0 as int].id,
        },
        r.0 < tocs@.len(),
{
    if let Some(w) = want {
        if let Some(i) = find_toc(tocs, w) {
            return (i, w);
        }
    }
    if let Some(m) = mem {
        if let Some(i) = find_toc(tocs, m) {
            return (i, m);
        }
    }
    let i = clamp_idx(st, tocs.len());
    (i, tocs[i].id)
}

impl App {
    /// The restored collection cursor and key.
    fn restored_collection_exec(&self) -> (r: (usize, CollectionKey))
        ensures
            r.0 == restored_collection(*self).0,
            r.1 == restored_collection(*self).1,
            self.collections@.len() > 0 ==> r.0 < self.collections@.len(),
    {
        if self.collections.len() == 0 {
            return (0, CollectionKey::All);
        }
        match find_collection(&self.collections, self.selection.collection) {
            Some(i) => (i, self.selection.collection),
            None => {
                let sc = clamp_idx(self.selected_collection, self.collections.len());
                (sc, self.collections[sc].key)
            },
        }
    }

    /// Recomputes the list cursors from the authoritative selection: items
    /// that are still listed keep their selection wherever they moved.
    pub fn restore_selection_by_uuid(&mut self)
        ensures
            restored(*old(self), *final(self)),
    {
        let (sc, key, papers, sp, pid, tocs, st, tid) = self.restore_plan();
        self.apply_restore(sc, key, papers, sp, pid, tocs, st, tid);
        proof {
            reveal(restored);
        }
    }

    fn restore_plan(&self) -> (r: (usize, CollectionKey, Vec<Paper>, usize, Option<u128>, Vec<TocEntry>, usize, Option<u128>))
        ensures
            restore_values(*self, r.0 as int, r.1, r.2@, r.3 as int, r.4, r.5@, r.6 as int, r.7),
    {
        let (sc, key) = self.restored_collection_exec();
        let papers = if self.collections.len() == 0 {
            Vec::new()
        } else {
            self.load_papers(self.collections[sc].id)
        };
        let (sp, pid) = if papers.len() == 0 {
            (0, None)
        } else {
            let mem = match self.last_paper_by_collection.get(&key) {
                Some(p) => Some(*p),
                None => None,
            };
            let (i, p) = pick_paper(&papers, self.selection.paper_id, mem, self.selected_paper);
            (i, Some(p))
        };
        let (tocs, st, tid) = if papers.len() == 0 {
            (Vec::new(), 0, None)
        } else {
            let p = papers[sp].id;
            let tocs = self.load_tocs(p);
            if tocs.len() == 0 {
                (tocs, 0, None)
            } else {
                let mem = match self.last_toc_by_paper.get(&p) {
                    Some(t) => Some(*t),
                    None => None,
                };
                let (i, t) = pick_toc(&tocs, self.selection.toc_id, mem, self.selected_toc);
                (tocs, i, Some(t))
            }
        };
        (sc, key, papers, sp, pid, tocs, st, tid)
    }

    fn apply_restore(
        &mut self,
        sc: usize,
        key: CollectionKey,
        papers: Vec<Paper>,
        sp: usize,
        pid: Option<u128>,
        tocs: Vec<TocEntry>,
        st: usize,
        tid: Option<u128>,
    )
        ensures
            *final(self) == (App {
                selected_collection: sc,
                papers: papers,
                selected_paper: sp,
                toc_preview: tocs,
                selected_toc: st,
                selection: SelectionState { collection: key, paper_id: pid, toc_id: tid },
                ..*old(self)
            }),
    {
        self.selected_collection = sc;
        self.papers = papers;
        self.selected_paper = sp;
        self.toc_preview = tocs;
        self.selected_toc = st;
        self.selection = SelectionState { collection: key, paper_id: pid, toc_id: tid };
    }

    /// The id of the collection that search filters.
    pub fn search_collection_id(&self) -> (r: Option<u128>)
        ensures
            r == search_collection(*self),
    {
        let idx = if self.is_searching { self.search_collection_index } else { self.selected_collection };
        let ci = clamp_idx(idx, self.collections.len());
        if ci < self.collections.len() {
            self.collections[ci].id
        } else {
            None
        }
    }

    fn set_shown_papers(&mut self, shown: Vec<Paper>)
        ensures
            *final(self) == (App {
                papers: shown,
                selected_paper: (if old(self).selected_paper >= shown@.len() {
                    0
                } else {
                    old(self).selected_paper as int
                }) as usize,
                ..*old(self)
            }),
    {
        let sp = reset_if_out(self.selected_paper, shown.len());
        self.papers = shown;
        self.selected_paper = sp;
    }

    /// Filters the papers of the search collection by the search query.
    pub fn apply_search_filter(&mut self)
        ensures
            search_applied(*old(self), *final(self)),
    {
        let key = self.search_collection_id();
        let base = self.load_papers(key);
        let shown = search_papers(&base, &self.tags_by_paper, self.search_query.as_str());
        self.set_shown_papers(shown);
        let ghost s1 = *self;
        self.sync_paper_selection();
        proof {
            lemma_paper_sync_frame(s1, *self);
            reveal(search_applied);
        }
    }

    fn reset_collection_view(&mut self)
        ensures
            *final(self) == (App {
                selected_collection: 0,
                papers: final(self).papers,
                selected_toc: 0,
                ..*old(self)
            }),
            final(self).papers@.len() == 0,
    {
        self.selected_collection = 0;
        self.papers = Vec::new();
        self.selected_toc = 0;
    }

    fn clamp_collection_cursor(&mut self)
        ensures
            *final(self) == (App {
                selected_collection: clamp_index(
                    old(self).selected_collection as int,
                    old(self).collections@.len() as int,
                ) as usize,
                ..*old(self)
            }),
    {
        let sc = clamp_idx(self.selected_collection, self.collections.len());
        self.selected_collection = sc;
    }

    /// The cursor for a freshly loaded paper list of collection `key`.
    fn remembered_paper_for(&self, papers: &Vec<Paper>, key: CollectionKey) -> (r: usize)
        ensures
            r == remembered_paper(*self, papers@, key),
    {
        let found = match self.last_paper_by_collection.get(&key) {
            Some(pid) => find_paper(papers, *pid),
            None => None,
        };
        proof {
            reveal(remembered_paper);
        }
        match found {
            Some(i) => i,
            None => self.selected_paper,
        }
    }

    fn load_collection_papers(&mut self)
        requires
            old(self).collections@.len() > 0,
        ensures
            ({
                let o = *old(self);
                let n = *final(self);
                let sc = clamp_index(o.selected_collection as int, o.collections@.len() as int);
                let item = o.collections@[sc];
                let loaded = papers_in(o.papers_by_collection@, item.id);
                &&& n == (App {
                    selected_collection: sc as usize,
                    papers: n.papers,
                    selected_paper: remembered_paper(o, n.papers@, item.key) as usize,
                    selected_toc: 0,
                    ..o
                })
                &&& arranged(n.papers@, loaded, o.sort_field, o.sort_direction)
            }),
    {
        let sc = clamp_idx(self.selected_collection, self.collections.len());
        let id = self.collections[sc].id;
        let key = self.collections[sc].key;
        let mut papers = self.load_papers(id);
        sort_papers(&mut papers, self.sort_field, self.sort_direction);
        let sp = self.remembered_paper_for(&papers, key);
        proof {
            reveal(arranged);
        }
        self.selected_collection = sc;
        self.papers = papers;
        self.selected_paper = sp;
        self.selected_toc = 0;
    }

    /// Loads the papers of the selected collection into the view.
    pub fn sync_current_selection(&mut self)
        ensures
            collection_synced(*old(self), *final(self)),
    {
        if self.collections.len() == 0 {
            self.sync_without_collections();
        } else if query_is_blank(&self.search_query) {
            self.sync_collection_papers();
        } else {
            self.sync_search_view();
        }
    }

    fn sync_without_collections(&mut self)
        requires
            old(self).collections@.len() == 0,
        ensures
            collection_synced(*old(self), *final(self)),
    {
        self.reset_collection_view();
        let ghost s1 = *self;
        self.sync_paper_selection();
        let ghost s2 = *self;
        self.update_selection_from_indices();
        proof {
            lemma_paper_sync_frame(s1, s2);
            lemma_selection_frame(s2, *self);
            assert(before_selection(*self, s1) == before_selection(*self, s2));
            reveal(collection_synced);
        }
    }

    fn sync_collection_papers(&mut self)
        requires
            old(self).collections@.len() > 0,
            trim(old(self).search_query@).len() == 0,
        ensures
            collection_synced(*old(self), *final(self)),
    {
        let ghost o = *self;
        self.load_collection_papers();
        let ghost s1 = *self;
        self.sync_paper_selection();
        let ghost s2 = *self;
        self.update_selection_from_indices();
        proof {
            lemma_collection_synced_steps(o, s1, s2, *self);
        }
    }

    fn sync_search_view(&mut self)
        requires
            old(self).collections@.len() > 0,
            trim(old(self).search_query@).len() != 0,
        ensures
            collection_synced(*old(self), *final(self)),
    {
        self.clamp_collection_cursor();
        self.apply_search_filter();
        proof {
            reveal(collection_synced);
        }
    }
}


impl App {
    /// Starts interactive search over the selected collection.
    pub fn start_search(&mut self)
        ensures
            search_applied(
                App { is_searching: true, search_collection_index: old(self).selected_collection, ..*old(self) },
                *final(self),
            ),
    {
        self.is_searching = true;
        self.search_collection_index = self.selected_collection;
        self.apply_search_filter();
    }

    /// Moves the search to the next collection (wrapping around) and filters
    /// again; without collections nothing changes.
    pub fn cycle_search_collection(&mut self)
        requires
            old(self).collections@.len() > 0 ==> old(self).search_collection_index < usize::MAX,
        ensures
            old(self).collections@.len() == 0 ==> *final(self) == *old(self),
            old(self).collections@.len() > 0 ==> search_applied(
                App {
                    search_collection_index: ((old(self).search_collection_index + 1) % (old(
                        self,
                    ).collections@.len() as int)) as usize,
                    ..*old(self)
                },
                *final(self),
            ),
    {
        if self.collections.len() > 0 {
            self.search_collection_index = (self.search_collection_index + 1) % self.collections.len();
            self.apply_search_filter();
        }
    }

    /// Leaves search mode, clears the query and reloads the selected
    /// collection.
    pub fn cancel_search(&mut self)
        ensures
            exists|m: App|
                #[trigger] collection_synced(m, *final(self)) && m == (App {
                    is_searching: false,
                    search_query: m.search_query,
                    search_collection_index: old(self).selected_collection,
                    ..*old(self)
                }) && m.search_query@.len() == 0,
    {
        self.is_searching = false;
        self.search_query = String::new();
        self.search_collection_index = self.selected_collection;
        let ghost m = *self;
        self.sync_current_selection();
        assert(collection_synced(m, *self));
    }

    /// Leaves search input, keeping the filtered papers.
    pub fn confirm_search(&mut self)
        ensures
            *final(self) == (App { is_searching: false, ..*old(self) }),
    {
        self.is_searching = false;
    }

    /// Sets the search query and filters again.
    pub fn set_search_query(&mut self, query: &str)
        ensures
            exists|m: App|
                #[trigger] search_applied(m, *final(self)) && m == (App { search_query: m.search_query, ..*old(self) })
                    && m.search_query@ == query@,
    {
        self.search_query = owned(query);
        let ghost m = *self;
        self.apply_search_filter();
        assert(search_applied(m, *self));
    }

    /// Appends a character to the search query and filters again.
    pub fn push_search_char(&mut self, c: char)
        ensures
            exists|m: App|
                #[trigger] search_applied(m, *final(self)) && m == (App { search_query: m.search_query, ..*old(self) })
                    && m.search_query@ == old(self).search_query@.push(c),
    {
        string_push(&mut self.search_query, c);
        let ghost m = *self;
        self.apply_search_filter();
        assert(search_applied(m, *self));
    }

    /// Removes the last character of the search query, if any, and filters
    /// again.
    pub fn pop_search_char(&mut self)
        ensures
            exists|m: App|
                #[trigger] search_applied(m, *final(self)) && m == (App { search_query: m.search_query, ..*old(self) })
                    && m.search_query@ == (if old(self).search_query@.len() == 0 {
                    old(self).search_query@
                } else {
                    old(self).search_query@.drop_last()
                }),
    {
        string_pop(&mut self.search_query);
        let ghost m = *self;
        self.apply_search_filter();
        assert(search_applied(m, *self));
    }
}

} // verus!

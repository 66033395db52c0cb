//! The application state of the terminal interface and the bookkeeping that
//! keeps its list cursors and its authoritative selection in step.
use vstd::prelude::*;
use crate::collections::{IdSet, KeyMap};
use crate::paper::{clone_papers, clone_tocs, Paper, TocEntry};
use crate::panel::{ActivePanel, LayoutMode};
use crate::picker::GenericPicker;
use crate::selection::{CollectionItem, CollectionKey, SelectionState};
use crate::sorting::{PaperSortField, SortDirection};
use crate::toc::{TocEditState, TocImportState};

verus! {

/// What an open picker is for.
#[derive(Debug, PartialEq, Eq)]
pub enum PickerContext {
    /// Jump to a paper or a collection.
    QuickOpen,
    /// Add the target papers to collections or remove them.
    CollectionMembership { target_papers: Vec<u128> },
    /// Add tags to the target papers or remove them.
    TagManagement { target_papers: Vec<u128> },
}

/// Primary application state.
pub struct App {
    /// Focused panel.
    pub active_panel: ActivePanel,
    /// Collections shown in the left panel.
    pub collections: Vec<CollectionItem>,
    /// Index of the selected collection.
    pub selected_collection: usize,
    /// Papers of the selected collection (after search filtering).
    pub papers: Vec<Paper>,
    /// Index of the selected paper.
    pub selected_paper: usize,
    /// TOC entries of the selected paper.
    pub toc_preview: Vec<TocEntry>,
    /// Index of the selected TOC entry.
    pub selected_toc: usize,
    /// Authoritative selection (collection, paper, TOC entry).
    pub selection: SelectionState,
    /// Last selected paper of each collection.
    pub last_paper_by_collection: KeyMap<CollectionKey, u128>,
    /// Last selected TOC entry of each paper.
    pub last_toc_by_paper: KeyMap<u128, u128>,
    /// Message of the status bar.
    pub status_message: Option<String>,
    /// Whether the application keeps running.
    pub running: bool,
    /// Whether search input mode is active.
    pub is_searching: bool,
    /// Search / filter query.
    pub search_query: String,
    /// Whether the metadata modal is open.
    pub is_editing_metadata: bool,
    /// Focused metadata field (0..=5).
    pub editing_field_index: usize,
    /// Buffers of the six metadata fields: title, authors, year, journal,
    /// DOI, abstract.
    pub edit_buffers: Vec<String>,
    /// State of the TOC add/edit modal, if open.
    pub toc_edit_state: Option<TocEditState>,
    /// State of the TOC import modal, if open.
    pub toc_import_state: Option<TocImportState>,
    /// Whether the add-paper modal is open.
    pub is_adding_paper: bool,
    /// Path buffer of the add-paper modal.
    pub add_paper_path_buffer: String,
    /// Whether the create-collection modal is open.
    pub is_creating_collection: bool,
    /// Name buffer of the create-collection modal.
    pub collection_name_buffer: String,
    /// Whether the terminal should be cleared before the next draw.
    pub needs_clear: bool,
    /// Whether the fullscreen TOC view is active.
    pub is_viewing_fullscreen_toc: bool,
    /// Scroll offset of the fullscreen TOC view.
    pub toc_scroll_offset: usize,
    /// Whether the tag modal is open.
    pub is_editing_tags: bool,
    /// Input buffer of the tag modal.
    pub tags_input_buffer: String,
    /// Whether the delete confirmation is open.
    pub is_confirming_delete: bool,
    /// What the delete confirmation is about.
    pub delete_target_description: String,
    /// Whether the help modal is open.
    pub is_showing_help: bool,
    /// Collection searched while search mode is active.
    pub search_collection_index: usize,
    /// Whether the rename-collection modal is open.
    pub is_renaming_collection: bool,
    /// Name buffer of the rename-collection modal.
    pub rename_collection_buffer: String,
    /// Whether the export-collection modal is open.
    pub is_exporting_collection: bool,
    /// Path buffer of the export-collection modal.
    pub export_path_buffer: String,
    /// Whether the import-metadata modal is open.
    pub is_importing_metadata: bool,
    /// Path buffer of the import-metadata modal.
    pub import_metadata_buffer: String,
    /// Parent of the collection being created, for a subcollection.
    pub create_collection_parent_id: Option<u128>,
    /// Tags of each paper.
    pub tags_by_paper: KeyMap<u128, Vec<String>>,
    /// Multi-panel or single-panel layout.
    pub layout_mode: LayoutMode,
    /// Sort field of the papers list.
    pub sort_field: PaperSortField,
    /// Sort direction of the papers list.
    pub sort_direction: SortDirection,
    /// Pending count prefix of a motion (as in `5j`).
    pub pending_count: Option<usize>,
    /// Pending first key of a chord (as the first `g` of `gg`).
    pub pending_chord: Option<char>,
    /// Breadcrumb path of each collection.
    pub collection_breadcrumbs: KeyMap<CollectionKey, String>,
    /// Papers of each collection (`None` for all papers).
    pub papers_by_collection: KeyMap<Option<u128>, Vec<Paper>>,
    /// TOC entries of each paper.
    pub tocs_by_paper: KeyMap<u128, Vec<TocEntry>>,
    /// Whether visual (multi-selection) mode is active.
    pub visual_mode: bool,
    /// Row where visual mode started.
    pub visual_anchor: Option<usize>,
    /// Papers selected in visual mode.
    pub visual_selected_uuids: IdSet,
    /// The open picker, if any.
    pub active_picker: Option<GenericPicker>,
    /// What the open picker is for.
    pub picker_context: Option<PickerContext>,
}

// ------------------------------------------------------------ lookups

/// The value stored under `k`, if any.
pub open spec fn map_get<K, V>(m: Map<K, V>, k: K) -> Option<V> {
    if m.contains_key(k) {
        Some(m[k])
    } else {
        None
    }
}

/// Whether a paper with id `id` is listed.
pub open spec fn has_paper(s: Seq<Paper>, id: u128) -> bool {
    exists|i: int| 0 <= i < s.len() && s[i].id == id
}

/// `i` is the first position of a paper with id `id`.
pub open spec fn first_paper_at(s: Seq<Paper>, id: u128, i: int) -> bool {
    &&& 0 <= i < s.len()
    &&& s[i].id == id
    &&& forall|j: int| 0 <= j < i ==> s[j].id != id
}

/// The first position of a paper with id `id` (meaningful when listed).
pub open spec fn paper_pos(s: Seq<Paper>, id: u128) -> int {
    choose|i: int| first_paper_at(s, id, i)
}

/// Whether a TOC entry with id `id` is listed.
pub open spec fn has_toc(s: Seq<TocEntry>, id: u128) -> bool {
    exists|i: int| 0 <= i < s.len() && s[i].id == id
}

/// `i` is the first position of a TOC entry with id `id`.
pub open spec fn first_toc_at(s: Seq<TocEntry>, id: u128, i: int) -> bool {
    &&& 0 <= i < s.len()
    &&& s[i].id == id
    &&& forall|j: int| 0 <= j < i ==> s[j].id != id
}

/// The first position of a TOC entry with id `id` (meaningful when listed).
pub open spec fn toc_pos(s: Seq<TocEntry>, id: u128) -> int {
    choose|i: int| first_toc_at(s, id, i)
}

/// Whether a collection with key `k` is listed.
pub open spec fn has_collection(s: Seq<CollectionItem>, k: CollectionKey) -> bool {
    exists|i: int| 0 <= i < s.len() && s[i].key == k
}

/// `i` is the first position of a collection with key `k`.
pub open spec fn first_collection_at(s: Seq<CollectionItem>, k: CollectionKey, i: int) -> bool {
    &&& 0 <= i < s.len()
    &&& s[i].key == k
    &&& forall|j: int| 0 <= j < i ==> s[j].key != k
}

/// The first position of a collection with key `k` (meaningful when listed).
pub open spec fn collection_pos(s: Seq<CollectionItem>, k: CollectionKey) -> int {
    choose|i: int| first_collection_at(s, k, i)
}

/// `min(i, len - 1)`, and 0 for an empty list (`saturating_sub`).
pub open spec fn clamp_index(i: int, len: int) -> int {
    if len == 0 {
        0
    } else if i >= len {
        len - 1
    } else {
        i
    }
}

/// Finds the first paper with the given id.
pub fn find_paper(s: &Vec<Paper>, id: u128) -> (r: Option<usize>)
    ensures
        r is None <==> !has_paper(s@, id),
        r matches Some(i) ==> first_paper_at(s@, id, i as int) && i == paper_pos(s@, id),
{
    let mut i: usize = 0;
    while i < s.len()
        invariant
            i <= s@.len(),
            forall|j: int| 0 <= j < i ==> s@[j].id != id,
        decreases s@.len() - i,
    {
        if s[i].id == id {
            assert(first_paper_at(s@, id, i as int));
            return Some(i);
        }
        i = i + 1;
    }
    None
}

/// Finds the first TOC entry with the given id.
pub fn find_toc(s: &Vec<TocEntry>, id: u128) -> (r: Option<usize>)
    ensures
        r is None <==> !has_toc(s@, id),
        r matches Some(i) ==> first_toc_at(s@, id, i as int) && i == toc_pos(s@, id),
{
    let mut i: usize = 0;
    while i < s.len()
        invariant
            i <= s@.len(),
            forall|j: int| 0 <= j < i ==> s@[j].id != id,
        decreases s@.len() - i,
    {
        if s[i].id == id {
            assert(first_toc_at(s@, id, i as int));
            return Some(i);
        }
        i = i + 1;
    }
    None
}

/// Finds the first collection with the given key.
pub fn find_collection(s: &Vec<CollectionItem>, k: CollectionKey) -> (r: Option<usize>)
    ensures
        r is None <==> !has_collection(s@, k),
        r matches Some(i) ==> first_collection_at(s@, k, i as int) && i == collection_pos(s@, k),
{
    let mut i: usize = 0;
    while i < s.len()
        invariant
            i <= s@.len(),
            forall|j: int| 0 <= j < i ==> s@[j].key != k,
        decreases s@.len() - i,
    {
        if s[i].key == k {
            assert(first_collection_at(s@, k, i as int));
            return Some(i);
        }
        i = i + 1;
    }
    None
}

/// The papers stored for a collection id (none when the id is unknown).
pub open spec fn papers_in(m: Map<Option<u128>, Vec<Paper>>, key: Option<u128>) -> Seq<Paper> {
    if m.contains_key(key) {
        m[key]@
    } else {
        Seq::empty()
    }
}

/// The TOC entries stored for a paper (none when unknown).
pub open spec fn tocs_in(m: Map<u128, Vec<TocEntry>>, pid: u128) -> Seq<TocEntry> {
    if m.contains_key(pid) {
        m[pid]@
    } else {
        Seq::empty()
    }
}

/// The TOC cursor after a TOC list is loaded: the remembered entry when it
/// is still listed, else the old cursor clamped into the list.
pub open spec fn toc_cursor(tocs: Seq<TocEntry>, remembered: Option<u128>, sel: int) -> int {
    if tocs.len() == 0 {
        0
    } else if remembered is Some && has_toc(tocs, remembered.unwrap()) {
        toc_pos(tocs, remembered.unwrap())
    } else {
        clamp_index(sel, tocs.len() as int)
    }
}

/// The state after the TOC preview is synchronised with the selected paper:
/// the paper cursor is clamped, the paper's entries are loaded and the TOC
/// cursor goes to the entry remembered for that paper where it can.
#[verifier::opaque]
pub open spec fn paper_synced(o: App, n: App) -> bool {
    if o.papers@.len() == 0 {
        &&& n == App { selected_paper: 0, toc_preview: n.toc_preview, selected_toc: 0, ..o }
        &&& n.toc_preview@.len() == 0
    } else {
        let sp = clamp_index(o.selected_paper as int, o.papers@.len() as int);
        let pid = o.papers@[sp].id;
        let tocs = tocs_in(o.tocs_by_paper@, pid);
        &&& n == App {
            selected_paper: sp as usize,
            toc_preview: n.toc_preview,
            selected_toc: n.selected_toc,
            ..o
        }
        &&& n.toc_preview@ == tocs
        &&& n.selected_toc == toc_cursor(tocs, map_get(o.last_toc_by_paper@, pid), o.selected_toc as int)
    }
}

/// The selection that the list cursors of `a` point at.
pub open spec fn cursor_selection(a: App) -> SelectionState {
    if a.collections@.len() == 0 {
        SelectionState { collection: CollectionKey::All, paper_id: None, toc_id: None }
    } else {
        let key = a.collections@[clamp_index(a.selected_collection as int, a.collections@.len() as int)].key;
        if a.papers@.len() == 0 {
            SelectionState { collection: key, paper_id: None, toc_id: None }
        } else {
            let pid = a.papers@[clamp_index(a.selected_paper as int, a.papers@.len() as int)].id;
            if a.toc_preview@.len() == 0 {
                SelectionState { collection: key, paper_id: Some(pid), toc_id: None }
            } else {
                let tid = a.toc_preview@[clamp_index(a.selected_toc as int, a.toc_preview@.len() as int)].id;
                SelectionState { collection: key, paper_id: Some(pid), toc_id: Some(tid) }
            }
        }
    }
}

/// The paper memory after the selection of `a` is recorded in `lp`.
pub open spec fn noted_paper(a: App, lp: Map<CollectionKey, u128>) -> Map<CollectionKey, u128> {
    let s = cursor_selection(a);
    match s.paper_id {
        Some(pid) => lp.insert(s.collection, pid),
        None => lp,
    }
}

/// The TOC memory after the selection of `a` is recorded in `lt`.
pub open spec fn noted_toc(a: App, lt: Map<u128, u128>) -> Map<u128, u128> {
    let s = cursor_selection(a);
    match (s.paper_id, s.toc_id) {
        (Some(pid), Some(tid)) => lt.insert(pid, tid),
        _ => lt,
    }
}

/// The state after the selection is recomputed from the list cursors and
/// recorded in the position memory.
#[verifier::opaque]
pub open spec fn selection_from_indices(o: App, n: App) -> bool {
    &&& n == App {
        selection: n.selection,
        last_paper_by_collection: n.last_paper_by_collection,
        last_toc_by_paper: n.last_toc_by_paper,
        ..o
    }
    &&& n.selection == cursor_selection(o)
    &&& n.last_paper_by_collection@ == noted_paper(o, o.last_paper_by_collection@)
    &&& n.last_toc_by_paper@ == noted_toc(o, o.last_toc_by_paper@)
}

/// The state `n` with the selection and position memory of `m`: the state
/// just before the selection was recomputed.
pub open spec fn before_selection(n: App, m: App) -> App {
    App {
        selection: m.selection,
        last_paper_by_collection: m.last_paper_by_collection,
        last_toc_by_paper: m.last_toc_by_paper,
        ..n
    }
}

/// A listed paper has a first position.
pub proof fn lemma_first_paper(s: Seq<Paper>, id: u128)
    requires
        has_paper(s, id),
    ensures
        first_paper_at(s, id, paper_pos(s, id)),
    decreases s.len(),
{
    if has_paper(s.drop_last(), id) {
        lemma_first_paper(s.drop_last(), id);
        let i = paper_pos(s.drop_last(), id);
        assert forall|j: int| 0 <= j < i implies s[j].id != id by {
            assert(s[j] == s.drop_last()[j]);
        }
        assert(s[i] == s.drop_last()[i]);
        assert(first_paper_at(s, id, i));
    } else {
        let k = choose|k: int| 0 <= k < s.len() && s[k].id == id;
        if k < s.len() - 1 {
            assert(s.drop_last()[k] == s[k]);
        }
        assert forall|j: int| 0 <= j < s.len() - 1 implies s[j].id != id by {
            assert(s.drop_last()[j] == s[j]);
        }
        assert(first_paper_at(s, id, s.len() - 1));
    }
}

/// A listed TOC entry has a first position.
pub proof fn lemma_first_toc(s: Seq<TocEntry>, id: u128)
    requires
        has_toc(s, id),
    ensures
        first_toc_at(s, id, toc_pos(s, id)),
    decreases s.len(),
{
    if has_toc(s.drop_last(), id) {
        lemma_first_toc(s.drop_last(), id);
        let i = toc_pos(s.drop_last(), id);
        assert forall|j: int| 0 <= j < i implies s[j].id != id by {
            assert(s[j] == s.drop_last()[j]);
        }
        assert(s[i] == s.drop_last()[i]);
        assert(first_toc_at(s, id, i));
    } else {
        let k = choose|k: int| 0 <= k < s.len() && s[k].id == id;
        if k < s.len() - 1 {
            assert(s.drop_last()[k] == s[k]);
        }
        assert forall|j: int| 0 <= j < s.len() - 1 implies s[j].id != id by {
            assert(s.drop_last()[j] == s[j]);
        }
        assert(first_toc_at(s, id, s.len() - 1));
    }
}

/// After the TOC preview follows the selected paper, both cursors are on
/// an entry, or at 0 for an empty list.
pub proof fn lemma_paper_sync_in_range(o: App, n: App)
    requires
        paper_synced(o, n),
    ensures
        n.papers@.len() == 0 ==> n.selected_paper == 0,
        n.papers@.len() > 0 ==> n.selected_paper < n.papers@.len(),
        n.toc_preview@.len() == 0 ==> n.selected_toc == 0,
        n.toc_preview@.len() > 0 ==> n.selected_toc < n.toc_preview@.len(),
{
    reveal(paper_synced);
    if o.papers@.len() > 0 {
        let sp = clamp_index(o.selected_paper as int, o.papers@.len() as int);
        let pid = o.papers@[sp].id;
        let tocs = tocs_in(o.tocs_by_paper@, pid);
        let rem = map_get(o.last_toc_by_paper@, pid);
        if tocs.len() > 0 && rem is Some && has_toc(tocs, rem.unwrap()) {
            lemma_first_toc(tocs, rem.unwrap());
        }
    }
}

/// Recomputing the selection touches nothing but the selection and the
/// position memory.
pub proof fn lemma_selection_frame(m: App, n: App)
    requires
        selection_from_indices(m, n),
    ensures
        before_selection(n, m) == m,
{
    reveal(selection_from_indices);
}

/// Synchronising the TOC preview touches neither the papers, the selection
/// nor the position memory.
pub proof fn lemma_paper_sync_frame(m: App, n: App)
    requires
        paper_synced(m, n),
    ensures
        n.papers == m.papers,
        n.selection == m.selection,
        n.last_paper_by_collection == m.last_paper_by_collection,
        n.last_toc_by_paper == m.last_toc_by_paper,
{
    reveal(paper_synced);
}

/// `min(i, len - 1)`, or 0 for an empty list.
pub fn clamp_idx(i: usize, len: usize) -> (r: usize)
    ensures
        r == clamp_index(i as int, len as int),
{
    if len == 0 {
        0
    } else if i >= len {
        len - 1
    } else {
        i
    }
}

impl App {
    /// Loads the papers stored for a collection id.
    pub fn load_papers(&self, key: Option<u128>) -> (r: Vec<Paper>)
        ensures
            r@ == papers_in(self.papers_by_collection@, key),
    {
        match self.papers_by_collection.get(&key) {
            Some(v) => clone_papers(v),
            None => Vec::new(),
        }
    }

    /// Loads the TOC entries stored for a paper.
    pub fn load_tocs(&self, pid: u128) -> (r: Vec<TocEntry>)
        ensures
            r@ == tocs_in(self.tocs_by_paper@, pid),
    {
        match self.tocs_by_paper.get(&pid) {
            Some(v) => clone_tocs(v),
            None => Vec::new(),
        }
    }

    /// Synchronizes the TOC preview with the selected paper.
    pub fn sync_paper_selection(&mut self)
        ensures
            paper_synced(*old(self), *final(self)),
    {
        if self.papers.len() == 0 {
            self.clear_paper_cursor();
        } else {
            self.sync_listed_paper();
        }
    }

    fn clear_paper_cursor(&mut self)
        requires
            old(self).papers@.len() == 0,
        ensures
            paper_synced(*old(self), *final(self)),
    {
        proof {
            reveal(paper_synced);
            reveal(selection_from_indices);
        }
        self.selected_paper = 0;
        self.toc_preview = Vec::new();
        self.selected_toc = 0;
    }

    fn sync_listed_paper(&mut self)
        requires
            old(self).papers@.len() > 0,
        ensures
            paper_synced(*old(self), *final(self)),
    {
        proof {
            reveal(paper_synced);
            reveal(selection_from_indices);
        }
        let sp = clamp_idx(self.selected_paper, self.papers.len());
        let pid = self.papers[sp].id;
        let tocs = self.load_tocs(pid);
        let st = self.toc_cursor_for(&tocs, pid, self.selected_toc);
        self.selected_paper = sp;
        self.toc_preview = tocs;
        self.selected_toc = st;
    }

    /// The TOC cursor for a freshly loaded TOC list of paper `pid`.
    pub fn toc_cursor_for(&self, tocs: &Vec<TocEntry>, pid: u128, sel: usize) -> (r: usize)
        ensures
            r == toc_cursor(tocs@, map_get(self.last_toc_by_paper@, pid), sel as int),
    {
        if tocs.len() == 0 {
            return 0;
        }
        let found = match self.last_toc_by_paper.get(&pid) {
            Some(t) => find_toc(tocs, *t),
            None => None,
        };
        match found {
            Some(i) => i,
            None => if sel >= tocs.len() {
                tocs.len() - 1
            } else {
                sel
            },
        }
    }

    /// Recomputes the selection from the list cursors and records it in the
    /// position memory.
    pub fn update_selection_from_indices(&mut self)
        ensures
            selection_from_indices(*old(self), *final(self)),
    {
        if self.collections.len() == 0 {
            self.select_nothing();
        } else if self.papers.len() == 0 {
            self.select_collection_only();
        } else if self.toc_preview.len() == 0 {
            self.select_paper_without_toc();
        } else {
            self.select_paper_and_toc();
        }
    }

    fn select_nothing(&mut self)
        requires
            old(self).collections@.len() == 0,
        ensures
            selection_from_indices(*old(self), *final(self)),
    {
        proof {
            reveal(paper_synced);
            reveal(selection_from_indices);
        }
        self.selection = SelectionState { collection: CollectionKey::All, paper_id: None, toc_id: None };
    }

    fn select_collection_only(&mut self)
        requires
            old(self).collections@.len() > 0,
            old(self).papers@.len() == 0,
        ensures
            selection_from_indices(*old(self), *final(self)),
    {
        proof {
            reveal(paper_synced);
            reveal(selection_from_indices);
        }
        let ci = clamp_idx(self.selected_collection, self.collections.len());
        let key = self.collections[ci].key;
        self.selection = SelectionState { collection: key, paper_id: None, toc_id: None };
    }

    fn select_paper_without_toc(&mut self)
        requires
            old(self).collections@.len() > 0,
            old(self).papers@.len() > 0,
            old(self).toc_preview@.len() == 0,
        ensures
            selection_from_indices(*old(self), *final(self)),
    {
        proof {
            reveal(paper_synced);
            reveal(selection_from_indices);
        }
        let ci = clamp_idx(self.selected_collection, self.collections.len());
        let key = self.collections[ci].key;
        let pi = clamp_idx(self.selected_paper, self.papers.len());
        let pid = self.papers[pi].id;
        self.last_paper_by_collection.insert(key, pid);
        self.selection = SelectionState { collection: key, paper_id: Some(pid), toc_id: None };
    }

    fn select_paper_and_toc(&mut self)
        requires
            old(self).collections@.len() > 0,
            old(self).papers@.len() > 0,
            old(self).toc_preview@.len() > 0,
        ensures
            selection_from_indices(*old(self), *final(self)),
    {
        proof {
            reveal(paper_synced);
            reveal(selection_from_indices);
        }
        let ci = clamp_idx(self.selected_collection, self.collections.len());
        let key = self.collections[ci].key;
        let pi = clamp_idx(self.selected_paper, self.papers.len());
        let pid = self.papers[pi].id;
        let ti = clamp_idx(self.selected_toc, self.toc_preview.len());
        let tid = self.toc_preview[ti].id;
        self.last_paper_by_collection.insert(key, pid);
        self.last_toc_by_paper.insert(pid, tid);
        self.selection = SelectionState { collection: key, paper_id: Some(pid), toc_id: Some(tid) };
    }

    /// Records the selected paper in the position memory of the selected
    /// collection.
    pub fn record_position_for_current_collection(&mut self)
        ensures
            final(self).last_paper_by_collection@ == match old(self).selection.paper_id {
                Some(pid) => old(self).last_paper_by_collection@.insert(old(self).selection.collection, pid),
                None => old(self).last_paper_by_collection@,
            },
            *final(self) == (App { last_paper_by_collection: final(self).last_paper_by_collection, ..*old(self) }),
    {
        if let Some(pid) = self.selection.paper_id {
            self.last_paper_by_collection.insert(self.selection.collection, pid);
        }
    }

    /// Records the selected TOC entry in the position memory of the selected
    /// paper.
    pub fn record_position_for_current_paper(&mut self)
        ensures
            final(self).last_toc_by_paper@ == match (old(self).selection.paper_id, old(self).selection.toc_id) {
                (Some(pid), Some(tid)) => old(self).last_toc_by_paper@.insert(pid, tid),
                _ => old(self).last_toc_by_paper@,
            },
            *final(self) == (App { last_toc_by_paper: final(self).last_toc_by_paper, ..*old(self) }),
    {
        if let (Some(pid), Some(tid)) = (self.selection.paper_id, self.selection.toc_id) {
            self.last_toc_by_paper.insert(pid, tid);
        }
    }
}

} // verus!

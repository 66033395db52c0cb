//! Building the application state, feeding it data, and the breadcrumb
//! paths of collections.
use vstd::prelude::*;
use crate::app::{App, PickerContext, tocs_in, paper_synced};
use crate::app_view::collection_synced;
use crate::collections::{IdSet, KeyMap};
use crate::paper::{clone_strings, Paper, TocEntry};
use crate::panel::{ActivePanel, LayoutMode};
use crate::selection::{CollectionItem, CollectionKey, SelectionState};
use crate::sorting::{PaperSortField, SortDirection};
use crate::text::{owned, str_chars, string_from_chars};

verus! {

/// A state as freshly built: nothing selected, no modal open, default sort
/// and layout, empty memories; focus on `panel`.
pub open spec fn fresh_state(a: App, panel: ActivePanel) -> bool {
    &&& a.active_panel == panel
    &&& a.selected_collection == 0
    &&& a.papers@.len() == 0
    &&& a.selected_paper == 0
    &&& a.toc_preview@.len() == 0
    &&& a.selected_toc == 0
    &&& a.selection == SelectionState { collection: CollectionKey::All, paper_id: None, toc_id: None }
    &&& a.last_paper_by_collection@ == Map::<CollectionKey, u128>::empty()
    &&& a.last_toc_by_paper@ == Map::<u128, u128>::empty()
    &&& a.status_message is None
    &&& a.running
    &&& !a.is_searching
    &&& a.search_query@.len() == 0
    &&& !a.is_editing_metadata
    &&& a.editing_field_index == 0
    &&& a.edit_buffers@.len() == 6
    &&& forall|i: int| 0 <= i < 6 ==> (#[trigger] a.edit_buffers@[i])@.len() == 0
    &&& a.toc_edit_state is None
    &&& a.toc_import_state is None
    &&& !a.is_adding_paper
    &&& a.add_paper_path_buffer@.len() == 0
    &&& !a.is_creating_collection
    &&& a.collection_name_buffer@.len() == 0
    &&& !a.needs_clear
    &&& !a.is_viewing_fullscreen_toc
    &&& a.toc_scroll_offset == 0
    &&& !a.is_editing_tags
    &&& a.tags_input_buffer@.len() == 0
    &&& !a.is_confirming_delete
    &&& a.delete_target_description@.len() == 0
    &&& !a.is_showing_help
    &&& a.search_collection_index == 0
    &&& !a.is_renaming_collection
    &&& a.rename_collection_buffer@.len() == 0
    &&& !a.is_exporting_collection
    &&& a.export_path_buffer@.len() == 0
    &&& !a.is_importing_metadata
    &&& a.import_metadata_buffer@.len() == 0
    &&& a.create_collection_parent_id is None
    &&& a.tags_by_paper@ == Map::<u128, Vec<String>>::empty()
    &&& a.layout_mode == LayoutMode::MultiPanel
    &&& a.sort_field == PaperSortField::Added
    &&& a.sort_direction == SortDirection::Desc
    &&& a.pending_count is None
    &&& a.pending_chord is None
    &&& !a.visual_mode
    &&& a.visual_anchor is None
    &&& a.visual_selected_uuids@ == Set::<u128>::empty()
    &&& a.active_picker is None
    &&& a.picker_context is None
}

// ------------------------------------------------------------ breadcrumbs

/// The last collection with id `id`, or -1.
pub open spec fn last_with_id(cols: Seq<CollectionItem>, id: u128) -> int
    decreases cols.len(),
{
    if cols.len() == 0 {
        -1
    } else if cols.last().id == Some(id) {
        cols.len() - 1
    } else {
        last_with_id(cols.drop_last(), id)
    }
}

/// The names met walking up from collection `cur` through the parents,
/// stopping at an unknown id, a repeated id or after `fuel` steps.
pub open spec fn crumb_walk(cols: Seq<CollectionItem>, cur: Option<u128>, visited: Set<u128>, fuel: nat) -> Seq<
    Seq<char>,
>
    decreases fuel,
{
    if fuel == 0 {
        Seq::empty()
    } else {
        match cur {
            None => Seq::empty(),
            Some(cid) => if visited.contains(cid) {
                Seq::empty()
            } else {
                let i = last_with_id(cols, cid);
                if i < 0 {
                    Seq::empty()
                } else {
                    seq![cols[i].name@] + crumb_walk(cols, cols[i].parent_id, visited.insert(cid), (fuel - 1) as nat)
                }
            },
        }
    }
}

/// Segments joined with a separator.
pub open spec fn joined(segs: Seq<Seq<char>>, sep: Seq<char>) -> Seq<char>
    decreases segs.len(),
{
    if segs.len() == 0 {
        Seq::empty()
    } else if segs.len() == 1 {
        segs[0]
    } else {
        joined(segs.drop_last(), sep) + sep + segs.last()
    }
}

/// The breadcrumb of a collection: the names from the root down to it,
/// joined by ` / `; fixed names for the virtual collections.
pub open spec fn breadcrumb(cols: Seq<CollectionItem>, key: CollectionKey) -> Seq<char> {
    match key {
        CollectionKey::All => "All Papers"@,
        CollectionKey::RecentlyAdded => "Recently Added"@,
        CollectionKey::Unfiled => "Unfiled"@,
        CollectionKey::Untagged => "Untagged"@,
        CollectionKey::Real(id) => joined(
            crumb_walk(cols, Some(id), Set::empty(), cols.len()).reverse(),
            " / "@,
        ),
    }
}

/// The breadcrumbs of all listed collections, each under its key.
pub open spec fn crumbs_ok(cols: Seq<CollectionItem>, m: Map<CollectionKey, String>) -> bool {
    &&& forall|k: CollectionKey| #[trigger] m.contains_key(k) <==> exists|i: int| 0 <= i < cols.len() && cols[i].key == k
    &&& forall|k: CollectionKey| #[trigger] m.contains_key(k) ==> m[k]@ == breadcrumb(cols, k)
}

fn last_with_id_exec(cols: &Vec<CollectionItem>, id: u128) -> (r: Option<usize>)
    ensures
        match r {
            Some(i) => i == last_with_id(cols@, id) && i < cols@.len(),
            None => last_with_id(cols@, id) < 0,
        },
{
    let mut k = cols.len();
    assert(cols@.take(k as int) =~= cols@);
    while k > 0
        invariant
            k <= cols@.len(),
            last_with_id(cols@, id) == last_with_id(cols@.take(k as int), id),
        decreases k,
    {
        assert(cols@.take(k as int).drop_last() =~= cols@.take(k - 1));
        if cols[k - 1].id == Some(id) {
            return Some(k - 1);
        }
        k = k - 1;
    }
    None
}

fn join_reversed(segs: &Vec<String>, sep: &str) -> (r: String)
    ensures
        r@ == joined(segs@.map_values(|s: String| s@).reverse(), sep@),
{
    let ghost v = segs@.map_values(|s: String| s@).reverse();
    let mut out: Vec<char> = Vec::new();
    let sc = str_chars(sep);
    let n = segs.len();
    let mut k: usize = 0;
    while k < n
        invariant
            n == segs@.len(),
            k <= n,
            v == segs@.map_values(|s: String| s@).reverse(),
            sc@ == sep@,
            out@ == joined(v.take(k as int), sep@),
        decreases n - k,
    {
        let seg = str_chars(segs[n - 1 - k].as_str());
        assert(v[k as int] == segs@[n - 1 - k]@);
        assert(v.take(k + 1).drop_last() =~= v.take(k as int));
        if k > 0 {
            let mut j: usize = 0;
            let ghost before = out@;
            while j < sc.len()
                invariant
                    j <= sc@.len(),
                    out@ == before + sc@.take(j as int),
                decreases sc@.len() - j,
            {
                out.push(sc[j]);
                j = j + 1;
                assert(out@ =~= before + sc@.take(j as int));
            }
            assert(sc@.take(sc@.len() as int) =~= sc@);
        }
        let mut j: usize = 0;
        let ghost before2 = out@;
        while j < seg.len()
            invariant
                j <= seg@.len(),
                out@ == before2 + seg@.take(j as int),
            decreases seg@.len() - j,
        {
            out.push(seg[j]);
            j = j + 1;
            assert(out@ =~= before2 + seg@.take(j as int));
        }
        assert(seg@.take(seg@.len() as int) =~= seg@);
        proof {
            if k == 0 {
                assert(out@ =~= v.take(1)[0]);
            }
        }
        k = k + 1;
    }
    assert(v.take(n as int) =~= v);
    string_from_chars(out.as_slice())
}

/// The breadcrumb of real collection `id`.
fn real_crumb(cols: &Vec<CollectionItem>, id: u128) -> (r: String)
    ensures
        r@ == breadcrumb(cols@, CollectionKey::Real(id)),
{
    let mut segs: Vec<String> = Vec::new();
    let mut cur: Option<u128> = Some(id);
    let mut visited = IdSet::new();
    let mut fuel: usize = cols.len();
    let ghost whole = crumb_walk(cols@, Some(id), Set::empty(), cols@.len());
    while fuel > 0
        invariant
            whole == segs@.map_values(|s: String| s@) + crumb_walk(cols@, cur, visited@, fuel as nat),
            whole == crumb_walk(cols@, Some(id), Set::empty(), cols@.len()),
        ensures
            crumb_walk(cols@, cur, visited@, fuel as nat) =~= Seq::<Seq<char>>::empty(),
        decreases fuel,
    {
        let cid = match cur {
            None => {
                break;
            },
            Some(c) => c,
        };
        if visited.contains(&cid) {
            break;
        }
        let found = last_with_id_exec(cols, cid);
        let i = match found {
            None => {
                break;
            },
            Some(i) => i,
        };
        let ghost before = segs@.map_values(|s: String| s@);
        segs.push(cols[i].name.clone());
        assert(segs@.map_values(|s: String| s@) =~= before.push(cols@[i as int].name@));
        visited.insert(cid);
        cur = cols[i].parent_id;
        fuel = fuel - 1;
    }
    assert(whole =~= segs@.map_values(|s: String| s@));
    join_reversed(&segs, " / ")
}

impl App {
    /// Computes and caches the breadcrumb path of every listed collection.
    pub fn update_breadcrumbs(&mut self)
        ensures
            *final(self) == (App { collection_breadcrumbs: final(self).collection_breadcrumbs, ..*old(self) }),
            crumbs_ok(old(self).collections@, final(self).collection_breadcrumbs@),
    {
        let mut m: KeyMap<CollectionKey, String> = KeyMap::new();
        let mut i: usize = 0;
        while i < self.collections.len()
            invariant
                i <= self.collections@.len(),
                forall|k: CollectionKey|
                    #[trigger] m@.contains_key(k) <==> exists|j: int| 0 <= j < i && self.collections@[j].key == k,
                forall|k: CollectionKey| #[trigger] m@.contains_key(k) ==> m@[k]@ == breadcrumb(self.collections@, k),
            decreases self.collections@.len() - i,
        {
            let key = self.collections[i].key;
            let crumb = match key {
                CollectionKey::All => {
                    proof {
                        reveal_strlit("All Papers");
                    }
                    owned("All Papers")
                },
                CollectionKey::RecentlyAdded => owned("Recently Added"),
                CollectionKey::Unfiled => owned("Unfiled"),
                CollectionKey::Untagged => owned("Untagged"),
                CollectionKey::Real(id) => real_crumb(&self.collections, id),
            };
            m.insert(key, crumb);
            proof {
                assert forall|k: CollectionKey|
                    #[trigger] m@.contains_key(k) <==> exists|j: int| 0 <= j < i + 1 && self.collections@[j].key == k by {
                    if k == key {
                        assert(self.collections@[i as int].key == k);
                    }
                }
            }
            i = i + 1;
        }
        self.collection_breadcrumbs = m;
    }
}

/// `n` is `o` with `item` appended to the collections, `papers` stored as
/// its list, the breadcrumbs recomputed and the view reloaded.
pub open spec fn collection_added(o: App, n: App, item: CollectionItem, papers: Seq<Paper>) -> bool {
    exists|m: App|
        #[trigger] collection_synced(m, n) && m == (App {
            collections: m.collections,
            papers_by_collection: m.papers_by_collection,
            collection_breadcrumbs: m.collection_breadcrumbs,
            ..o
        }) && m.collections@ == o.collections@.push(item) && m.papers_by_collection@.contains_key(item.id)
            && m.papers_by_collection@[item.id]@ == papers && m.papers_by_collection@ == o.papers_by_collection@.insert(
            item.id,
            m.papers_by_collection@[item.id],
        ) && crumbs_ok(m.collections@, m.collection_breadcrumbs@)
}

/// The tags stored for a paper (none when unknown).
pub open spec fn tags_in(m: Map<u128, Vec<String>>, pid: u128) -> Seq<String> {
    if m.contains_key(pid) {
        m[pid]@
    } else {
        Seq::empty()
    }
}

impl App {
    /// An empty application, focused on the Collections panel.
    pub fn new() -> (a: Self)
        ensures
            fresh_state(a, ActivePanel::Collections),
            a.collections@.len() == 0,
            a.collection_breadcrumbs@ == Map::<CollectionKey, String>::empty(),
            a.papers_by_collection@ == Map::<Option<u128>, Vec<Paper>>::empty(),
            a.tocs_by_paper@ == Map::<u128, Vec<TocEntry>>::empty(),
    {
        Self::blank(ActivePanel::Collections, Vec::new(), KeyMap::new(), KeyMap::new())
    }

    fn blank(
        panel: ActivePanel,
        collections: Vec<CollectionItem>,
        papers_by_collection: KeyMap<Option<u128>, Vec<Paper>>,
        tocs_by_paper: KeyMap<u128, Vec<TocEntry>>,
    ) -> (a: Self)
        ensures
            fresh_state(a, panel),
            a.collections == collections,
            a.papers_by_collection == papers_by_collection,
            a.tocs_by_paper == tocs_by_paper,
            a.collection_breadcrumbs@ == Map::<CollectionKey, String>::empty(),
    {
        let mut edit_buffers: Vec<String> = Vec::new();
        let mut i: usize = 0;
        while i < 6
            invariant
                i <= 6,
                edit_buffers@.len() == i,
                forall|j: int| 0 <= j < i ==> (#[trigger] edit_buffers@[j])@.len() == 0,
            decreases 6 - i,
        {
            edit_buffers.push(String::new());
            i = i + 1;
        }
        App {
            active_panel: panel,
            collections,
            selected_collection: 0,
            papers: Vec::new(),
            selected_paper: 0,
            toc_preview: Vec::new(),
            selected_toc: 0,
            selection: SelectionState { collection: CollectionKey::All, paper_id: None, toc_id: None },
            last_paper_by_collection: KeyMap::new(),
            last_toc_by_paper: KeyMap::new(),
            status_message: None,
            running: true,
            is_searching: false,
            search_query: String::new(),
            is_editing_metadata: false,
            editing_field_index: 0,
            edit_buffers,
            toc_edit_state: None,
            toc_import_state: None,
            is_adding_paper: false,
            add_paper_path_buffer: String::new(),
            is_creating_collection: false,
            collection_name_buffer: String::new(),
            needs_clear: false,
            is_viewing_fullscreen_toc: false,
            toc_scroll_offset: 0,
            is_editing_tags: false,
            tags_input_buffer: String::new(),
            is_confirming_delete: false,
            delete_target_description: String::new(),
            is_showing_help: false,
            search_collection_index: 0,
            is_renaming_collection: false,
            rename_collection_buffer: String::new(),
            is_exporting_collection: false,
            export_path_buffer: String::new(),
            is_importing_metadata: false,
            import_metadata_buffer: String::new(),
            create_collection_parent_id: None,
            tags_by_paper: KeyMap::new(),
            layout_mode: LayoutMode::MultiPanel,
            sort_field: PaperSortField::Added,
            sort_direction: SortDirection::Desc,
            pending_count: None,
            pending_chord: None,
            collection_breadcrumbs: KeyMap::new(),
            papers_by_collection,
            tocs_by_paper,
            visual_mode: false,
            visual_anchor: None,
            visual_selected_uuids: IdSet::new(),
            active_picker: None,
            picker_context: None,
        }
    }

    /// An application over the given collections, papers of each collection
    /// and TOC entries of each paper, focused on the Papers panel with the
    /// first collection loaded.
    pub fn with_data(
        collections: Vec<CollectionItem>,
        papers_by_collection: KeyMap<Option<u128>, Vec<Paper>>,
        tocs_by_paper: KeyMap<u128, Vec<TocEntry>>,
    ) -> (a: Self)
        ensures
            exists|m: App|
                #[trigger] collection_synced(m, a) && fresh_state(m, ActivePanel::Papers) && m.collections
                    == collections && m.papers_by_collection == papers_by_collection && m.tocs_by_paper
                    == tocs_by_paper && crumbs_ok(collections@, m.collection_breadcrumbs@),
    {
        let mut app = Self::blank(ActivePanel::Papers, collections, papers_by_collection, tocs_by_paper);
        app.update_breadcrumbs();
        let ghost m = app;
        app.sync_current_selection();
        assert(collection_synced(m, app));
        app
    }

    /// Adds a collection with its papers and reloads the view.
    pub fn add_collection(&mut self, item: CollectionItem, papers: Vec<Paper>)
        ensures
            collection_added(*old(self), *final(self), item, papers@),
    {
        let key = item.id;
        self.collections.push(item);
        self.papers_by_collection.insert(key, papers);
        self.update_breadcrumbs();
        let ghost m = *self;
        self.sync_current_selection();
        assert(collection_synced(m, *self));
    }

    /// Stores the TOC entries of a paper and refreshes the TOC preview.
    pub fn set_paper_tocs(&mut self, paper_id: u128, tocs: Vec<TocEntry>)
        ensures
            exists|m: App|
                #[trigger] paper_synced(m, *final(self)) && m == (App {
                    tocs_by_paper: m.tocs_by_paper,
                    ..*old(self)
                }) && m.tocs_by_paper@ == old(self).tocs_by_paper@.insert(paper_id, tocs),
    {
        self.tocs_by_paper.insert(paper_id, tocs);
        let ghost m = *self;
        self.sync_paper_selection();
        assert(paper_synced(m, *self));
    }

    /// Stores the tags of a paper.
    pub fn set_paper_tags(&mut self, paper_id: u128, tags: Vec<String>)
        ensures
            *final(self) == (App { tags_by_paper: final(self).tags_by_paper, ..*old(self) }),
            final(self).tags_by_paper@ == old(self).tags_by_paper@.insert(paper_id, tags),
    {
        self.tags_by_paper.insert(paper_id, tags);
    }

    /// The tags of the selected paper (none without a selected paper).
    pub fn current_paper_tags(&self) -> (r: Vec<String>)
        ensures
            r@ == if self.selected_paper < self.papers@.len() {
                tags_in(self.tags_by_paper@, self.papers@[self.selected_paper as int].id)
            } else {
                Seq::empty()
            },
    {
        if self.selected_paper < self.papers.len() {
            match self.tags_by_paper.get(&self.papers[self.selected_paper].id) {
                Some(tags) => clone_strings(tags),
                None => Vec::new(),
            }
        } else {
            Vec::new()
        }
    }

    /// Sets the status bar message.
    pub fn set_status(&mut self, msg: &str)
        ensures
            *final(self) == (App { status_message: final(self).status_message, ..*old(self) }),
            final(self).status_message matches Some(m) && m@ == msg@,
    {
        self.status_message = Some(owned(msg));
    }

    /// Clears the status bar message.
    pub fn clear_status(&mut self)
        ensures
            *final(self) == (App { status_message: None, ..*old(self) }),
    {
        self.status_message = None;
    }

    /// The selected collection, if the cursor is on one.
    pub fn current_collection(&self) -> (r: Option<&CollectionItem>)
        ensures
            r == if self.selected_collection < self.collections@.len() {
                Some(&self.collections@[self.selected_collection as int])
            } else {
                None
            },
    {
        if self.selected_collection < self.collections.len() {
            Some(&self.collections[self.selected_collection])
        } else {
            None
        }
    }

    /// The selected paper, if the cursor is on one.
    pub fn current_paper(&self) -> (r: Option<&Paper>)
        ensures
            r == if self.selected_paper < self.papers@.len() {
                Some(&self.papers@[self.selected_paper as int])
            } else {
                None
            },
    {
        if self.selected_paper < self.papers.len() {
            Some(&self.papers[self.selected_paper])
        } else {
            None
        }
    }

    /// The selected TOC entry, if the cursor is on one.
    pub fn current_toc(&self) -> (r: Option<&TocEntry>)
        ensures
            r == if self.selected_toc < self.toc_preview@.len() {
                Some(&self.toc_preview@[self.selected_toc as int])
            } else {
                None
            },
    {
        if self.selected_toc < self.toc_preview.len() {
            Some(&self.toc_preview[self.selected_toc])
        } else {
            None
        }
    }

    /// The breadcrumb of the selected collection: the cached path, else its
    /// name; "All Papers" without a selected collection.
    pub fn current_collection_breadcrumb(&self) -> (r: &str)
        ensures
            r@ == if self.selected_collection < self.collections@.len() {
                let c = self.collections@[self.selected_collection as int];
                if self.collection_breadcrumbs@.contains_key(c.key) {
                    self.collection_breadcrumbs@[c.key]@
                } else {
                    c.name@
                }
            } else {
                "All Papers"@
            },
    {
        if self.selected_collection < self.collections.len() {
            let c = &self.collections[self.selected_collection];
            match self.collection_breadcrumbs.get(&c.key) {
                Some(b) => b.as_str(),
                None => c.name.as_str(),
            }
        } else {
            "All Papers"
        }
    }
}

} // verus!

//! The text-entry modals: adding papers, creating, renaming and exporting
//! collections, importing metadata and editing tags.
use vstd::prelude::*;
use crate::app::{clamp_index, App};
use crate::app_data::collection_added;
use crate::app_delete::told;
use crate::app_edit::opt_view;
use crate::app_view::{collection_synced, query_is_blank};
use crate::clock::fresh_id;
use crate::paper::Paper;
use crate::selection::{key_of_id, CollectionItem};
use crate::text::{concat3, string_pop, string_push, trim, trim_str};

verus! {

/// The text buffers of the modals.
#[derive(Debug, Clone, Copy, PartialEq, Eq, Structural)]
pub enum TextField {
    AddPaperPath,
    CollectionName,
    RenameCollection,
    ExportPath,
    ImportMetadata,
    Tags,
}

/// The text of a modal buffer.
pub open spec fn text_of(a: App, f: TextField) -> Seq<char> {
    match f {
        TextField::AddPaperPath => a.add_paper_path_buffer@,
        TextField::CollectionName => a.collection_name_buffer@,
        TextField::RenameCollection => a.rename_collection_buffer@,
        TextField::ExportPath => a.export_path_buffer@,
        TextField::ImportMetadata => a.import_metadata_buffer@,
        TextField::Tags => a.tags_input_buffer@,
    }
}

/// `n` is `o` with at most the buffer `f` changed.
pub open spec fn only_text_changed(o: App, n: App, f: TextField) -> bool {
    match f {
        TextField::AddPaperPath => n == App { add_paper_path_buffer: n.add_paper_path_buffer, ..o },
        TextField::CollectionName => n == App { collection_name_buffer: n.collection_name_buffer, ..o },
        TextField::RenameCollection => n == App { rename_collection_buffer: n.rename_collection_buffer, ..o },
        TextField::ExportPath => n == App { export_path_buffer: n.export_path_buffer, ..o },
        TextField::ImportMetadata => n == App { import_metadata_buffer: n.import_metadata_buffer, ..o },
        TextField::Tags => n == App { tags_input_buffer: n.tags_input_buffer, ..o },
    }
}

/// `n` is `o` with the buffer `f` holding `t` and nothing else changed.
#[verifier::opaque]
pub open spec fn text_edited(o: App, n: App, f: TextField, t: Seq<char>) -> bool {
    only_text_changed(o, n, f) && text_of(n, f) == t
}

/// A text with its last character removed, if it has one.
pub open spec fn backspaced(s: Seq<char>) -> Seq<char> {
    if s.len() == 0 {
        s
    } else {
        s.drop_last()
    }
}

/// The first collection with id `pid`, as its depth.
pub open spec fn parent_depth(cols: Seq<CollectionItem>, pid: u128) -> Option<usize>
    decreases cols.len(),
{
    if cols.len() == 0 {
        None
    } else if cols[0].id == Some(pid) {
        Some(cols[0].depth)
    } else {
        parent_depth(cols.drop_first(), pid)
    }
}

/// The depth of a new collection: one below its parent (a parent that is
/// not listed counts as a root), 0 without a parent.
pub open spec fn new_depth(cols: Seq<CollectionItem>, parent: Option<u128>) -> int {
    match parent {
        None => 0,
        Some(pid) => match parent_depth(cols, pid) {
            Some(d) => d + 1,
            None => 1,
        },
    }
}

/// `a` with the cursor on its last collection and the paper and TOC cursors
/// at the top.
pub open spec fn last_collection_focused(a: App) -> App {
    App {
        selected_collection: clamp_index(a.collections@.len() - 1, a.collections@.len() as int) as usize,
        selected_paper: 0,
        selected_toc: 0,
        ..a
    }
}

/// The state after the create modal is confirmed: a blank name is refused;
/// otherwise a new real collection with a fresh id, the trimmed name, no
/// papers and a depth under its parent is appended, the cursor goes to it,
/// the view reloads, the modal closes and a message reports it.
#[verifier::opaque]
pub open spec fn collection_created(o: App, n: App) -> bool {
    let name = trim(o.collection_name_buffer@);
    if name.len() == 0 {
        told(o, n, "Collection name cannot be empty"@)
    } else {
        exists|a: App, item: CollectionItem, s: App|
            #![trigger collection_added(o, a, item, Seq::<Paper>::empty()), collection_synced(last_collection_focused(a), s)]
            collection_added(o, a, item, Seq::<Paper>::empty()) && item.id is Some && item.key == key_of_id(
                item.id,
            ) && item.name@ == name && item.paper_count == 0 && item.depth == new_depth(
                o.collections@,
                o.create_collection_parent_id,
            ) && item.parent_id == o.create_collection_parent_id && collection_synced(
                last_collection_focused(a),
                s,
            ) && n == (App {
                is_creating_collection: false,
                create_collection_parent_id: None,
                collection_name_buffer: n.collection_name_buffer,
                needs_clear: true,
                status_message: n.status_message,
                ..s
            }) && n.collection_name_buffer@.len() == 0 && opt_view(n.status_message) == Some(
                "Created collection '"@ + name + "'"@,
            )
    }
}

/// A collection can be created without its depth overflowing.
pub open spec fn depth_fits(a: App) -> bool {
    new_depth(a.collections@, a.create_collection_parent_id) <= usize::MAX
}

/// The state after the rename modal is confirmed: a blank name, no
/// collection under the cursor, or a virtual one are refused; otherwise the
/// collection takes the trimmed name and the modal closes.
#[verifier::opaque]
pub open spec fn collection_renamed(o: App, n: App) -> bool {
    let name = trim(o.rename_collection_buffer@);
    if name.len() == 0 {
        told(o, n, "Collection name cannot be empty"@)
    } else if o.selected_collection >= o.collections@.len() {
        told(o, n, "No collection selected"@)
    } else if o.collections@[o.selected_collection as int].id is None {
        told(o, n, "Cannot rename 'All Papers' virtual collection"@)
    } else {
        let c = o.collections@[o.selected_collection as int];
        &&& n == App {
            collections: n.collections,
            is_renaming_collection: false,
            rename_collection_buffer: n.rename_collection_buffer,
            needs_clear: true,
            status_message: n.status_message,
            ..o
        }
        &&& n.collections@ == o.collections@.update(
            o.selected_collection as int,
            CollectionItem { name: n.collections@[o.selected_collection as int].name, ..c },
        )
        &&& n.collections@[o.selected_collection as int].name@ == name
        &&& n.rename_collection_buffer@.len() == 0
        &&& opt_view(n.status_message) == Some("Renamed collection to '"@ + name + "'"@)
    }
}

/// The state after the export modal is confirmed: without a collection under
/// the cursor a message; otherwise the modal closes and, with no database to
/// export from, a message says so.
#[verifier::opaque]
pub open spec fn collection_export_confirmed(o: App, n: App) -> bool {
    if o.selected_collection >= o.collections@.len() {
        told(o, n, "No collection selected to export"@)
    } else {
        &&& n == App {
            is_exporting_collection: false,
            export_path_buffer: n.export_path_buffer,
            needs_clear: true,
            status_message: n.status_message,
            ..o
        }
        &&& n.export_path_buffer@.len() == 0
        &&& opt_view(n.status_message) == Some("Cannot export collection: database connection unavailable"@)
    }
}

/// The state after the export modal is asked for: it opens when there are
/// collections.
#[verifier::opaque]
pub open spec fn export_modal_opened(o: App, n: App) -> bool {
    if o.collections@.len() == 0 {
        told(o, n, "No collection selected to export"@)
    } else {
        &&& n == App {
            is_exporting_collection: true,
            export_path_buffer: n.export_path_buffer,
            needs_clear: true,
            ..o
        }
        &&& n.export_path_buffer@.len() == 0
    }
}

/// The state after the subcollection modal is asked for: it opens under the
/// real collection at the cursor.
#[verifier::opaque]
pub open spec fn subcollection_modal_opened(o: App, n: App) -> bool {
    if o.selected_collection >= o.collections@.len() {
        told(o, n, "No collection selected"@)
    } else if o.collections@[o.selected_collection as int].id is None {
        told(o, n, "Cannot create subcollection inside 'All Papers'"@)
    } else {
        &&& n == App {
            create_collection_parent_id: o.collections@[o.selected_collection as int].id,
            is_creating_collection: true,
            collection_name_buffer: n.collection_name_buffer,
            needs_clear: true,
            ..o
        }
        &&& n.collection_name_buffer@.len() == 0
    }
}

/// The state after the rename modal is asked for: it opens on the name of
/// the real collection at the cursor.
#[verifier::opaque]
pub open spec fn rename_modal_opened(o: App, n: App) -> bool {
    if o.selected_collection >= o.collections@.len() {
        told(o, n, "No collection selected to rename"@)
    } else if o.collections@[o.selected_collection as int].id is None {
        told(o, n, "Cannot rename 'All Papers' virtual collection"@)
    } else {
        &&& n == App {
            rename_collection_buffer: n.rename_collection_buffer,
            is_renaming_collection: true,
            needs_clear: true,
            ..o
        }
        &&& n.rename_collection_buffer@ == o.collections@[o.selected_collection as int].name@
    }
}

fn parent_depth_exec(cols: &Vec<CollectionItem>, pid: u128) -> (r: Option<usize>)
    ensures
        r == parent_depth(cols@, pid),
{
    let mut i: usize = 0;
    assert(cols@.skip(0) =~= cols@);
    while i < cols.len()
        invariant
            i <= cols@.len(),
            parent_depth(cols@, pid) == parent_depth(cols@.skip(i as int), pid),
        decreases cols@.len() - i,
    {
        let ghost rest = cols@.skip(i as int);
        assert(rest[0] == cols@[i as int]);
        let found = match cols[i].id {
            Some(x) => x == pid,
            None => false,
        };
        if found {
            return Some(cols[i].depth);
        }
        assert(rest.drop_first() =~= cols@.skip(i + 1));
        assert(parent_depth(rest, pid) == parent_depth(rest.drop_first(), pid));
        i = i + 1;
    }
    None
}

impl App {
    /// The text of a modal buffer.
    pub fn text(&self, f: TextField) -> (r: &String)
        ensures
            r@ == text_of(*self, f),
    {
        match f {
            TextField::AddPaperPath => &self.add_paper_path_buffer,
            TextField::CollectionName => &self.collection_name_buffer,
            TextField::RenameCollection => &self.rename_collection_buffer,
            TextField::ExportPath => &self.export_path_buffer,
            TextField::ImportMetadata => &self.import_metadata_buffer,
            TextField::Tags => &self.tags_input_buffer,
        }
    }

    /// Appends a character to a modal buffer.
    pub fn push_text(&mut self, f: TextField, c: char)
        ensures
            text_edited(*old(self), *final(self), f, text_of(*old(self), f).push(c)),
    {
        let mut t = self.text(f).clone();
        string_push(&mut t, c);
        self.set_text(f, t);
    }

    /// Removes the last character of a modal buffer, if any.
    pub fn pop_text(&mut self, f: TextField)
        ensures
            text_edited(*old(self), *final(self), f, backspaced(text_of(*old(self), f))),
    {
        let mut t = self.text(f).clone();
        string_pop(&mut t);
        self.set_text(f, t);
    }

    /// Replaces the text of a modal buffer (with a completed path, say).
    pub fn set_text(&mut self, f: TextField, text: String)
        ensures
            text_edited(*old(self), *final(self), f, text@),
    {
        match f {
            TextField::AddPaperPath => self.put_add_paper_path(text),
            TextField::CollectionName => self.put_collection_name(text),
            TextField::RenameCollection => self.put_rename_text(text),
            TextField::ExportPath => self.put_export_path(text),
            TextField::ImportMetadata => self.put_import_path(text),
            TextField::Tags => self.put_tags_text(text),
        }
    }

    fn put_add_paper_path(&mut self, t: String)
        ensures
            text_edited(*old(self), *final(self), TextField::AddPaperPath, t@),
    {
        self.add_paper_path_buffer = t;
        proof {
            reveal(text_edited);
        }
    }

    fn put_collection_name(&mut self, t: String)
        ensures
            text_edited(*old(self), *final(self), TextField::CollectionName, t@),
    {
        self.collection_name_buffer = t;
        proof {
            reveal(text_edited);
        }
    }

    fn put_rename_text(&mut self, t: String)
        ensures
            text_edited(*old(self), *final(self), TextField::RenameCollection, t@),
    {
        self.rename_collection_buffer = t;
        proof {
            reveal(text_edited);
        }
    }

    fn put_export_path(&mut self, t: String)
        ensures
            text_edited(*old(self), *final(self), TextField::ExportPath, t@),
    {
        self.export_path_buffer = t;
        proof {
            reveal(text_edited);
        }
    }

    fn put_import_path(&mut self, t: String)
        ensures
            text_edited(*old(self), *final(self), TextField::ImportMetadata, t@),
    {
        self.import_metadata_buffer = t;
        proof {
            reveal(text_edited);
        }
    }

    fn put_tags_text(&mut self, t: String)
        ensures
            text_edited(*old(self), *final(self), TextField::Tags, t@),
    {
        self.tags_input_buffer = t;
        proof {
            reveal(text_edited);
        }
    }

    /// Opens the modal that creates a root collection.
    pub fn open_create_collection_modal(&mut self)
        ensures
            *final(self) == (App {
                create_collection_parent_id: None,
                is_creating_collection: true,
                collection_name_buffer: final(self).collection_name_buffer,
                ..*old(self)
            }),
            final(self).collection_name_buffer@.len() == 0,
    {
        self.create_collection_parent_id = None;
        self.is_creating_collection = true;
        self.collection_name_buffer = String::new();
    }

    /// Opens the modal that creates a collection under the one at the cursor.
    pub fn open_create_subcollection_modal(&mut self)
        ensures
            subcollection_modal_opened(*old(self), *final(self)),
    {
        if self.selected_collection >= self.collections.len() {
            self.refuse_subcollection("No collection selected");
        } else {
            match self.collections[self.selected_collection].id {
                None => self.refuse_subcollection("Cannot create subcollection inside 'All Papers'"),
                Some(cid) => self.open_subcollection_under(cid),
            }
        }
    }

    fn refuse_subcollection(&mut self, msg: &str)
        requires
            (old(self).selected_collection >= old(self).collections@.len() && msg@ == "No collection selected"@)
                || (old(self).selected_collection < old(self).collections@.len()
                && old(self).collections@[old(self).selected_collection as int].id is None
                && msg@ == "Cannot create subcollection inside 'All Papers'"@),
        ensures
            subcollection_modal_opened(*old(self), *final(self)),
    {
        self.set_status(msg);
        proof {
            reveal(subcollection_modal_opened);
        }
    }

    fn open_subcollection_under(&mut self, cid: u128)
        requires
            old(self).selected_collection < old(self).collections@.len(),
            old(self).collections@[old(self).selected_collection as int].id == Some(cid),
        ensures
            subcollection_modal_opened(*old(self), *final(self)),
    {
        self.create_collection_parent_id = Some(cid);
        self.is_creating_collection = true;
        self.collection_name_buffer = String::new();
        self.needs_clear = true;
        proof {
            reveal(subcollection_modal_opened);
        }
    }

    /// Closes the create modal without creating anything.
    pub fn cancel_create_collection_modal(&mut self)
        ensures
            *final(self) == (App {
                is_creating_collection: false,
                create_collection_parent_id: None,
                collection_name_buffer: final(self).collection_name_buffer,
                ..*old(self)
            }),
            final(self).collection_name_buffer@.len() == 0,
    {
        self.is_creating_collection = false;
        self.create_collection_parent_id = None;
        self.collection_name_buffer = String::new();
    }

    /// Whether a new collection's depth fits (`depth_fits`).
    pub fn depth_fits_exec(&self) -> (b: bool)
        ensures
            b == depth_fits(*self),
    {
        match self.create_collection_parent_id {
            None => true,
            Some(pid) => match parent_depth_exec(&self.collections, pid) {
                Some(d) => d < usize::MAX,
                None => true,
            },
        }
    }

    /// Creates a collection named by the create modal.
    pub fn confirm_create_collection(&mut self)
        requires
            depth_fits(*old(self)),
        ensures
            collection_created(*old(self), *final(self)),
    {
        if query_is_blank(&self.collection_name_buffer) {
            self.set_status("Collection name cannot be empty");
            proof {
                reveal(collection_created);
            }
        } else {
            let name = trim_str(self.collection_name_buffer.as_str());
            self.create_named_collection(name);
        }
    }

    fn create_named_collection(&mut self, name: String)
        requires
            depth_fits(*old(self)),
            name@ == trim(old(self).collection_name_buffer@),
            name@.len() > 0,
        ensures
            collection_created(*old(self), *final(self)),
    {
        let ghost o = *self;
        let parent = self.create_collection_parent_id;
        let depth: usize = match parent {
            None => 0,
            Some(pid) => match parent_depth_exec(&self.collections, pid) {
                Some(d) => d + 1,
                None => 1,
            },
        };
        let new_id = fresh_id();
        let item = CollectionItem::with_hierarchy(Some(new_id), name.as_str(), 0, depth, parent);
        let ghost it = item;
        let none: Vec<Paper> = Vec::new();
        assert(none@ =~= Seq::<Paper>::empty());
        self.add_collection(item, none);
        let ghost a = *self;
        self.selected_collection = if self.collections.len() > 0 { self.collections.len() - 1 } else { 0 };
        self.selected_paper = 0;
        self.selected_toc = 0;
        let ghost f = *self;
        self.sync_current_selection();
        let ghost s = *self;
        self.is_creating_collection = false;
        self.create_collection_parent_id = None;
        self.collection_name_buffer = String::new();
        self.needs_clear = true;
        let msg = concat3("Created collection '", name.as_str(), "'");
        self.set_status(msg.as_str());
        proof {
            assert(f == last_collection_focused(a));
            assert(collection_synced(last_collection_focused(a), s));
            assert(collection_added(o, a, it, Seq::<Paper>::empty()));
            reveal(collection_created);
        }
    }

    /// Opens the rename modal on the collection at the cursor.
    pub fn open_rename_collection_modal(&mut self)
        ensures
            rename_modal_opened(*old(self), *final(self)),
    {
        if self.selected_collection >= self.collections.len() {
            self.refuse_rename_modal("No collection selected to rename");
        } else if self.collections[self.selected_collection].id.is_none() {
            self.refuse_rename_modal("Cannot rename 'All Papers' virtual collection");
        } else {
            self.fill_rename_modal();
        }
    }

    fn refuse_rename_modal(&mut self, msg: &str)
        requires
            (old(self).selected_collection >= old(self).collections@.len() && msg@ == "No collection selected to rename"@)
                || (old(self).selected_collection < old(self).collections@.len()
                && old(self).collections@[old(self).selected_collection as int].id is None
                && msg@ == "Cannot rename 'All Papers' virtual collection"@),
        ensures
            rename_modal_opened(*old(self), *final(self)),
    {
        self.set_status(msg);
        proof {
            reveal(rename_modal_opened);
        }
    }

    fn fill_rename_modal(&mut self)
        requires
            old(self).selected_collection < old(self).collections@.len(),
            old(self).collections@[old(self).selected_collection as int].id is Some,
        ensures
            rename_modal_opened(*old(self), *final(self)),
    {
        self.rename_collection_buffer = self.collections[self.selected_collection].name.clone();
        self.is_renaming_collection = true;
        self.needs_clear = true;
        proof {
            reveal(rename_modal_opened);
        }
    }

    /// Closes the rename modal without renaming.
    pub fn cancel_rename_collection_modal(&mut self)
        ensures
            *final(self) == (App {
                is_renaming_collection: false,
                rename_collection_buffer: final(self).rename_collection_buffer,
                needs_clear: true,
                ..*old(self)
            }),
            final(self).rename_collection_buffer@.len() == 0,
    {
        self.is_renaming_collection = false;
        self.rename_collection_buffer = String::new();
        self.needs_clear = true;
    }

    /// Renames the collection at the cursor to the rename modal's text.
    pub fn confirm_rename_collection(&mut self)
        ensures
            collection_renamed(*old(self), *final(self)),
    {
        if query_is_blank(&self.rename_collection_buffer) {
            self.refuse_rename("Collection name cannot be empty");
        } else if self.selected_collection >= self.collections.len() {
            self.refuse_rename("No collection selected");
        } else if self.collections[self.selected_collection].id.is_none() {
            self.refuse_rename("Cannot rename 'All Papers' virtual collection");
        } else {
            let name = trim_str(self.rename_collection_buffer.as_str());
            self.rename_selected_collection(name);
        }
    }

    fn refuse_rename(&mut self, msg: &str)
        requires
            (trim(old(self).rename_collection_buffer@).len() == 0 && msg@ == "Collection name cannot be empty"@)
                || (trim(old(self).rename_collection_buffer@).len() != 0
                && old(self).selected_collection >= old(self).collections@.len() && msg@ == "No collection selected"@)
                || (trim(old(self).rename_collection_buffer@).len() != 0
                && old(self).selected_collection < old(self).collections@.len()
                && old(self).collections@[old(self).selected_collection as int].id is None
                && msg@ == "Cannot rename 'All Papers' virtual collection"@),
        ensures
            collection_renamed(*old(self), *final(self)),
    {
        self.set_status(msg);
        proof {
            reveal(collection_renamed);
        }
    }

    fn rename_selected_collection(&mut self, name: String)
        requires
            old(self).selected_collection < old(self).collections@.len(),
            old(self).collections@[old(self).selected_collection as int].id is Some,
            trim(old(self).rename_collection_buffer@).len() != 0,
            name@ == trim(old(self).rename_collection_buffer@),
        ensures
            collection_renamed(*old(self), *final(self)),
    {
        let msg = concat3("Renamed collection to '", name.as_str(), "'");
        let mut c = self.collections[self.selected_collection].clone();
        c.name = name;
        self.collections.set(self.selected_collection, c);
        self.is_renaming_collection = false;
        self.rename_collection_buffer = String::new();
        self.needs_clear = true;
        self.set_status(msg.as_str());
        proof {
            reveal(collection_renamed);
        }
    }

    /// Opens the export modal.
    pub fn open_export_collection_modal(&mut self)
        ensures
            export_modal_opened(*old(self), *final(self)),
    {
        if self.collections.len() == 0 {
            self.set_status("No collection selected to export");
            proof {
                reveal(export_modal_opened);
            }
        } else {
            self.show_export_modal();
        }
    }

    fn show_export_modal(&mut self)
        requires
            old(self).collections@.len() != 0,
        ensures
            export_modal_opened(*old(self), *final(self)),
    {
        self.is_exporting_collection = true;
        self.export_path_buffer = String::new();
        self.needs_clear = true;
        proof {
            reveal(export_modal_opened);
        }
    }

    /// Closes the export modal.
    pub fn cancel_export_collection_modal(&mut self)
        ensures
            *final(self) == (App {
                is_exporting_collection: false,
                export_path_buffer: final(self).export_path_buffer,
                needs_clear: true,
                ..*old(self)
            }),
            final(self).export_path_buffer@.len() == 0,
    {
        self.is_exporting_collection = false;
        self.export_path_buffer = String::new();
        self.needs_clear = true;
    }

    /// Confirms the export modal; exporting needs the library database, so
    /// the in-memory state only closes the modal and says so.
    pub fn confirm_export_collection(&mut self)
        ensures
            collection_export_confirmed(*old(self), *final(self)),
    {
        if self.selected_collection >= self.collections.len() {
            self.set_status("No collection selected to export");
            proof {
                reveal(collection_export_confirmed);
            }
        } else {
            self.close_export_modal_unavailable();
        }
    }

    fn close_export_modal_unavailable(&mut self)
        requires
            old(self).selected_collection < old(self).collections@.len(),
        ensures
            collection_export_confirmed(*old(self), *final(self)),
    {
        self.is_exporting_collection = false;
        self.export_path_buffer = String::new();
        self.needs_clear = true;
        self.set_status("Cannot export collection: database connection unavailable");
        proof {
            reveal(collection_export_confirmed);
        }
    }

    /// Opens the metadata import modal.
    pub fn open_import_metadata_modal(&mut self)
        ensures
            *final(self) == (App {
                is_importing_metadata: true,
                import_metadata_buffer: final(self).import_metadata_buffer,
                needs_clear: true,
                ..*old(self)
            }),
            final(self).import_metadata_buffer@.len() == 0,
    {
        self.is_importing_metadata = true;
        self.import_metadata_buffer = String::new();
        self.needs_clear = true;
    }

    /// Closes the metadata import modal.
    pub fn cancel_import_metadata_modal(&mut self)
        ensures
            *final(self) == (App {
                is_importing_metadata: false,
                import_metadata_buffer: final(self).import_metadata_buffer,
                needs_clear: true,
                ..*old(self)
            }),
            final(self).import_metadata_buffer@.len() == 0,
    {
        self.is_importing_metadata = false;
        self.import_metadata_buffer = String::new();
        self.needs_clear = true;
    }

    /// Opens the add-paper modal.
    pub fn open_add_paper_modal(&mut self)
        ensures
            *final(self) == (App {
                is_adding_paper: true,
                add_paper_path_buffer: final(self).add_paper_path_buffer,
                ..*old(self)
            }),
            final(self).add_paper_path_buffer@.len() == 0,
    {
        self.is_adding_paper = true;
        self.add_paper_path_buffer = String::new();
    }

    /// Closes the add-paper modal.
    pub fn cancel_add_paper_modal(&mut self)
        ensures
            *final(self) == (App {
                is_adding_paper: false,
                add_paper_path_buffer: final(self).add_paper_path_buffer,
                ..*old(self)
            }),
            final(self).add_paper_path_buffer@.len() == 0,
    {
        self.is_adding_paper = false;
        self.add_paper_path_buffer = String::new();
    }

    /// Closes the tag modal without saving.
    pub fn cancel_tags_modal(&mut self)
        ensures
            *final(self) == (App {
                is_editing_tags: false,
                tags_input_buffer: final(self).tags_input_buffer,
                needs_clear: true,
                ..*old(self)
            }),
            final(self).tags_input_buffer@.len() == 0,
    {
        self.is_editing_tags = false;
        self.tags_input_buffer = String::new();
        self.needs_clear = true;
    }

    /// Closes the delete prompt without deleting.
    pub fn cancel_delete_confirm(&mut self)
        ensures
            *final(self) == (App {
                is_confirming_delete: false,
                delete_target_description: final(self).delete_target_description,
                needs_clear: true,
                ..*old(self)
            }),
            final(self).delete_target_description@.len() == 0,
    {
        self.is_confirming_delete = false;
        self.delete_target_description = String::new();
        self.needs_clear = true;
    }
}

} // verus!

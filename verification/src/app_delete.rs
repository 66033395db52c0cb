//! Deleting collections and papers, and taking papers out of a collection.
use vstd::prelude::*;
use crate::app::{clamp_idx, clamp_index, App};
use crate::app_edit::opt_view;
use crate::app_nav::visual_targets;
use crate::app_ops::{
    filter_collections, filter_list, filter_lists, forget_papers, keys_removed, lists_filtered,
    memory_without, without_collection, without_papers,
};
use crate::app_view::collection_synced;
use crate::collections::KeyMap;
use crate::decimal::{dec_nat, usize_to_string};
use crate::paper::{Paper, TocEntry};
use crate::panel::ActivePanel;
use crate::selection::CollectionKey;
use crate::text::{concat3, string_push_str};

verus! {

/// The name a paper goes by in the delete prompt: its title, else its file
/// path.
pub open spec fn prompt_title(p: Paper) -> Seq<char> {
    match p.title {
        Some(t) => t@,
        None => p.file_path@,
    }
}

/// The name a deleted paper is reported under: its title, else "paper".
pub open spec fn deleted_title(p: Paper) -> Seq<char> {
    match p.title {
        Some(t) => t@,
        None => "paper"@,
    }
}

/// `n` is `o` with a status message and nothing else changed.
pub open spec fn told(o: App, n: App, msg: Seq<char>) -> bool {
    &&& n == App { status_message: n.status_message, ..o }
    &&& opt_view(n.status_message) == Some(msg)
}

/// `n` is `o` with the delete prompt up, describing `d`.
pub open spec fn asking(o: App, n: App, d: Seq<char>) -> bool {
    &&& n == App {
        delete_target_description: n.delete_target_description,
        is_confirming_delete: true,
        needs_clear: true,
        ..o
    }
    &&& n.delete_target_description@ == d
}

/// `n` is `s` with the delete prompt closed, and the message `msg` where
/// there is one (else the message of `s`).
pub open spec fn prompt_closed(s: App, n: App, msg: Option<Seq<char>>) -> bool {
    &&& n == App {
        status_message: n.status_message,
        is_confirming_delete: false,
        delete_target_description: n.delete_target_description,
        needs_clear: true,
        ..s
    }
    &&& n.delete_target_description@.len() == 0
    &&& match msg {
        Some(m) => opt_view(n.status_message) == Some(m),
        None => n.status_message == s.status_message,
    }
}

/// The collection cursor is on a collection whenever there is one.
pub open spec fn collection_cursor_ok(a: App) -> bool {
    a.collections@.len() == 0 || a.selected_collection < a.collections@.len()
}

/// The state after the delete prompt is asked for: on the Collections panel
/// for the selected real collection, on the Papers panel for the selected
/// paper; otherwise a message says why not.
#[verifier::opaque]
pub open spec fn delete_confirm_opened(o: App, n: App) -> bool {
    match o.active_panel {
        ActivePanel::Collections => if o.collections@.len() == 0 {
            told(o, n, "No collection to delete"@)
        } else {
            let c = o.collections@[o.selected_collection as int];
            if c.id is None {
                told(o, n, "Cannot delete 'All Papers' virtual collection"@)
            } else {
                asking(o, n, "Collection '"@ + c.name@ + "'"@)
            }
        },
        ActivePanel::Papers => if o.selected_paper < o.papers@.len() {
            asking(o, n, "Paper '"@ + prompt_title(o.papers@[o.selected_paper as int]) + "'"@)
        } else {
            told(o, n, "No paper to delete"@)
        },
        ActivePanel::Details => n == o,
    }
}

/// The state after a confirmed delete. A real collection under the cursor
/// leaves the list, its papers list and its remembered paper; a paper under
/// the cursor leaves every list, its tags, TOC entries and remembered
/// positions. The view is reloaded, a message reports it, and the prompt
/// closes in every case.
#[verifier::opaque]
pub open spec fn delete_executed(o: App, n: App) -> bool {
    match o.active_panel {
        ActivePanel::Collections => if o.selected_collection < o.collections@.len()
            && o.collections@[o.selected_collection as int].id is Some {
            let c = o.collections@[o.selected_collection as int];
            let cid = c.id.unwrap();
            let rest = without_collection(o.collections@, cid);
            exists|m: App, s: App|
                #[trigger] collection_synced(m, s) && m == (App {
                    last_paper_by_collection: m.last_paper_by_collection,
                    collections: m.collections,
                    papers_by_collection: m.papers_by_collection,
                    selected_collection: clamp_index(o.selected_collection as int, rest.len() as int) as usize,
                    ..o
                }) && m.last_paper_by_collection@ == o.last_paper_by_collection@.remove(CollectionKey::Real(cid))
                    && m.collections@ == rest
                    && m.papers_by_collection@ == o.papers_by_collection@.remove(Some(cid))
                    && prompt_closed(s, n, Some("Deleted collection '"@ + c.name@ + "'"@))
        } else {
            prompt_closed(o, n, None)
        },
        ActivePanel::Papers => if o.selected_paper < o.papers@.len() {
            let p = o.papers@[o.selected_paper as int];
            exists|s: App|
                #[trigger] papers_deleted(o, s, seq![p.id])
                    && prompt_closed(s, n, Some("Deleted paper '"@ + deleted_title(p) + "'"@))
        } else {
            prompt_closed(o, n, None)
        },
        ActivePanel::Details => prompt_closed(o, n, None),
    }
}

/// The papers of `drop` are gone from the library: from every list, with
/// their tags, TOC entries and remembered positions, and the view reloads.
pub open spec fn papers_deleted(o: App, n: App, drop: Seq<u128>) -> bool {
    exists|m: App, s: App|
        #[trigger] collection_synced(m, s) && m == (App {
            last_paper_by_collection: m.last_paper_by_collection,
            last_toc_by_paper: m.last_toc_by_paper,
            papers_by_collection: m.papers_by_collection,
            tags_by_paper: m.tags_by_paper,
            tocs_by_paper: m.tocs_by_paper,
            ..o
        }) && m.last_paper_by_collection@ == memory_without(o.last_paper_by_collection@, drop)
            && m.last_toc_by_paper@ == keys_removed(o.last_toc_by_paper@, drop)
            && lists_filtered(o.papers_by_collection@, m.papers_by_collection@, drop)
            && m.tags_by_paper@ == keys_removed(o.tags_by_paper@, drop)
            && m.tocs_by_paper@ == keys_removed(o.tocs_by_paper@, drop)
            && s == n
}

/// Removes every key of `drop` from `m`.
fn remove_keys<V>(m: &mut KeyMap<u128, V>, drop: &Vec<u128>)
    ensures
        final(m)@ == keys_removed(old(m)@, drop@),
{
    let ghost o = m@;
    let mut i: usize = 0;
    while i < drop.len()
        invariant
            i <= drop@.len(),
            m@ == keys_removed(o, drop@.take(i as int)),
        decreases drop@.len() - i,
    {
        m.remove(&drop[i]);
        proof {
            assert(drop@.take(i + 1).to_set() =~= drop@.take(i as int).to_set().insert(drop@[i as int])) by {
                assert forall|x: u128| drop@.take(i + 1).to_set().contains(x) <==> drop@.take(
                    i as int,
                ).to_set().insert(drop@[i as int]).contains(x) by {
                    if drop@.take(i + 1).contains(x) {
                        let j = choose|j: int| 0 <= j < i + 1 && #[trigger] drop@.take(i + 1)[j] == x;
                        if j < i {
                            assert(drop@.take(i as int)[j] == x);
                        }
                    }
                    if drop@.take(i as int).contains(x) {
                        let j = choose|j: int| 0 <= j < i && #[trigger] drop@.take(i as int)[j] == x;
                        assert(drop@.take(i + 1)[j] == x);
                    }
                    if x == drop@[i as int] {
                        assert(drop@.take(i + 1)[i as int] == x);
                    }
                }
            }
            assert(m@ =~= keys_removed(o, drop@.take(i + 1)));
        }
        i = i + 1;
    }
    assert(drop@.take(drop@.len() as int) =~= drop@);
}

impl App {
    fn ask_delete(&mut self, d: String)
        ensures
            asking(*old(self), *final(self), d@),
    {
        self.delete_target_description = d;
        self.is_confirming_delete = true;
        self.needs_clear = true;
    }

    /// Asks to confirm the deletion of what the cursor is on.
    pub fn open_delete_confirm(&mut self)
        requires
            old(self).active_panel == ActivePanel::Collections ==> collection_cursor_ok(*old(self)),
        ensures
            delete_confirm_opened(*old(self), *final(self)),
    {
        match self.active_panel {
            ActivePanel::Collections => {
                if self.collections.len() == 0 {
                    self.set_status("No collection to delete");
                } else if self.collections[self.selected_collection].id.is_none() {
                    self.set_status("Cannot delete 'All Papers' virtual collection");
                } else {
                    let d = concat3("Collection '", self.collections[self.selected_collection].name.as_str(), "'");
                    self.ask_delete(d);
                }
            },
            ActivePanel::Papers => {
                if self.selected_paper < self.papers.len() {
                    let p = &self.papers[self.selected_paper];
                    let t = match &p.title {
                        Some(t) => t.as_str(),
                        None => p.file_path.as_str(),
                    };
                    let d = concat3("Paper '", t, "'");
                    self.ask_delete(d);
                } else {
                    self.set_status("No paper to delete");
                }
            },
            ActivePanel::Details => {},
        }
        proof {
            reveal(delete_confirm_opened);
        }
    }

    fn close_delete_prompt(&mut self, msg: Option<String>)
        ensures
            prompt_closed(*old(self), *final(self), opt_view(msg)),
    {
        match msg {
            Some(m) => self.set_status(m.as_str()),
            None => {},
        }
        self.is_confirming_delete = false;
        self.delete_target_description = String::new();
        self.needs_clear = true;
    }

    /// Carries out the confirmed deletion and closes the prompt.
    pub fn execute_delete(&mut self)
        ensures
            delete_executed(*old(self), *final(self)),
    {
        let panel = self.active_panel;
        match panel {
            ActivePanel::Collections => {
                if self.selected_collection < self.collections.len() {
                    match self.collections[self.selected_collection].id {
                        Some(cid) => self.delete_selected_collection(cid),
                        None => {
                            self.close_delete_prompt(None);
                            proof {
                                reveal(delete_executed);
                            }
                        },
                    }
                } else {
                    self.close_delete_prompt(None);
                    proof {
                        reveal(delete_executed);
                    }
                }
            },
            ActivePanel::Papers => {
                if self.selected_paper < self.papers.len() {
                    self.delete_selected_paper();
                } else {
                    self.close_delete_prompt(None);
                    proof {
                        reveal(delete_executed);
                    }
                }
            },
            ActivePanel::Details => {
                self.close_delete_prompt(None);
                proof {
                    reveal(delete_executed);
                }
            },
        }
    }

    fn delete_selected_collection(&mut self, cid: u128)
        requires
            old(self).active_panel == ActivePanel::Collections,
            old(self).selected_collection < old(self).collections@.len(),
            old(self).collections@[old(self).selected_collection as int].id == Some(cid),
        ensures
            delete_executed(*old(self), *final(self)),
    {
        let ghost o = *self;
        let msg = concat3("Deleted collection '", self.collections[self.selected_collection].name.as_str(), "'");
        self.last_paper_by_collection.remove(&CollectionKey::Real(cid));
        let rest = filter_collections(&self.collections, cid);
        let sc = clamp_idx(self.selected_collection, rest.len());
        self.collections = rest;
        self.papers_by_collection.remove(&Some(cid));
        self.selected_collection = sc;
        let ghost m = *self;
        self.sync_current_selection();
        let ghost s = *self;
        self.close_delete_prompt(Some(msg));
        proof {
            reveal(delete_executed);
            assert(collection_synced(m, s));
        }
    }

    /// Deletes the papers of `drop` from every list, tag and TOC store and
    /// from the position memory, and reloads the view.
    fn delete_papers(&mut self, drop: &Vec<u128>)
        ensures
            papers_deleted(*old(self), *final(self), drop@),
    {
        self.last_paper_by_collection = forget_papers(&self.last_paper_by_collection, drop);
        remove_keys(&mut self.last_toc_by_paper, drop);
        self.papers_by_collection = filter_lists(&self.papers_by_collection, drop);
        remove_keys(&mut self.tags_by_paper, drop);
        remove_keys(&mut self.tocs_by_paper, drop);
        let ghost m = *self;
        self.sync_current_selection();
        proof {
            assert(collection_synced(m, *self));
        }
    }

    fn delete_selected_paper(&mut self)
        requires
            old(self).active_panel == ActivePanel::Papers,
            old(self).selected_paper < old(self).papers@.len(),
        ensures
            delete_executed(*old(self), *final(self)),
    {
        let p = &self.papers[self.selected_paper];
        let t = match &p.title {
            Some(t) => t.as_str(),
            None => "paper",
        };
        let msg = concat3("Deleted paper '", t, "'");
        let mut drop: Vec<u128> = Vec::new();
        drop.push(p.id);
        assert(drop@ =~= seq![p.id]);
        let ghost o = *self;
        self.delete_papers(&drop);
        let ghost s = *self;
        self.close_delete_prompt(Some(msg));
        proof {
            reveal(delete_executed);
            assert(papers_deleted(o, s, seq![o.papers@[o.selected_paper as int].id]));
        }
    }
}


// ------------------------------------------------- removal from a collection

/// `n` holds the lists of `o`; the list under `key`, where there is one,
/// without the papers of `drop`.
pub open spec fn list_filtered_at(
    o: Map<Option<u128>, Vec<Paper>>,
    n: Map<Option<u128>, Vec<Paper>>,
    key: Option<u128>,
    drop: Seq<u128>,
) -> bool {
    if o.contains_key(key) {
        &&& n.contains_key(key)
        &&& n.remove(key) == o.remove(key)
        &&& n[key]@ == without_papers(o[key]@, drop)
    } else {
        n == o
    }
}

/// Why papers cannot be taken out of the selected collection, if they
/// cannot: no collection under the cursor, or a virtual one.
pub open spec fn removal_refusal(o: App) -> Option<Seq<char>> {
    if o.selected_collection >= o.collections@.len() {
        Some("No collection selected"@)
    } else if o.collections@[o.selected_collection as int].id is None {
        Some("Cannot remove from 'All Papers'; press 'D' to delete from database"@)
    } else {
        None
    }
}

/// The papers of `drop` leave the list under `key`, the view reloads and
/// `msg` is shown.
#[verifier::opaque]
pub open spec fn taken_out(o: App, n: App, key: Option<u128>, drop: Seq<u128>, msg: Seq<char>) -> bool {
    exists|m: App, s: App|
        #[trigger] collection_synced(m, s) && m == (App { papers_by_collection: m.papers_by_collection, ..o })
            && list_filtered_at(o.papers_by_collection@, m.papers_by_collection@, key, drop)
            && told(s, n, msg)
}

/// The state after the paper under the cursor is taken out of the selected
/// real collection (its list loses the paper, the view reloads).
#[verifier::opaque]
pub open spec fn paper_removed(o: App, n: App) -> bool {
    match removal_refusal(o) {
        Some(msg) => told(o, n, msg),
        None => if o.selected_paper < o.papers@.len() {
            let c = o.collections@[o.selected_collection as int];
            let pid = o.papers@[o.selected_paper as int].id;
            taken_out(o, n, c.id, seq![pid], "Removed paper from collection '"@ + c.name@ + "'"@)
        } else {
            told(o, n, "No paper selected"@)
        },
    }
}

/// The state after the papers of the visual selection (or the one under the
/// cursor) are taken out of the selected real collection: the view reloads,
/// visual mode ends and a message counts them.
#[verifier::opaque]
pub open spec fn papers_removed(o: App, n: App) -> bool {
    match removal_refusal(o) {
        Some(msg) => told(o, n, msg),
        None => {
            let c = o.collections@[o.selected_collection as int];
            let t = visual_targets(o);
            if t.len() == 0 {
                told(o, n, "No papers selected"@)
            } else {
                exists|s: App|
                    #[trigger] taken_out(o, s, c.id, t, "Removed "@ + dec_nat(t.len()) + " papers from collection '"@ + c.name@ + "'"@)
                        && n == (App {
                        visual_mode: false,
                        visual_anchor: None,
                        visual_selected_uuids: n.visual_selected_uuids,
                        ..s
                    }) && n.visual_selected_uuids@ == Set::<u128>::empty()
            }
        },
    }
}

/// The state after the visual selection is deleted: its papers (or the one
/// under the cursor) leave the library with a message counting them, then
/// visual mode ends.
#[verifier::opaque]
pub open spec fn visual_batch_deleted(o: App, n: App) -> bool {
    let t = visual_targets(o);
    if t.len() == 0 {
        &&& n == App {
            visual_mode: false,
            visual_anchor: None,
            visual_selected_uuids: n.visual_selected_uuids,
            needs_clear: true,
            ..o
        }
        &&& n.visual_selected_uuids@ == Set::<u128>::empty()
    } else {
        exists|s: App|
            #[trigger] papers_deleted(o, s, t) && n == (App {
                status_message: n.status_message,
                visual_mode: false,
                visual_anchor: None,
                visual_selected_uuids: n.visual_selected_uuids,
                needs_clear: true,
                ..s
            }) && n.visual_selected_uuids@ == Set::<u128>::empty() && opt_view(n.status_message) == Some(
                "Deleted "@ + dec_nat(t.len()) + " papers"@,
            )
    }
}

fn filter_list_at(m: &mut KeyMap<Option<u128>, Vec<Paper>>, key: Option<u128>, drop: &Vec<u128>)
    ensures
        list_filtered_at(old(m)@, final(m)@, key, drop@),
{
    let ghost o = m@;
    let f = match m.get(&key) {
        Some(list) => Some(filter_list(list, drop)),
        None => None,
    };
    match f {
        Some(v) => {
            m.insert(key, v);
            assert(m@.remove(key) =~= o.remove(key));
        },
        None => {},
    }
}

impl App {
    /// Takes the paper under the cursor out of the selected collection.
    pub fn remove_current_paper_from_collection(&mut self)
        ensures
            paper_removed(*old(self), *final(self)),
    {
        if self.selected_collection >= self.collections.len() {
            self.refuse_removal("No collection selected");
        } else if self.collections[self.selected_collection].id.is_none() {
            self.refuse_removal("Cannot remove from 'All Papers'; press 'D' to delete from database");
        } else if self.selected_paper >= self.papers.len() {
            self.refuse_removal("No paper selected");
        } else {
            self.remove_selected_paper();
        }
    }

    fn refuse_removal(&mut self, msg: &str)
        requires
            removal_refusal(*old(self)) == Some(msg@) || (removal_refusal(*old(self)) is None
                && old(self).selected_paper >= old(self).papers@.len() && msg@ == "No paper selected"@),
        ensures
            paper_removed(*old(self), *final(self)),
    {
        self.set_status(msg);
        proof {
            reveal(paper_removed);
        }
    }

    fn refuse_batch_removal(&mut self, msg: &str)
        requires
            removal_refusal(*old(self)) == Some(msg@) || (removal_refusal(*old(self)) is None
                && visual_targets(*old(self)).len() == 0 && msg@ == "No papers selected"@),
        ensures
            papers_removed(*old(self), *final(self)),
    {
        self.set_status(msg);
        proof {
            reveal(papers_removed);
        }
    }

    fn remove_selected_paper(&mut self)
        requires
            removal_refusal(*old(self)) is None,
            old(self).selected_paper < old(self).papers@.len(),
        ensures
            paper_removed(*old(self), *final(self)),
    {
        let ghost o = *self;
        let c = self.collections[self.selected_collection].clone();
        let mut drop: Vec<u128> = Vec::new();
        drop.push(self.papers[self.selected_paper].id);
        assert(drop@ =~= seq![o.papers@[o.selected_paper as int].id]);
        filter_list_at(&mut self.papers_by_collection, c.id, &drop);
        let ghost m = *self;
        self.sync_current_selection();
        let ghost s = *self;
        let msg = concat3("Removed paper from collection '", c.name.as_str(), "'");
        self.set_status(msg.as_str());
        proof {
            reveal(paper_removed);
            reveal(taken_out);
            assert(collection_synced(m, s));
        }
    }

    /// Takes the papers of the visual selection (or the one under the cursor)
    /// out of the selected collection and leaves visual mode.
    pub fn batch_remove_papers_from_collection(&mut self)
        ensures
            papers_removed(*old(self), *final(self)),
    {
        if self.selected_collection >= self.collections.len() {
            self.refuse_batch_removal("No collection selected");
        } else if self.collections[self.selected_collection].id.is_none() {
            self.refuse_batch_removal("Cannot remove from 'All Papers'; press 'D' to delete from database");
        } else {
            let targets = self.visual_selected_papers();
            if targets.len() == 0 {
                self.refuse_batch_removal("No papers selected");
            } else {
                self.remove_papers(&targets);
            }
        }
    }

    fn remove_papers(&mut self, targets: &Vec<u128>)
        requires
            removal_refusal(*old(self)) is None,
            targets@ == visual_targets(*old(self)),
            targets@.len() > 0,
        ensures
            papers_removed(*old(self), *final(self)),
    {
        let c = self.collections[self.selected_collection].clone();
        let ghost o = *self;
        filter_list_at(&mut self.papers_by_collection, c.id, targets);
        let ghost m = *self;
        self.sync_current_selection();
        let ghost s = *self;
        let mut msg = concat3("Removed ", usize_to_string(targets.len()).as_str(), " papers from collection '");
        string_push_str(&mut msg, c.name.as_str());
        string_push_str(&mut msg, "'");
        self.set_status(msg.as_str());
        let ghost s2 = *self;
        proof {
            reveal(taken_out);
            assert(collection_synced(m, s));
            assert(taken_out(o, s2, c.id, targets@, msg@));
        }
        self.exit_visual_mode();
        proof {
            reveal(papers_removed);
        }
    }

    /// Deletes the papers of the visual selection (or the one under the
    /// cursor) and leaves visual mode.
    pub fn delete_visual_selection(&mut self)
        ensures
            visual_batch_deleted(*old(self), *final(self)),
    {
        let targets = self.visual_selected_papers();
        if targets.len() > 0 {
            let ghost o = *self;
            self.delete_papers(&targets);
            let ghost s = *self;
            let msg = concat3("Deleted ", usize_to_string(targets.len()).as_str(), " papers");
            self.set_status(msg.as_str());
            self.exit_visual_mode();
            self.needs_clear = true;
            proof {
                reveal(visual_batch_deleted);
                assert(papers_deleted(o, s, targets@));
            }
        } else {
            self.exit_visual_mode();
            self.needs_clear = true;
            proof {
                reveal(visual_batch_deleted);
            }
        }
    }
}

} // verus!

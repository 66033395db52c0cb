//! What actions do to a pending count and chord.
use vstd::prelude::*;
use crate::action::Action;
use crate::app::{before_selection, clamp_index, paper_synced, selection_from_indices, App};
use crate::app_confirm::{collection_jumped, membership_applied, paper_jumped, picker_confirmed, quick_jumped, tags_applied};
use crate::app_delete::{delete_confirm_opened, delete_executed, paper_removed, papers_removed, taken_out, visual_batch_deleted};
use crate::app_edit::{metadata_opened, metadata_saved};
use crate::app_modal::{
    collection_created, collection_export_confirmed, collection_renamed, export_modal_opened, rename_modal_opened,
    subcollection_modal_opened, text_edited, TextField,
};
use crate::app_nav::{motion_applied, papers_resorted};
use crate::app_ops::{tags_confirmed, tags_modal_opened};
use crate::app_pick::{membership_opened, quick_open_opened, tag_picker_opened};
use crate::app_toc::{toc_add_started, toc_deleted, toc_edit_started, toc_import_confirmed, toc_import_started, toc_saved};
use crate::app_view::{collection_synced, remembered_paper, restored, search_applied};
use crate::text::trim;
use crate::dispatch::{
    action_group, dispatched, edit_done, keeps_pending, modal_done, modal_state, nav_done, pending_settled, picker_done, toc_done,
    viewer_done, ActionGroup, Request,
};
use crate::navigation::{next_count, Motion};
use crate::picker::GenericPicker;
use crate::sorting::next_sort_spec;

verus! {

/// The pending count and chord of a state.
pub open spec fn pending_of(a: App) -> (Option<usize>, Option<char>) {
    (a.pending_count, a.pending_chord)
}

proof fn frame_paper_synced()
    ensures
        forall|o: App, n: App| #[trigger] paper_synced(o, n) ==> pending_of(n) == pending_of(o),
{
    
    assert forall|o: App, n: App| #[trigger] paper_synced(o, n) implies pending_of(n) == pending_of(o) by {
        reveal(paper_synced);
    }
}

proof fn frame_selection_from_indices()
    ensures
        forall|o: App, n: App| #[trigger] selection_from_indices(o, n) ==> pending_of(n) == pending_of(o),
{
    frame_paper_synced();
    assert forall|o: App, n: App| #[trigger] selection_from_indices(o, n) implies pending_of(n) == pending_of(o) by {
        reveal(selection_from_indices);
    }
}

proof fn frame_restored()
    ensures
        forall|o: App, n: App| #[trigger] restored(o, n) ==> pending_of(n) == pending_of(o),
{
    frame_paper_synced();
    frame_selection_from_indices();
    assert forall|o: App, n: App| #[trigger] restored(o, n) implies pending_of(n) == pending_of(o) by {
        reveal(restored);
    }
}

proof fn frame_search_applied()
    ensures
        forall|o: App, n: App| #[trigger] search_applied(o, n) ==> pending_of(n) == pending_of(o),
{
    frame_paper_synced();
    frame_selection_from_indices();
    frame_restored();
    assert forall|o: App, n: App| #[trigger] search_applied(o, n) implies pending_of(n) == pending_of(o) by {
        reveal(search_applied);
    }
}

proof fn synced_keeps_pending(o: App, n: App)
    requires
        collection_synced(o, n),
    ensures
        pending_of(n) == pending_of(o),
{
    reveal(collection_synced);
    if o.collections@.len() == 0 {
        let m1 = App { selected_collection: 0, papers: n.papers, selected_toc: 0, ..o };
        let bs = before_selection(n, m1);
        reveal(paper_synced);
        reveal(selection_from_indices);
        assert(paper_synced(m1, bs));
        assert(selection_from_indices(bs, n));
    } else {
        let sc = clamp_index(o.selected_collection as int, o.collections@.len() as int);
        if trim(o.search_query@).len() == 0 {
            let item = o.collections@[sc];
            let m1 = App {
                selected_collection: sc as usize,
                papers: n.papers,
                selected_paper: remembered_paper(o, n.papers@, item.key) as usize,
                selected_toc: 0,
                ..o
            };
            let bs = before_selection(n, m1);
            assert(paper_synced(m1, bs));
            assert(selection_from_indices(bs, n));
            reveal(paper_synced);
            reveal(selection_from_indices);
        } else {
            let m = App { selected_collection: sc as usize, ..o };
            assert(search_applied(m, n));
            reveal(search_applied);
            reveal(paper_synced);
        }
    }
}

proof fn frame_collection_synced()
    ensures
        forall|o: App, n: App| #[trigger] collection_synced(o, n) ==> pending_of(n) == pending_of(o),
{
    assert forall|o: App, n: App| #[trigger] collection_synced(o, n) implies pending_of(n) == pending_of(o) by {
        synced_keeps_pending(o, n);
    }
}

proof fn frame_papers_resorted()
    ensures
        forall|o: App, n: App| #[trigger] papers_resorted(o, n) ==> pending_of(n) == pending_of(o),
{
    frame_paper_synced();
    frame_selection_from_indices();
    frame_restored();
    frame_search_applied();
    frame_collection_synced();
    assert forall|o: App, n: App| #[trigger] papers_resorted(o, n) implies pending_of(n) == pending_of(o) by {
        reveal(papers_resorted);
    }
}

proof fn frame_motion_applied()
    ensures
        forall|o: App, n: App, m: Motion| #[trigger] motion_applied(o, n, m) ==> pending_of(n) == (None::<usize>, None::<char>),
{
    frame_paper_synced();
    frame_selection_from_indices();
    frame_restored();
    frame_search_applied();
    frame_collection_synced();
    frame_papers_resorted();
    assert forall|o: App, n: App, m: Motion| #[trigger] motion_applied(o, n, m) implies pending_of(n) == (None::<usize>, None::<char>) by {
        reveal(motion_applied);
    }
}

proof fn frame_text_edited()
    ensures
        forall|o: App, n: App, f: TextField, t: Seq<char>| #[trigger] text_edited(o, n, f, t) ==> pending_of(n) == pending_of(o),
{
    frame_paper_synced();
    frame_selection_from_indices();
    frame_restored();
    frame_search_applied();
    frame_collection_synced();
    frame_papers_resorted();
    frame_motion_applied();
    assert forall|o: App, n: App, f: TextField, t: Seq<char>| #[trigger] text_edited(o, n, f, t) implies pending_of(n) == pending_of(o) by {
        reveal(text_edited);
    }
}

proof fn frame_metadata_opened()
    ensures
        forall|o: App, n: App| #[trigger] metadata_opened(o, n) ==> pending_of(n) == pending_of(o),
{
    frame_paper_synced();
    frame_selection_from_indices();
    frame_restored();
    frame_search_applied();
    frame_collection_synced();
    frame_papers_resorted();
    frame_motion_applied();
    frame_text_edited();
    assert forall|o: App, n: App| #[trigger] metadata_opened(o, n) implies pending_of(n) == pending_of(o) by {
        reveal(metadata_opened);
    }
}

proof fn frame_metadata_saved()
    ensures
        forall|o: App, n: App| #[trigger] metadata_saved(o, n) ==> pending_of(n) == pending_of(o),
{
    frame_paper_synced();
    frame_selection_from_indices();
    frame_restored();
    frame_search_applied();
    frame_collection_synced();
    frame_papers_resorted();
    frame_motion_applied();
    frame_text_edited();
    frame_metadata_opened();
    assert forall|o: App, n: App| #[trigger] metadata_saved(o, n) implies pending_of(n) == pending_of(o) by {
        reveal(metadata_saved);
    }
}

proof fn frame_tags_confirmed()
    ensures
        forall|o: App, n: App| #[trigger] tags_confirmed(o, n) ==> pending_of(n) == pending_of(o),
{
    frame_paper_synced();
    frame_selection_from_indices();
    frame_restored();
    frame_search_applied();
    frame_collection_synced();
    frame_papers_resorted();
    frame_motion_applied();
    frame_text_edited();
    frame_metadata_opened();
    frame_metadata_saved();
    assert forall|o: App, n: App| #[trigger] tags_confirmed(o, n) implies pending_of(n) == pending_of(o) by {
        reveal(tags_confirmed);
    }
}

proof fn frame_tags_modal_opened()
    ensures
        forall|o: App, n: App| #[trigger] tags_modal_opened(o, n) ==> pending_of(n) == pending_of(o),
{
    frame_paper_synced();
    frame_selection_from_indices();
    frame_restored();
    frame_search_applied();
    frame_collection_synced();
    frame_papers_resorted();
    frame_motion_applied();
    frame_text_edited();
    frame_metadata_opened();
    frame_metadata_saved();
    frame_tags_confirmed();
    assert forall|o: App, n: App| #[trigger] tags_modal_opened(o, n) implies pending_of(n) == pending_of(o) by {
        reveal(tags_modal_opened);
    }
}

proof fn frame_delete_confirm_opened()
    ensures
        forall|o: App, n: App| #[trigger] delete_confirm_opened(o, n) ==> pending_of(n) == pending_of(o),
{
    frame_paper_synced();
    frame_selection_from_indices();
    frame_restored();
    frame_search_applied();
    frame_collection_synced();
    frame_papers_resorted();
    frame_motion_applied();
    frame_text_edited();
    frame_metadata_opened();
    frame_metadata_saved();
    frame_tags_confirmed();
    frame_tags_modal_opened();
    assert forall|o: App, n: App| #[trigger] delete_confirm_opened(o, n) implies pending_of(n) == pending_of(o) by {
        reveal(delete_confirm_opened);
    }
}

proof fn frame_taken_out()
    ensures
        forall|o: App, n: App, k: Option<u128>, d: Seq<u128>, m: Seq<char>| #[trigger] taken_out(o, n, k, d, m) ==> pending_of(n) == pending_of(o),
{
    frame_paper_synced();
    frame_selection_from_indices();
    frame_restored();
    frame_search_applied();
    frame_collection_synced();
    frame_papers_resorted();
    frame_motion_applied();
    frame_text_edited();
    frame_metadata_opened();
    frame_metadata_saved();
    frame_tags_confirmed();
    frame_tags_modal_opened();
    frame_delete_confirm_opened();
    assert forall|o: App, n: App, k: Option<u128>, d: Seq<u128>, m: Seq<char>| #[trigger] taken_out(o, n, k, d, m) implies pending_of(n) == pending_of(o) by {
        reveal(taken_out);
    }
}

proof fn frame_paper_removed()
    ensures
        forall|o: App, n: App| #[trigger] paper_removed(o, n) ==> pending_of(n) == pending_of(o),
{
    frame_paper_synced();
    frame_selection_from_indices();
    frame_restored();
    frame_search_applied();
    frame_collection_synced();
    frame_papers_resorted();
    frame_motion_applied();
    frame_text_edited();
    frame_metadata_opened();
    frame_metadata_saved();
    frame_tags_confirmed();
    frame_tags_modal_opened();
    frame_delete_confirm_opened();
    frame_taken_out();
    assert forall|o: App, n: App| #[trigger] paper_removed(o, n) implies pending_of(n) == pending_of(o) by {
        reveal(paper_removed);
    }
}

proof fn frame_papers_removed()
    ensures
        forall|o: App, n: App| #[trigger] papers_removed(o, n) ==> pending_of(n) == pending_of(o),
{
    frame_paper_synced();
    frame_selection_from_indices();
    frame_restored();
    frame_search_applied();
    frame_collection_synced();
    frame_papers_resorted();
    frame_motion_applied();
    frame_text_edited();
    frame_metadata_opened();
    frame_metadata_saved();
    frame_tags_confirmed();
    frame_tags_modal_opened();
    frame_delete_confirm_opened();
    frame_taken_out();
    frame_paper_removed();
    assert forall|o: App, n: App| #[trigger] papers_removed(o, n) implies pending_of(n) == pending_of(o) by {
        reveal(papers_removed);
    }
}

proof fn frame_visual_batch_deleted()
    ensures
        forall|o: App, n: App| #[trigger] visual_batch_deleted(o, n) ==> pending_of(n) == pending_of(o),
{
    frame_paper_synced();
    frame_selection_from_indices();
    frame_restored();
    frame_search_applied();
    frame_collection_synced();
    frame_papers_resorted();
    frame_motion_applied();
    frame_text_edited();
    frame_metadata_opened();
    frame_metadata_saved();
    frame_tags_confirmed();
    frame_tags_modal_opened();
    frame_delete_confirm_opened();
    frame_taken_out();
    frame_paper_removed();
    frame_papers_removed();
    assert forall|o: App, n: App| #[trigger] visual_batch_deleted(o, n) implies pending_of(n) == pending_of(o) by {
        reveal(visual_batch_deleted);
    }
}

proof fn frame_delete_executed()
    ensures
        forall|o: App, n: App| #[trigger] delete_executed(o, n) ==> pending_of(n) == pending_of(o),
{
    frame_paper_synced();
    frame_selection_from_indices();
    frame_restored();
    frame_search_applied();
    frame_collection_synced();
    frame_papers_resorted();
    frame_motion_applied();
    frame_text_edited();
    frame_metadata_opened();
    frame_metadata_saved();
    frame_tags_confirmed();
    frame_tags_modal_opened();
    frame_delete_confirm_opened();
    frame_taken_out();
    frame_paper_removed();
    frame_papers_removed();
    frame_visual_batch_deleted();
    assert forall|o: App, n: App| #[trigger] delete_executed(o, n) implies pending_of(n) == pending_of(o) by {
        reveal(delete_executed);
    }
}

proof fn frame_collection_created()
    ensures
        forall|o: App, n: App| #[trigger] collection_created(o, n) ==> pending_of(n) == pending_of(o),
{
    frame_paper_synced();
    frame_selection_from_indices();
    frame_restored();
    frame_search_applied();
    frame_collection_synced();
    frame_papers_resorted();
    frame_motion_applied();
    frame_text_edited();
    frame_metadata_opened();
    frame_metadata_saved();
    frame_tags_confirmed();
    frame_tags_modal_opened();
    frame_delete_confirm_opened();
    frame_taken_out();
    frame_paper_removed();
    frame_papers_removed();
    frame_visual_batch_deleted();
    frame_delete_executed();
    assert forall|o: App, n: App| #[trigger] collection_created(o, n) implies pending_of(n) == pending_of(o) by {
        reveal(collection_created);
    }
}

proof fn frame_collection_renamed()
    ensures
        forall|o: App, n: App| #[trigger] collection_renamed(o, n) ==> pending_of(n) == pending_of(o),
{
    frame_paper_synced();
    frame_selection_from_indices();
    frame_restored();
    frame_search_applied();
    frame_collection_synced();
    frame_papers_resorted();
    frame_motion_applied();
    frame_text_edited();
    frame_metadata_opened();
    frame_metadata_saved();
    frame_tags_confirmed();
    frame_tags_modal_opened();
    frame_delete_confirm_opened();
    frame_taken_out();
    frame_paper_removed();
    frame_papers_removed();
    frame_visual_batch_deleted();
    frame_delete_executed();
    frame_collection_created();
    assert forall|o: App, n: App| #[trigger] collection_renamed(o, n) implies pending_of(n) == pending_of(o) by {
        reveal(collection_renamed);
    }
}

proof fn frame_collection_export_confirmed()
    ensures
        forall|o: App, n: App| #[trigger] collection_export_confirmed(o, n) ==> pending_of(n) == pending_of(o),
{
    frame_paper_synced();
    frame_selection_from_indices();
    frame_restored();
    frame_search_applied();
    frame_collection_synced();
    frame_papers_resorted();
    frame_motion_applied();
    frame_text_edited();
    frame_metadata_opened();
    frame_metadata_saved();
    frame_tags_confirmed();
    frame_tags_modal_opened();
    frame_delete_confirm_opened();
    frame_taken_out();
    frame_paper_removed();
    frame_papers_removed();
    frame_visual_batch_deleted();
    frame_delete_executed();
    frame_collection_created();
    frame_collection_renamed();
    assert forall|o: App, n: App| #[trigger] collection_export_confirmed(o, n) implies pending_of(n) == pending_of(o) by {
        reveal(collection_export_confirmed);
    }
}

proof fn frame_export_modal_opened()
    ensures
        forall|o: App, n: App| #[trigger] export_modal_opened(o, n) ==> pending_of(n) == pending_of(o),
{
    frame_paper_synced();
    frame_selection_from_indices();
    frame_restored();
    frame_search_applied();
    frame_collection_synced();
    frame_papers_resorted();
    frame_motion_applied();
    frame_text_edited();
    frame_metadata_opened();
    frame_metadata_saved();
    frame_tags_confirmed();
    frame_tags_modal_opened();
    frame_delete_confirm_opened();
    frame_taken_out();
    frame_paper_removed();
    frame_papers_removed();
    frame_visual_batch_deleted();
    frame_delete_executed();
    frame_collection_created();
    frame_collection_renamed();
    frame_collection_export_confirmed();
    assert forall|o: App, n: App| #[trigger] export_modal_opened(o, n) implies pending_of(n) == pending_of(o) by {
        reveal(export_modal_opened);
    }
}

proof fn frame_subcollection_modal_opened()
    ensures
        forall|o: App, n: App| #[trigger] subcollection_modal_opened(o, n) ==> pending_of(n) == pending_of(o),
{
    frame_paper_synced();
    frame_selection_from_indices();
    frame_restored();
    frame_search_applied();
    frame_collection_synced();
    frame_papers_resorted();
    frame_motion_applied();
    frame_text_edited();
    frame_metadata_opened();
    frame_metadata_saved();
    frame_tags_confirmed();
    frame_tags_modal_opened();
    frame_delete_confirm_opened();
    frame_taken_out();
    frame_paper_removed();
    frame_papers_removed();
    frame_visual_batch_deleted();
    frame_delete_executed();
    frame_collection_created();
    frame_collection_renamed();
    frame_collection_export_confirmed();
    frame_export_modal_opened();
    assert forall|o: App, n: App| #[trigger] subcollection_modal_opened(o, n) implies pending_of(n) == pending_of(o) by {
        reveal(subcollection_modal_opened);
    }
}

proof fn frame_rename_modal_opened()
    ensures
        forall|o: App, n: App| #[trigger] rename_modal_opened(o, n) ==> pending_of(n) == pending_of(o),
{
    frame_paper_synced();
    frame_selection_from_indices();
    frame_restored();
    frame_search_applied();
    frame_collection_synced();
    frame_papers_resorted();
    frame_motion_applied();
    frame_text_edited();
    frame_metadata_opened();
    frame_metadata_saved();
    frame_tags_confirmed();
    frame_tags_modal_opened();
    frame_delete_confirm_opened();
    frame_taken_out();
    frame_paper_removed();
    frame_papers_removed();
    frame_visual_batch_deleted();
    frame_delete_executed();
    frame_collection_created();
    frame_collection_renamed();
    frame_collection_export_confirmed();
    frame_export_modal_opened();
    frame_subcollection_modal_opened();
    assert forall|o: App, n: App| #[trigger] rename_modal_opened(o, n) implies pending_of(n) == pending_of(o) by {
        reveal(rename_modal_opened);
    }
}

proof fn frame_quick_open_opened()
    ensures
        forall|o: App, n: App| #[trigger] quick_open_opened(o, n) ==> pending_of(n) == pending_of(o),
{
    frame_paper_synced();
    frame_selection_from_indices();
    frame_restored();
    frame_search_applied();
    frame_collection_synced();
    frame_papers_resorted();
    frame_motion_applied();
    frame_text_edited();
    frame_metadata_opened();
    frame_metadata_saved();
    frame_tags_confirmed();
    frame_tags_modal_opened();
    frame_delete_confirm_opened();
    frame_taken_out();
    frame_paper_removed();
    frame_papers_removed();
    frame_visual_batch_deleted();
    frame_delete_executed();
    frame_collection_created();
    frame_collection_renamed();
    frame_collection_export_confirmed();
    frame_export_modal_opened();
    frame_subcollection_modal_opened();
    frame_rename_modal_opened();
    assert forall|o: App, n: App| #[trigger] quick_open_opened(o, n) implies pending_of(n) == pending_of(o) by {
        reveal(quick_open_opened);
    }
}

proof fn frame_membership_opened()
    ensures
        forall|o: App, n: App| #[trigger] membership_opened(o, n) ==> pending_of(n) == pending_of(o),
{
    frame_paper_synced();
    frame_selection_from_indices();
    frame_restored();
    frame_search_applied();
    frame_collection_synced();
    frame_papers_resorted();
    frame_motion_applied();
    frame_text_edited();
    frame_metadata_opened();
    frame_metadata_saved();
    frame_tags_confirmed();
    frame_tags_modal_opened();
    frame_delete_confirm_opened();
    frame_taken_out();
    frame_paper_removed();
    frame_papers_removed();
    frame_visual_batch_deleted();
    frame_delete_executed();
    frame_collection_created();
    frame_collection_renamed();
    frame_collection_export_confirmed();
    frame_export_modal_opened();
    frame_subcollection_modal_opened();
    frame_rename_modal_opened();
    frame_quick_open_opened();
    assert forall|o: App, n: App| #[trigger] membership_opened(o, n) implies pending_of(n) == pending_of(o) by {
        reveal(membership_opened);
    }
}

proof fn frame_tag_picker_opened()
    ensures
        forall|o: App, n: App| #[trigger] tag_picker_opened(o, n) ==> pending_of(n) == pending_of(o),
{
    frame_paper_synced();
    frame_selection_from_indices();
    frame_restored();
    frame_search_applied();
    frame_collection_synced();
    frame_papers_resorted();
    frame_motion_applied();
    frame_text_edited();
    frame_metadata_opened();
    frame_metadata_saved();
    frame_tags_confirmed();
    frame_tags_modal_opened();
    frame_delete_confirm_opened();
    frame_taken_out();
    frame_paper_removed();
    frame_papers_removed();
    frame_visual_batch_deleted();
    frame_delete_executed();
    frame_collection_created();
    frame_collection_renamed();
    frame_collection_export_confirmed();
    frame_export_modal_opened();
    frame_subcollection_modal_opened();
    frame_rename_modal_opened();
    frame_quick_open_opened();
    frame_membership_opened();
    assert forall|o: App, n: App| #[trigger] tag_picker_opened(o, n) implies pending_of(n) == pending_of(o) by {
        reveal(tag_picker_opened);
    }
}

proof fn frame_paper_jumped()
    ensures
        forall|b: App, s: App, ci: int, pid: u128| #[trigger] paper_jumped(b, s, ci, pid) ==> pending_of(s) == pending_of(b),
{
    frame_paper_synced();
    frame_selection_from_indices();
    frame_restored();
    frame_search_applied();
    frame_collection_synced();
    frame_papers_resorted();
    frame_motion_applied();
    frame_text_edited();
    frame_metadata_opened();
    frame_metadata_saved();
    frame_tags_confirmed();
    frame_tags_modal_opened();
    frame_delete_confirm_opened();
    frame_taken_out();
    frame_paper_removed();
    frame_papers_removed();
    frame_visual_batch_deleted();
    frame_delete_executed();
    frame_collection_created();
    frame_collection_renamed();
    frame_collection_export_confirmed();
    frame_export_modal_opened();
    frame_subcollection_modal_opened();
    frame_rename_modal_opened();
    frame_quick_open_opened();
    frame_membership_opened();
    frame_tag_picker_opened();
    assert forall|b: App, s: App, ci: int, pid: u128| #[trigger] paper_jumped(b, s, ci, pid) implies pending_of(s) == pending_of(b) by {
        reveal(paper_jumped);
    }
}

proof fn frame_collection_jumped()
    ensures
        forall|b: App, s: App, ci: int| #[trigger] collection_jumped(b, s, ci) ==> pending_of(s) == pending_of(b),
{
    frame_paper_synced();
    frame_selection_from_indices();
    frame_restored();
    frame_search_applied();
    frame_collection_synced();
    frame_papers_resorted();
    frame_motion_applied();
    frame_text_edited();
    frame_metadata_opened();
    frame_metadata_saved();
    frame_tags_confirmed();
    frame_tags_modal_opened();
    frame_delete_confirm_opened();
    frame_taken_out();
    frame_paper_removed();
    frame_papers_removed();
    frame_visual_batch_deleted();
    frame_delete_executed();
    frame_collection_created();
    frame_collection_renamed();
    frame_collection_export_confirmed();
    frame_export_modal_opened();
    frame_subcollection_modal_opened();
    frame_rename_modal_opened();
    frame_quick_open_opened();
    frame_membership_opened();
    frame_tag_picker_opened();
    frame_paper_jumped();
    assert forall|b: App, s: App, ci: int| #[trigger] collection_jumped(b, s, ci) implies pending_of(s) == pending_of(b) by {
        reveal(collection_jumped);
    }
}

proof fn frame_quick_jumped()
    ensures
        forall|b: App, p: GenericPicker, s: App| #[trigger] quick_jumped(b, p, s) ==> pending_of(s) == pending_of(b),
{
    frame_paper_synced();
    frame_selection_from_indices();
    frame_restored();
    frame_search_applied();
    frame_collection_synced();
    frame_papers_resorted();
    frame_motion_applied();
    frame_text_edited();
    frame_metadata_opened();
    frame_metadata_saved();
    frame_tags_confirmed();
    frame_tags_modal_opened();
    frame_delete_confirm_opened();
    frame_taken_out();
    frame_paper_removed();
    frame_papers_removed();
    frame_visual_batch_deleted();
    frame_delete_executed();
    frame_collection_created();
    frame_collection_renamed();
    frame_collection_export_confirmed();
    frame_export_modal_opened();
    frame_subcollection_modal_opened();
    frame_rename_modal_opened();
    frame_quick_open_opened();
    frame_membership_opened();
    frame_tag_picker_opened();
    frame_paper_jumped();
    frame_collection_jumped();
    assert forall|b: App, p: GenericPicker, s: App| #[trigger] quick_jumped(b, p, s) implies pending_of(s) == pending_of(b) by {
        reveal(quick_jumped);
    }
}

proof fn frame_membership_applied()
    ensures
        forall|b: App, p: GenericPicker, t: Seq<u128>, s: App| #[trigger] membership_applied(b, p, t, s) ==> pending_of(s) == pending_of(b),
{
    frame_paper_synced();
    frame_selection_from_indices();
    frame_restored();
    frame_search_applied();
    frame_collection_synced();
    frame_papers_resorted();
    frame_motion_applied();
    frame_text_edited();
    frame_metadata_opened();
    frame_metadata_saved();
    frame_tags_confirmed();
    frame_tags_modal_opened();
    frame_delete_confirm_opened();
    frame_taken_out();
    frame_paper_removed();
    frame_papers_removed();
    frame_visual_batch_deleted();
    frame_delete_executed();
    frame_collection_created();
    frame_collection_renamed();
    frame_collection_export_confirmed();
    frame_export_modal_opened();
    frame_subcollection_modal_opened();
    frame_rename_modal_opened();
    frame_quick_open_opened();
    frame_membership_opened();
    frame_tag_picker_opened();
    frame_paper_jumped();
    frame_collection_jumped();
    frame_quick_jumped();
    assert forall|b: App, p: GenericPicker, t: Seq<u128>, s: App| #[trigger] membership_applied(b, p, t, s) implies pending_of(s) == pending_of(b) by {
        reveal(membership_applied);
    }
}

proof fn frame_tags_applied()
    ensures
        forall|b: App, p: GenericPicker, t: Seq<u128>, s: App| #[trigger] tags_applied(b, p, t, s) ==> pending_of(s) == pending_of(b),
{
    frame_paper_synced();
    frame_selection_from_indices();
    frame_restored();
    frame_search_applied();
    frame_collection_synced();
    frame_papers_resorted();
    frame_motion_applied();
    frame_text_edited();
    frame_metadata_opened();
    frame_metadata_saved();
    frame_tags_confirmed();
    frame_tags_modal_opened();
    frame_delete_confirm_opened();
    frame_taken_out();
    frame_paper_removed();
    frame_papers_removed();
    frame_visual_batch_deleted();
    frame_delete_executed();
    frame_collection_created();
    frame_collection_renamed();
    frame_collection_export_confirmed();
    frame_export_modal_opened();
    frame_subcollection_modal_opened();
    frame_rename_modal_opened();
    frame_quick_open_opened();
    frame_membership_opened();
    frame_tag_picker_opened();
    frame_paper_jumped();
    frame_collection_jumped();
    frame_quick_jumped();
    frame_membership_applied();
    assert forall|b: App, p: GenericPicker, t: Seq<u128>, s: App| #[trigger] tags_applied(b, p, t, s) implies pending_of(s) == pending_of(b) by {
        reveal(tags_applied);
    }
}

proof fn frame_picker_confirmed()
    ensures
        forall|o: App, n: App| #[trigger] picker_confirmed(o, n) ==> pending_of(n) == pending_of(o),
{
    frame_paper_synced();
    frame_selection_from_indices();
    frame_restored();
    frame_search_applied();
    frame_collection_synced();
    frame_papers_resorted();
    frame_motion_applied();
    frame_text_edited();
    frame_metadata_opened();
    frame_metadata_saved();
    frame_tags_confirmed();
    frame_tags_modal_opened();
    frame_delete_confirm_opened();
    frame_taken_out();
    frame_paper_removed();
    frame_papers_removed();
    frame_visual_batch_deleted();
    frame_delete_executed();
    frame_collection_created();
    frame_collection_renamed();
    frame_collection_export_confirmed();
    frame_export_modal_opened();
    frame_subcollection_modal_opened();
    frame_rename_modal_opened();
    frame_quick_open_opened();
    frame_membership_opened();
    frame_tag_picker_opened();
    frame_paper_jumped();
    frame_collection_jumped();
    frame_quick_jumped();
    frame_membership_applied();
    frame_tags_applied();
    assert forall|o: App, n: App| #[trigger] picker_confirmed(o, n) implies pending_of(n) == pending_of(o) by {
        reveal(picker_confirmed);
    }
}

proof fn frame_toc_add_started()
    ensures
        forall|o: App, n: App, p: Option<u128>| #[trigger] toc_add_started(o, n, p) ==> pending_of(n) == pending_of(o),
{
    frame_paper_synced();
    frame_selection_from_indices();
    frame_restored();
    frame_search_applied();
    frame_collection_synced();
    frame_papers_resorted();
    frame_motion_applied();
    frame_text_edited();
    frame_metadata_opened();
    frame_metadata_saved();
    frame_tags_confirmed();
    frame_tags_modal_opened();
    frame_delete_confirm_opened();
    frame_taken_out();
    frame_paper_removed();
    frame_papers_removed();
    frame_visual_batch_deleted();
    frame_delete_executed();
    frame_collection_created();
    frame_collection_renamed();
    frame_collection_export_confirmed();
    frame_export_modal_opened();
    frame_subcollection_modal_opened();
    frame_rename_modal_opened();
    frame_quick_open_opened();
    frame_membership_opened();
    frame_tag_picker_opened();
    frame_paper_jumped();
    frame_collection_jumped();
    frame_quick_jumped();
    frame_membership_applied();
    frame_tags_applied();
    frame_picker_confirmed();
    assert forall|o: App, n: App, p: Option<u128>| #[trigger] toc_add_started(o, n, p) implies pending_of(n) == pending_of(o) by {
        reveal(toc_add_started);
    }
}

proof fn frame_toc_edit_started()
    ensures
        forall|o: App, n: App, i: u128| #[trigger] toc_edit_started(o, n, i) ==> pending_of(n) == pending_of(o),
{
    frame_paper_synced();
    frame_selection_from_indices();
    frame_restored();
    frame_search_applied();
    frame_collection_synced();
    frame_papers_resorted();
    frame_motion_applied();
    frame_text_edited();
    frame_metadata_opened();
    frame_metadata_saved();
    frame_tags_confirmed();
    frame_tags_modal_opened();
    frame_delete_confirm_opened();
    frame_taken_out();
    frame_paper_removed();
    frame_papers_removed();
    frame_visual_batch_deleted();
    frame_delete_executed();
    frame_collection_created();
    frame_collection_renamed();
    frame_collection_export_confirmed();
    frame_export_modal_opened();
    frame_subcollection_modal_opened();
    frame_rename_modal_opened();
    frame_quick_open_opened();
    frame_membership_opened();
    frame_tag_picker_opened();
    frame_paper_jumped();
    frame_collection_jumped();
    frame_quick_jumped();
    frame_membership_applied();
    frame_tags_applied();
    frame_picker_confirmed();
    frame_toc_add_started();
    assert forall|o: App, n: App, i: u128| #[trigger] toc_edit_started(o, n, i) implies pending_of(n) == pending_of(o) by {
        reveal(toc_edit_started);
    }
}

proof fn frame_toc_deleted()
    ensures
        forall|o: App, n: App, i: u128| #[trigger] toc_deleted(o, n, i) ==> pending_of(n) == pending_of(o),
{
    frame_paper_synced();
    frame_selection_from_indices();
    frame_restored();
    frame_search_applied();
    frame_collection_synced();
    frame_papers_resorted();
    frame_motion_applied();
    frame_text_edited();
    frame_metadata_opened();
    frame_metadata_saved();
    frame_tags_confirmed();
    frame_tags_modal_opened();
    frame_delete_confirm_opened();
    frame_taken_out();
    frame_paper_removed();
    frame_papers_removed();
    frame_visual_batch_deleted();
    frame_delete_executed();
    frame_collection_created();
    frame_collection_renamed();
    frame_collection_export_confirmed();
    frame_export_modal_opened();
    frame_subcollection_modal_opened();
    frame_rename_modal_opened();
    frame_quick_open_opened();
    frame_membership_opened();
    frame_tag_picker_opened();
    frame_paper_jumped();
    frame_collection_jumped();
    frame_quick_jumped();
    frame_membership_applied();
    frame_tags_applied();
    frame_picker_confirmed();
    frame_toc_add_started();
    frame_toc_edit_started();
    assert forall|o: App, n: App, i: u128| #[trigger] toc_deleted(o, n, i) implies pending_of(n) == pending_of(o) by {
        reveal(toc_deleted);
    }
}

proof fn frame_toc_saved()
    ensures
        forall|o: App, n: App| #[trigger] toc_saved(o, n) ==> pending_of(n) == pending_of(o),
{
    frame_paper_synced();
    frame_selection_from_indices();
    frame_restored();
    frame_search_applied();
    frame_collection_synced();
    frame_papers_resorted();
    frame_motion_applied();
    frame_text_edited();
    frame_metadata_opened();
    frame_metadata_saved();
    frame_tags_confirmed();
    frame_tags_modal_opened();
    frame_delete_confirm_opened();
    frame_taken_out();
    frame_paper_removed();
    frame_papers_removed();
    frame_visual_batch_deleted();
    frame_delete_executed();
    frame_collection_created();
    frame_collection_renamed();
    frame_collection_export_confirmed();
    frame_export_modal_opened();
    frame_subcollection_modal_opened();
    frame_rename_modal_opened();
    frame_quick_open_opened();
    frame_membership_opened();
    frame_tag_picker_opened();
    frame_paper_jumped();
    frame_collection_jumped();
    frame_quick_jumped();
    frame_membership_applied();
    frame_tags_applied();
    frame_picker_confirmed();
    frame_toc_add_started();
    frame_toc_edit_started();
    frame_toc_deleted();
    assert forall|o: App, n: App| #[trigger] toc_saved(o, n) implies pending_of(n) == pending_of(o) by {
        reveal(toc_saved);
    }
}

proof fn frame_toc_import_started()
    ensures
        forall|o: App, n: App| #[trigger] toc_import_started(o, n) ==> pending_of(n) == pending_of(o),
{
    frame_paper_synced();
    frame_selection_from_indices();
    frame_restored();
    frame_search_applied();
    frame_collection_synced();
    frame_papers_resorted();
    frame_motion_applied();
    frame_text_edited();
    frame_metadata_opened();
    frame_metadata_saved();
    frame_tags_confirmed();
    frame_tags_modal_opened();
    frame_delete_confirm_opened();
    frame_taken_out();
    frame_paper_removed();
    frame_papers_removed();
    frame_visual_batch_deleted();
    frame_delete_executed();
    frame_collection_created();
    frame_collection_renamed();
    frame_collection_export_confirmed();
    frame_export_modal_opened();
    frame_subcollection_modal_opened();
    frame_rename_modal_opened();
    frame_quick_open_opened();
    frame_membership_opened();
    frame_tag_picker_opened();
    frame_paper_jumped();
    frame_collection_jumped();
    frame_quick_jumped();
    frame_membership_applied();
    frame_tags_applied();
    frame_picker_confirmed();
    frame_toc_add_started();
    frame_toc_edit_started();
    frame_toc_deleted();
    frame_toc_saved();
    assert forall|o: App, n: App| #[trigger] toc_import_started(o, n) implies pending_of(n) == pending_of(o) by {
        reveal(toc_import_started);
    }
}

proof fn frame_toc_import_confirmed()
    ensures
        forall|o: App, n: App| #[trigger] toc_import_confirmed(o, n) ==> pending_of(n) == pending_of(o),
{
    frame_paper_synced();
    frame_selection_from_indices();
    frame_restored();
    frame_search_applied();
    frame_collection_synced();
    frame_papers_resorted();
    frame_motion_applied();
    frame_text_edited();
    frame_metadata_opened();
    frame_metadata_saved();
    frame_tags_confirmed();
    frame_tags_modal_opened();
    frame_delete_confirm_opened();
    frame_taken_out();
    frame_paper_removed();
    frame_papers_removed();
    frame_visual_batch_deleted();
    frame_delete_executed();
    frame_collection_created();
    frame_collection_renamed();
    frame_collection_export_confirmed();
    frame_export_modal_opened();
    frame_subcollection_modal_opened();
    frame_rename_modal_opened();
    frame_quick_open_opened();
    frame_membership_opened();
    frame_tag_picker_opened();
    frame_paper_jumped();
    frame_collection_jumped();
    frame_quick_jumped();
    frame_membership_applied();
    frame_tags_applied();
    frame_picker_confirmed();
    frame_toc_add_started();
    frame_toc_edit_started();
    frame_toc_deleted();
    frame_toc_saved();
    frame_toc_import_started();
    assert forall|o: App, n: App| #[trigger] toc_import_confirmed(o, n) implies pending_of(n) == pending_of(o) by {
        reveal(toc_import_confirmed);
    }
}

proof fn nav_keeps(c: App, a: Action, n: App)
    requires
        nav_done(c, a, n),
        !keeps_pending(a),
    ensures
        pending_of(n) == pending_of(c),
{
    reveal(nav_done);
    match a {
        Action::CyclePaperSort => {
            frame_papers_resorted();
            let m = App { sort_field: next_sort_spec(c.sort_field).0, sort_direction: next_sort_spec(c.sort_field).1, ..c };
            assert(papers_resorted(m, n));
        },
        Action::BatchDeleteConfirm => {
            if c.visual_mode {
                frame_visual_batch_deleted();
                assert(visual_batch_deleted(c, n));
            }
        },
        _ => {},
    }
}

proof fn applied_keeps_pending(o: App, n: App)
    requires
        search_applied(o, n),
    ensures
        pending_of(n) == pending_of(o),
{
    reveal(search_applied);
    reveal(paper_synced);
}

proof fn query_edit_keeps(c: App, a: Action, n: App)
    requires
        edit_done(c, a, n),
        a is SearchInput || a is SearchBackspace,
    ensures
        pending_of(n) == pending_of(c),
{
    reveal(edit_done);
    if c.is_searching {
        let m = choose|m: App| #[trigger] search_applied(m, n) && m == (App { search_query: m.search_query, ..c });
        applied_keeps_pending(m, n);
    }
}

proof fn cancel_keeps(c: App, n: App)
    requires
        edit_done(c, Action::SearchCancel, n),
    ensures
        pending_of(n) == pending_of(c),
{
    reveal(edit_done);
    let m = choose|m: App| #[trigger] collection_synced(m, n) && m == (App {
        is_searching: false,
        search_query: m.search_query,
        search_collection_index: c.selected_collection,
        ..c
    });
    synced_keeps_pending(m, n);
}

proof fn cycle_keeps(c: App, n: App)
    requires
        edit_done(c, Action::SearchCycleCollection, n),
    ensures
        pending_of(n) == pending_of(c),
{
    reveal(edit_done);
    if c.collections@.len() > 0 {
        let m = App {
            search_collection_index: ((c.search_collection_index + 1) % (c.collections@.len() as int)) as usize,
            ..c
        };
        applied_keeps_pending(m, n);
    }
}

proof fn metadata_keeps(c: App, a: Action, n: App)
    requires
        edit_done(c, a, n),
        a is EditMetadata || a is EditMetadataSave,
    ensures
        pending_of(n) == pending_of(c),
{
    reveal(edit_done);
    frame_metadata_opened();
    frame_metadata_saved();
}

proof fn plain_edit_keeps(c: App, a: Action, n: App)
    requires
        edit_done(c, a, n),
        !(a is SearchInput || a is SearchBackspace || a is SearchCancel || a is SearchCycleCollection
            || a is EditMetadata || a is EditMetadataSave),
    ensures
        pending_of(n) == pending_of(c),
{
    reveal(edit_done);
}

proof fn edit_keeps(c: App, a: Action, n: App)
    requires
        edit_done(c, a, n),
        !keeps_pending(a),
    ensures
        pending_of(n) == pending_of(c),
{
    if a is SearchInput || a is SearchBackspace {
        query_edit_keeps(c, a, n);
    } else if a is SearchCancel {
        cancel_keeps(c, n);
    } else if a is SearchCycleCollection {
        cycle_keeps(c, n);
    } else if a is EditMetadata || a is EditMetadataSave {
        metadata_keeps(c, a, n);
    } else {
        plain_edit_keeps(c, a, n);
    }
}

proof fn toc_keeps(c: App, a: Action, n: App)
    requires
        toc_done(c, a, n),
        !keeps_pending(a),
    ensures
        pending_of(n) == pending_of(c),
{
    frame_paper_synced();
    frame_selection_from_indices();
    frame_restored();
    frame_search_applied();
    frame_collection_synced();
    frame_papers_resorted();
    frame_motion_applied();
    frame_text_edited();
    frame_metadata_opened();
    frame_metadata_saved();
    frame_tags_confirmed();
    frame_tags_modal_opened();
    frame_delete_confirm_opened();
    frame_taken_out();
    frame_paper_removed();
    frame_papers_removed();
    frame_visual_batch_deleted();
    frame_delete_executed();
    frame_collection_created();
    frame_collection_renamed();
    frame_collection_export_confirmed();
    frame_export_modal_opened();
    frame_subcollection_modal_opened();
    frame_rename_modal_opened();
    frame_quick_open_opened();
    frame_membership_opened();
    frame_tag_picker_opened();
    frame_paper_jumped();
    frame_collection_jumped();
    frame_quick_jumped();
    frame_membership_applied();
    frame_tags_applied();
    frame_picker_confirmed();
    frame_toc_add_started();
    frame_toc_edit_started();
    frame_toc_deleted();
    frame_toc_saved();
    frame_toc_import_started();
    frame_toc_import_confirmed();
    reveal(toc_done);
}

proof fn modal_state_keeps(c: App, a: Action, n: App)
    requires
        modal_state(c, a, n),
        !keeps_pending(a),
    ensures
        pending_of(n) == pending_of(c),
{
    frame_paper_synced();
    frame_selection_from_indices();
    frame_restored();
    frame_search_applied();
    frame_collection_synced();
    frame_papers_resorted();
    frame_motion_applied();
    frame_text_edited();
    frame_metadata_opened();
    frame_metadata_saved();
    frame_tags_confirmed();
    frame_tags_modal_opened();
    frame_delete_confirm_opened();
    frame_taken_out();
    frame_paper_removed();
    frame_papers_removed();
    frame_visual_batch_deleted();
    frame_delete_executed();
    frame_collection_created();
    frame_collection_renamed();
    frame_collection_export_confirmed();
    frame_export_modal_opened();
    frame_subcollection_modal_opened();
    frame_rename_modal_opened();
    frame_quick_open_opened();
    frame_membership_opened();
    frame_tag_picker_opened();
    frame_paper_jumped();
    frame_collection_jumped();
    frame_quick_jumped();
    frame_membership_applied();
    frame_tags_applied();
    frame_picker_confirmed();
    frame_toc_add_started();
    frame_toc_edit_started();
    frame_toc_deleted();
    frame_toc_saved();
    frame_toc_import_started();
    frame_toc_import_confirmed();
    reveal(modal_state);
}

proof fn picker_keeps(c: App, a: Action, n: App)
    requires
        picker_done(c, a, n),
        !keeps_pending(a),
    ensures
        pending_of(n) == pending_of(c),
{
    frame_paper_synced();
    frame_selection_from_indices();
    frame_restored();
    frame_search_applied();
    frame_collection_synced();
    frame_papers_resorted();
    frame_motion_applied();
    frame_text_edited();
    frame_metadata_opened();
    frame_metadata_saved();
    frame_tags_confirmed();
    frame_tags_modal_opened();
    frame_delete_confirm_opened();
    frame_taken_out();
    frame_paper_removed();
    frame_papers_removed();
    frame_visual_batch_deleted();
    frame_delete_executed();
    frame_collection_created();
    frame_collection_renamed();
    frame_collection_export_confirmed();
    frame_export_modal_opened();
    frame_subcollection_modal_opened();
    frame_rename_modal_opened();
    frame_quick_open_opened();
    frame_membership_opened();
    frame_tag_picker_opened();
    frame_paper_jumped();
    frame_collection_jumped();
    frame_quick_jumped();
    frame_membership_applied();
    frame_tags_applied();
    frame_picker_confirmed();
    frame_toc_add_started();
    frame_toc_edit_started();
    frame_toc_deleted();
    frame_toc_saved();
    frame_toc_import_started();
    frame_toc_import_confirmed();
    reveal(picker_done);
}

proof fn viewer_keeps(c: App, a: Action, n: App, r: Option<Request>)
    requires
        viewer_done(c, a, n, r),
        !keeps_pending(a),
    ensures
        pending_of(n) == pending_of(c),
{
    frame_paper_synced();
    frame_selection_from_indices();
    frame_restored();
    frame_search_applied();
    frame_collection_synced();
    frame_papers_resorted();
    frame_motion_applied();
    frame_text_edited();
    frame_metadata_opened();
    frame_metadata_saved();
    frame_tags_confirmed();
    frame_tags_modal_opened();
    frame_delete_confirm_opened();
    frame_taken_out();
    frame_paper_removed();
    frame_papers_removed();
    frame_visual_batch_deleted();
    frame_delete_executed();
    frame_collection_created();
    frame_collection_renamed();
    frame_collection_export_confirmed();
    frame_export_modal_opened();
    frame_subcollection_modal_opened();
    frame_rename_modal_opened();
    frame_quick_open_opened();
    frame_membership_opened();
    frame_tag_picker_opened();
    frame_paper_jumped();
    frame_collection_jumped();
    frame_quick_jumped();
    frame_membership_applied();
    frame_tags_applied();
    frame_picker_confirmed();
    frame_toc_add_started();
    frame_toc_edit_started();
    frame_toc_deleted();
    frame_toc_saved();
    frame_toc_import_started();
    frame_toc_import_confirmed();
    reveal(viewer_done);
}

proof fn modal_keeps(c: App, a: Action, n: App, r: Option<Request>)
    requires
        modal_done(c, a, n, r),
        !keeps_pending(a),
    ensures
        pending_of(n) == pending_of(c),
{
    reveal(modal_done);
    if r is None && modal_state(c, a, n) {
        modal_state_keeps(c, a, n);
    }
}

/// What an action leaves pending: a count digit extends the count (capped
/// at 999999) and keeps the chord, a chord key sets the chord and keeps the
/// count, and every other action, motions and the reset included, leaves
/// neither a count nor a chord pending.
pub proof fn lemma_pending_after_action(o: App, a: Action, n: App, r: Option<Request>)
    requires
        dispatched(o, a, n, r),
    ensures
        a matches Action::CountDigit(d) ==> n.pending_count == Some(
            next_count(
                match o.pending_count {
                    Some(v) => v as int,
                    None => 0,
                },
                d as int,
            ) as usize,
        ) && n.pending_chord == o.pending_chord,
        a matches Action::PendingChord(ch) ==> n.pending_chord == Some(ch) && n.pending_count == o.pending_count,
        !(a is CountDigit || a is PendingChord) ==> n.pending_count is None && n.pending_chord is None,
{
    reveal(dispatched);
    let c = pending_settled(o, a);
    frame_motion_applied();
    match a {
        Action::CountDigit(_) | Action::PendingChord(_) | Action::ResetNavigationState | Action::Motion(_)
        | Action::MoveUp | Action::MoveDown => {
            reveal(nav_done);
        },
        _ => {
            assert(!keeps_pending(a));
            match action_group(a) {
                ActionGroup::Navigation => nav_keeps(c, a, n),
                ActionGroup::Editing => edit_keeps(c, a, n),
                ActionGroup::Toc => toc_keeps(c, a, n),
                ActionGroup::Modal => modal_keeps(c, a, n, r),
                ActionGroup::Picker => picker_keeps(c, a, n),
                ActionGroup::Viewer => viewer_keeps(c, a, n, r),
            }
        },
    }
}

} // verus!

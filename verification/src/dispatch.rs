//! The application state machine: an action comes in, the state moves on,
//! and the outside work that the action needs (opening a file, looking at
//! the file system) goes out as a request.
use vstd::prelude::*;
use crate::action::Action;
use crate::app::{clamp_index, paper_synced, papers_in, selection_from_indices, App};
use crate::app_confirm::picker_confirmed;
use crate::app_delete::{
    collection_cursor_ok, delete_confirm_opened, delete_executed, paper_removed, papers_removed, told,
    visual_batch_deleted,
};
use crate::app_edit::{metadata_opened, metadata_saved, opt_view};
use crate::app_modal::{
    backspaced, collection_created, collection_export_confirmed, collection_renamed, depth_fits,
    export_modal_opened, rename_modal_opened, subcollection_modal_opened, text_edited, text_of, TextField,
};
use crate::app_nav::{focus_moved, motion_applied, motion_ok, papers_resorted, recorded_paper, recorded_toc};
use crate::app_ops::{tags_confirmed, tags_modal_opened};
use crate::app_pick::{membership_opened, quick_open_opened, tag_picker_opened};
use crate::app_toc::{
    edit_erased, edit_next, edit_prev, edit_typed, import_merge_flipped, import_next, import_path_edited,
    import_prev, import_source_cycled, toc_add_started, toc_deleted, toc_edit_started, toc_import_confirmed,
    toc_import_started, toc_saved,
};
use crate::app_view::{arranged, collection_synced, search_applied};
use crate::navigation::{clamp, motion_fits, next_count, Motion};
use crate::panel::{panel_at, panel_pos, ActivePanel, LayoutMode};
use crate::picker::{clamped, cursor_item, filter_result, GenericPicker};
use crate::sorting::next_sort_spec;
use crate::text::{concat2, concat3, owned, string_push_str, trim, trim_str};
use crate::decimal::{dec_nat, u32_to_string, usize_to_string};
use crate::app_delete::prompt_title;
use crate::app_view::query_is_blank;

verus! {

/// Outside work that an action asks for; the caller does it and hands the
/// outcome back.
#[derive(Debug)]
pub enum Request {
    /// Open the selected paper in the viewer, at a page if given.
    OpenPaper { page: Option<u32> },
    /// Look for the file or directory to add as papers (trimmed text).
    AddPaper { path: String },
    /// Look for the metadata file or directory to import (trimmed text).
    ImportMetadata { path: String },
    /// Complete the path typed in a modal from the file system.
    CompletePath { field: TextField },
}

/// The groups of actions.
#[derive(Debug, Clone, Copy, PartialEq, Eq, Structural)]
pub enum ActionGroup {
    Navigation,
    Editing,
    Toc,
    Modal,
    Picker,
    Viewer,
}

/// The group an action belongs to.
pub open spec fn action_group(a: Action) -> ActionGroup {
    match a {
        Action::Quit | Action::NextPanel | Action::PreviousPanel | Action::PanelLeft | Action::PanelRight
        | Action::FocusPapers | Action::ToggleLayoutMode | Action::CyclePaperSort | Action::Motion(_)
        | Action::CountDigit(_) | Action::PendingChord(_) | Action::ResetNavigationState | Action::MoveUp
        | Action::MoveDown | Action::HelpModalToggle | Action::VisualModeToggle | Action::VisualModeCancel
        | Action::VisualModeToggleItem | Action::BatchDeleteConfirm | Action::OpenFullscreenToc
        | Action::CloseFullscreenToc => ActionGroup::Navigation,
        Action::Search | Action::SearchInput(_) | Action::SearchBackspace | Action::SearchConfirm
        | Action::SearchCancel | Action::SearchCycleCollection | Action::EditMetadata
        | Action::EditMetadataNextField | Action::EditMetadataPrevField | Action::EditMetadataInput(_)
        | Action::EditMetadataBackspace | Action::EditMetadataSave | Action::EditMetadataCancel => ActionGroup::Editing,
        Action::OpenToc | Action::TocAddEntry { .. } | Action::TocEditEntry { .. } | Action::TocDeleteEntry { .. }
        | Action::TocIndent { .. } | Action::TocOutdent { .. } | Action::TocMoveUp { .. } | Action::TocMoveDown { .. }
        | Action::TocEmbed | Action::TocEditModalNextField | Action::TocEditModalPrevField
        | Action::TocEditModalInput(_) | Action::TocEditModalBackspace | Action::TocEditModalSave
        | Action::TocEditModalCancel | Action::TocImportModalOpen | Action::TocImportModalNextField
        | Action::TocImportModalPrevField | Action::TocImportModalToggleSource | Action::TocImportModalToggleMerge
        | Action::TocImportModalInput(_) | Action::TocImportModalBackspace | Action::TocImportModalConfirm
        | Action::TocImportModalCancel => ActionGroup::Toc,
        Action::QuickOpenModalOpen | Action::CollectionMembershipModalOpen | Action::TagModalOpen
        | Action::PickerInput(_) | Action::PickerBackspace | Action::PickerMoveDown | Action::PickerMoveUp
        | Action::PickerPageDown | Action::PickerPageUp | Action::PickerToggleItem | Action::PickerConfirm
        | Action::PickerCancel => ActionGroup::Picker,
        Action::Open | Action::OpenAtPage(_) => ActionGroup::Viewer,
        _ => ActionGroup::Modal,
    }
}

/// Actions that keep a pending count and chord: the navigation steps.
pub open spec fn keeps_pending(a: Action) -> bool {
    match a {
        Action::CountDigit(_) | Action::PendingChord(_) | Action::Motion(_) | Action::MoveUp | Action::MoveDown
        | Action::ResetNavigationState => true,
        _ => false,
    }
}

/// The state an action starts from: any other action than a navigation
/// step drops the pending count and chord.
pub open spec fn pending_settled(o: App, a: Action) -> App {
    if keeps_pending(a) {
        o
    } else {
        App { pending_chord: None, pending_count: None, ..o }
    }
}

// ------------------------------------------------------------ navigation

/// The panel to the left (Collections stays).
pub open spec fn left_of(p: ActivePanel) -> ActivePanel {
    match p {
        ActivePanel::Collections => ActivePanel::Collections,
        ActivePanel::Papers => ActivePanel::Collections,
        ActivePanel::Details => ActivePanel::Papers,
    }
}

/// The panel to the right (Details stays).
pub open spec fn right_of(p: ActivePanel) -> ActivePanel {
    match p {
        ActivePanel::Collections => ActivePanel::Papers,
        ActivePanel::Papers => ActivePanel::Details,
        ActivePanel::Details => ActivePanel::Details,
    }
}

/// The other layout.
pub open spec fn other_layout(l: LayoutMode) -> LayoutMode {
    match l {
        LayoutMode::MultiPanel => LayoutMode::SinglePanel,
        LayoutMode::SinglePanel => LayoutMode::MultiPanel,
    }
}

/// `n` is `c` with visual mode ended.
pub open spec fn visual_ended(c: App, n: App) -> bool {
    &&& n == App { visual_mode: false, visual_anchor: None, visual_selected_uuids: n.visual_selected_uuids, ..c }
    &&& n.visual_selected_uuids@ == Set::<u128>::empty()
}

/// The state after the focus moves to the Papers panel with both positions
/// recorded (visual mode stays as it is).
pub open spec fn papers_focused(c: App, n: App) -> bool {
    &&& n == App {
        active_panel: ActivePanel::Papers,
        last_paper_by_collection: n.last_paper_by_collection,
        last_toc_by_paper: n.last_toc_by_paper,
        ..c
    }
    &&& n.last_paper_by_collection@ == recorded_paper(c)
    &&& n.last_toc_by_paper@ == recorded_toc(c)
}

/// What a navigation action does.
#[verifier::opaque]
pub open spec fn nav_done(c: App, a: Action, n: App) -> bool {
    match a {
        Action::Quit => n == App { running: false, ..c },
        Action::NextPanel => focus_moved(c, n, panel_at(panel_pos(c.active_panel) + 1)),
        Action::PreviousPanel => focus_moved(c, n, panel_at(panel_pos(c.active_panel) + 2)),
        Action::PanelLeft => focus_moved(c, n, left_of(c.active_panel)),
        Action::PanelRight => focus_moved(c, n, right_of(c.active_panel)),
        Action::FocusPapers => papers_focused(c, n),
        Action::ToggleLayoutMode => n == App { layout_mode: other_layout(c.layout_mode), needs_clear: true, ..c },
        Action::CyclePaperSort => papers_resorted(
            App { sort_field: next_sort_spec(c.sort_field).0, sort_direction: next_sort_spec(c.sort_field).1, ..c },
            n,
        ),
        Action::Motion(m) => motion_applied(c, n, m),
        Action::MoveUp => motion_applied(c, n, Motion::Relative(-1isize)),
        Action::MoveDown => motion_applied(c, n, Motion::Relative(1isize)),
        Action::CountDigit(d) => n == App {
            pending_count: Some(
                next_count(
                    match c.pending_count {
                        Some(v) => v as int,
                        None => 0,
                    },
                    d as int,
                ) as usize,
            ),
            ..c
        },
        Action::PendingChord(ch) => n == App { pending_chord: Some(ch), ..c },
        Action::ResetNavigationState => n == App { pending_count: None, pending_chord: None, ..c },
        Action::HelpModalToggle => n == App { is_showing_help: !c.is_showing_help, needs_clear: true, ..c },
        Action::VisualModeToggle => if c.visual_mode {
            visual_ended(c, n)
        } else if c.active_panel == ActivePanel::Papers && c.papers@.len() > 0 {
            &&& n == App {
                visual_mode: true,
                visual_anchor: Some(c.selected_paper),
                visual_selected_uuids: n.visual_selected_uuids,
                ..c
            }
            &&& n.visual_selected_uuids@ == set![c.papers@[c.selected_paper as int].id]
        } else {
            n == c
        },
        Action::VisualModeCancel => visual_ended(c, n),
        Action::VisualModeToggleItem => {
            &&& n == App { visual_selected_uuids: n.visual_selected_uuids, ..c }
            &&& n.visual_selected_uuids@ == if c.visual_mode && c.selected_paper < c.papers@.len() {
                let id = c.papers@[c.selected_paper as int].id;
                if c.visual_selected_uuids@.contains(id) {
                    c.visual_selected_uuids@.remove(id)
                } else {
                    c.visual_selected_uuids@.insert(id)
                }
            } else {
                c.visual_selected_uuids@
            }
        },
        Action::BatchDeleteConfirm => if c.visual_mode {
            visual_batch_deleted(c, n)
        } else {
            n == c
        },
        Action::OpenFullscreenToc => if c.toc_preview@.len() == 0 {
            told(c, n, "No TOC available for this paper"@)
        } else {
            n == App { is_viewing_fullscreen_toc: true, toc_scroll_offset: 0, needs_clear: true, ..c }
        },
        Action::CloseFullscreenToc => n == App { is_viewing_fullscreen_toc: false, needs_clear: true, ..c },
        _ => false,
    }
}

// --------------------------------------------------- search and metadata

/// What a search or metadata action does.
#[verifier::opaque]
pub open spec fn edit_done(c: App, a: Action, n: App) -> bool {
    match a {
        Action::Search => n == App { is_searching: !c.is_searching, ..c },
        Action::SearchInput(ch) => if c.is_searching {
            exists|m: App|
                #[trigger] search_applied(m, n) && m == (App { search_query: m.search_query, ..c })
                    && m.search_query@ == c.search_query@.push(ch)
        } else {
            n == c
        },
        Action::SearchBackspace => if c.is_searching {
            exists|m: App|
                #[trigger] search_applied(m, n) && m == (App { search_query: m.search_query, ..c })
                    && m.search_query@ == backspaced(c.search_query@)
        } else {
            n == c
        },
        Action::SearchConfirm => n == App { is_searching: false, ..c },
        Action::SearchCancel => exists|m: App|
            #[trigger] collection_synced(m, n) && m == (App {
                is_searching: false,
                search_query: m.search_query,
                search_collection_index: c.selected_collection,
                ..c
            }) && m.search_query@.len() == 0,
        Action::SearchCycleCollection => if c.collections@.len() == 0 {
            n == c
        } else {
            search_applied(
                App {
                    search_collection_index: ((c.search_collection_index + 1) % (c.collections@.len() as int)) as usize,
                    ..c
                },
                n,
            )
        },
        Action::EditMetadata => metadata_opened(c, n),
        Action::EditMetadataNextField => n == App {
            editing_field_index: if c.is_editing_metadata {
                ((c.editing_field_index + 1) % 6) as usize
            } else {
                c.editing_field_index
            },
            ..c
        },
        Action::EditMetadataPrevField => n == App {
            editing_field_index: if c.is_editing_metadata {
                if c.editing_field_index == 0 {
                    5
                } else {
                    (c.editing_field_index - 1) as usize
                }
            } else {
                c.editing_field_index
            },
            ..c
        },
        Action::EditMetadataInput(ch) => {
            &&& n == App { edit_buffers: n.edit_buffers, ..c }
            &&& n.edit_buffers@.len() == c.edit_buffers@.len()
            &&& forall|i: int|
                0 <= i < c.edit_buffers@.len() ==> (#[trigger] n.edit_buffers@[i])@ == if c.is_editing_metadata && i
                    == c.editing_field_index && i < 6 {
                    c.edit_buffers@[i]@.push(ch)
                } else {
                    c.edit_buffers@[i]@
                }
        },
        Action::EditMetadataBackspace => {
            &&& n == App { edit_buffers: n.edit_buffers, ..c }
            &&& n.edit_buffers@.len() == c.edit_buffers@.len()
            &&& forall|i: int|
                0 <= i < c.edit_buffers@.len() ==> (#[trigger] n.edit_buffers@[i])@ == if c.is_editing_metadata && i
                    == c.editing_field_index && i < 6 && c.edit_buffers@[i]@.len() > 0 {
                    c.edit_buffers@[i]@.drop_last()
                } else {
                    c.edit_buffers@[i]@
                }
        },
        Action::EditMetadataSave => if c.is_editing_metadata {
            metadata_saved(c, n)
        } else {
            n == c
        },
        Action::EditMetadataCancel => if c.is_editing_metadata {
            &&& n == App { is_editing_metadata: false, editing_field_index: 0, edit_buffers: n.edit_buffers, ..c }
            &&& n.edit_buffers@.len() == c.edit_buffers@.len()
            &&& forall|i: int| 0 <= i < n.edit_buffers@.len() ==> (#[trigger] n.edit_buffers@[i])@.len() == 0
        } else {
            n == c
        },
        _ => false,
    }
}

// ------------------------------------------------------------------- TOC

/// What a table-of-contents action does.
#[verifier::opaque]
pub open spec fn toc_done(c: App, a: Action, n: App) -> bool {
    match a {
        Action::OpenToc | Action::TocImportModalOpen => toc_import_started(c, n),
        Action::TocAddEntry { parent_id } => toc_add_started(c, n, parent_id),
        Action::TocEditEntry { id } => toc_edit_started(c, n, id),
        Action::TocDeleteEntry { id } => toc_deleted(c, n, id),
        Action::TocIndent { .. } | Action::TocOutdent { .. } | Action::TocMoveUp { .. } | Action::TocMoveDown { .. } => n
            == c,
        Action::TocEmbed => {
            &&& n == App { status_message: n.status_message, ..c }
            &&& opt_view(n.status_message) == Some(
                if c.selected_paper < c.papers@.len() {
                    "No database connection available"@
                } else {
                    "No paper selected to embed TOC"@
                },
            )
        },
        Action::TocEditModalNextField => n == App { toc_edit_state: edit_next(c.toc_edit_state), ..c },
        Action::TocEditModalPrevField => n == App { toc_edit_state: edit_prev(c.toc_edit_state), ..c },
        Action::TocEditModalInput(ch) => n == App { toc_edit_state: n.toc_edit_state, ..c } && edit_typed(
            c.toc_edit_state,
            n.toc_edit_state,
            ch,
        ),
        Action::TocEditModalBackspace => n == App { toc_edit_state: n.toc_edit_state, ..c } && edit_erased(
            c.toc_edit_state,
            n.toc_edit_state,
        ),
        Action::TocEditModalSave => toc_saved(c, n),
        Action::TocEditModalCancel => n == App { toc_edit_state: None, ..c },
        Action::TocImportModalNextField => n == App { toc_import_state: import_next(c.toc_import_state), ..c },
        Action::TocImportModalPrevField => n == App { toc_import_state: import_prev(c.toc_import_state), ..c },
        Action::TocImportModalToggleSource => n == App { toc_import_state: import_source_cycled(c.toc_import_state), ..c },
        Action::TocImportModalToggleMerge => n == App { toc_import_state: import_merge_flipped(c.toc_import_state), ..c },
        Action::TocImportModalInput(ch) => n == App { toc_import_state: n.toc_import_state, ..c } && import_path_edited(
            c.toc_import_state,
            n.toc_import_state,
            Some(ch),
        ),
        Action::TocImportModalBackspace => n == App { toc_import_state: n.toc_import_state, ..c } && import_path_edited(
            c.toc_import_state,
            n.toc_import_state,
            None,
        ),
        Action::TocImportModalConfirm => toc_import_confirmed(c, n),
        Action::TocImportModalCancel => n == App { toc_import_state: None, ..c },
        _ => false,
    }
}


// ---------------------------------------------------------------- modals

/// `n` is `c` with the modal buffer `f` holding `t`.
pub open spec fn typed_into(c: App, n: App, f: TextField, t: Seq<char>) -> bool {
    text_edited(c, n, f, t)
}

/// What a modal action does, with the request it makes.
#[verifier::opaque]
pub open spec fn modal_done(c: App, a: Action, n: App, r: Option<Request>) -> bool {
    match a {
        Action::AddPaperModalConfirm => if trim(c.add_paper_path_buffer@).len() == 0 {
            r is None && told(c, n, "Please enter a file or directory path"@)
        } else {
            n == c && (r matches Some(Request::AddPaper { path }) && path@ == trim(c.add_paper_path_buffer@))
        },
        Action::ImportMetadataModalConfirm => if trim(c.import_metadata_buffer@).len() == 0 {
            r is None && told(c, n, "Please enter a JSON file or directory path"@)
        } else {
            n == c && (r matches Some(Request::ImportMetadata { path }) && path@ == trim(c.import_metadata_buffer@))
        },
        Action::AddPaperModalAutocomplete => n == c && r == Some(Request::CompletePath { field: TextField::AddPaperPath }),
        Action::ExportCollectionModalAutocomplete => n == c && r == Some(Request::CompletePath { field: TextField::ExportPath }),
        Action::ImportMetadataModalAutocomplete => n == c && r == Some(
            Request::CompletePath { field: TextField::ImportMetadata },
        ),
        _ => r is None && modal_state(c, a, n),
    }
}

/// What a modal action that needs no outside work does.
#[verifier::opaque]
pub open spec fn modal_state(c: App, a: Action, n: App) -> bool {
    match a {
        Action::ExportLibrary => told(c, n, "Cannot export library: database connection unavailable"@),
        Action::AddPaperModalOpen => n == App { is_adding_paper: true, add_paper_path_buffer: n.add_paper_path_buffer, ..c }
            && n.add_paper_path_buffer@.len() == 0,
        Action::AddPaperModalInput(ch) => typed_into(c, n, TextField::AddPaperPath, c.add_paper_path_buffer@.push(ch)),
        Action::AddPaperModalBackspace => typed_into(c, n, TextField::AddPaperPath, backspaced(c.add_paper_path_buffer@)),
        Action::AddPaperModalCancel => n == App { is_adding_paper: false, add_paper_path_buffer: n.add_paper_path_buffer, ..c }
            && n.add_paper_path_buffer@.len() == 0,
        Action::CreateCollectionModalOpen => n == App {
            create_collection_parent_id: None,
            is_creating_collection: true,
            collection_name_buffer: n.collection_name_buffer,
            ..c
        } && n.collection_name_buffer@.len() == 0,
        Action::CreateSubcollectionModalOpen => subcollection_modal_opened(c, n),
        Action::CreateCollectionModalInput(ch) => typed_into(c, n, TextField::CollectionName, c.collection_name_buffer@.push(ch)),
        Action::CreateCollectionModalBackspace => typed_into(
            c,
            n,
            TextField::CollectionName,
            backspaced(c.collection_name_buffer@),
        ),
        Action::CreateCollectionModalCancel => n == App {
            is_creating_collection: false,
            create_collection_parent_id: None,
            collection_name_buffer: n.collection_name_buffer,
            ..c
        } && n.collection_name_buffer@.len() == 0,
        Action::CreateCollectionModalConfirm => collection_created(c, n),
        Action::RenameCollectionModalOpen => rename_modal_opened(c, n),
        Action::RenameCollectionModalInput(ch) => typed_into(
            c,
            n,
            TextField::RenameCollection,
            c.rename_collection_buffer@.push(ch),
        ),
        Action::RenameCollectionModalBackspace => typed_into(
            c,
            n,
            TextField::RenameCollection,
            backspaced(c.rename_collection_buffer@),
        ),
        Action::RenameCollectionModalCancel => n == App {
            is_renaming_collection: false,
            rename_collection_buffer: n.rename_collection_buffer,
            needs_clear: true,
            ..c
        } && n.rename_collection_buffer@.len() == 0,
        Action::RenameCollectionModalConfirm => collection_renamed(c, n),
        Action::ExportCollectionModalOpen => export_modal_opened(c, n),
        Action::ExportCollectionModalInput(ch) => typed_into(c, n, TextField::ExportPath, c.export_path_buffer@.push(ch)),
        Action::ExportCollectionModalBackspace => typed_into(c, n, TextField::ExportPath, backspaced(c.export_path_buffer@)),
        Action::ExportCollectionModalCancel => n == App {
            is_exporting_collection: false,
            export_path_buffer: n.export_path_buffer,
            needs_clear: true,
            ..c
        } && n.export_path_buffer@.len() == 0,
        Action::ExportCollectionModalConfirm => collection_export_confirmed(c, n),
        Action::ImportMetadataModalOpen => n == App {
            is_importing_metadata: true,
            import_metadata_buffer: n.import_metadata_buffer,
            needs_clear: true,
            ..c
        } && n.import_metadata_buffer@.len() == 0,
        Action::ImportMetadataModalInput(ch) => typed_into(
            c,
            n,
            TextField::ImportMetadata,
            c.import_metadata_buffer@.push(ch),
        ),
        Action::ImportMetadataModalBackspace => typed_into(
            c,
            n,
            TextField::ImportMetadata,
            backspaced(c.import_metadata_buffer@),
        ),
        Action::ImportMetadataModalCancel => n == App {
            is_importing_metadata: false,
            import_metadata_buffer: n.import_metadata_buffer,
            needs_clear: true,
            ..c
        } && n.import_metadata_buffer@.len() == 0,
        Action::EditTagsModalOpen => tags_modal_opened(c, n),
        Action::EditTagsModalInput(ch) => typed_into(c, n, TextField::Tags, c.tags_input_buffer@.push(ch)),
        Action::EditTagsModalBackspace => typed_into(c, n, TextField::Tags, backspaced(c.tags_input_buffer@)),
        Action::EditTagsModalCancel => n == App {
            is_editing_tags: false,
            tags_input_buffer: n.tags_input_buffer,
            needs_clear: true,
            ..c
        } && n.tags_input_buffer@.len() == 0,
        Action::EditTagsModalConfirm => tags_confirmed(c, n),
        Action::DeleteConfirmOpen => delete_confirm_opened(c, n),
        Action::DeleteConfirmCancel => n == App {
            is_confirming_delete: false,
            delete_target_description: n.delete_target_description,
            needs_clear: true,
            ..c
        } && n.delete_target_description@.len() == 0,
        Action::DeleteConfirmExecute => delete_executed(c, n),
        Action::RemoveFromCollection => paper_removed(c, n),
        Action::BatchRemoveFromCollection => papers_removed(c, n),
        _ => false,
    }
}

// --------------------------------------------------------------- pickers

/// `q` is `p` with the query `t` and the entries filtered by it.
pub open spec fn query_set(p: GenericPicker, q: GenericPicker, t: Seq<char>) -> bool {
    &&& q.query@ == t
    &&& filter_result(q.items@, t, q.visible_indices@)
    &&& q.selected == clamped(p.selected as int, q.visible_indices@.len() as int)
    &&& q == GenericPicker { query: q.query, visible_indices: q.visible_indices, selected: q.selected, ..p }
}

/// `q` is `p` with the cursor moved by `d` within the visible entries.
pub open spec fn cursor_moved(p: GenericPicker, q: GenericPicker, d: int) -> bool {
    q == GenericPicker {
        selected: (if p.visible_indices@.len() == 0 {
            0
        } else {
            clamp(p.selected + d, 0, p.visible_indices@.len() - 1)
        }) as usize,
        ..p
    }
}

/// `q` is `p` with the entry under the cursor checked or unchecked (in a
/// multi-select picker).
pub open spec fn check_toggled(p: GenericPicker, q: GenericPicker) -> bool {
    &&& q == GenericPicker { checked: q.checked, ..p }
    &&& q.checked@ == if p.multi_select && cursor_item(p) is Some {
        let id = cursor_item(p).unwrap().id;
        if p.checked@.contains(id) {
            p.checked@.remove(id)
        } else {
            p.checked@.insert(id)
        }
    } else {
        p.checked@
    }
}

/// What a picker key does to the open picker.
pub open spec fn picker_moved(p: GenericPicker, a: Action, q: GenericPicker) -> bool {
    match a {
        Action::PickerInput(ch) => query_set(p, q, p.query@.push(ch)),
        Action::PickerBackspace => query_set(p, q, backspaced(p.query@)),
        Action::PickerMoveDown => cursor_moved(p, q, 1),
        Action::PickerMoveUp => cursor_moved(p, q, -1),
        Action::PickerPageDown => cursor_moved(p, q, 10),
        Action::PickerPageUp => cursor_moved(p, q, -10),
        Action::PickerToggleItem => check_toggled(p, q),
        _ => false,
    }
}

/// What a picker action does.
#[verifier::opaque]
pub open spec fn picker_done(c: App, a: Action, n: App) -> bool {
    match a {
        Action::QuickOpenModalOpen => quick_open_opened(c, n),
        Action::CollectionMembershipModalOpen => membership_opened(c, n),
        Action::TagModalOpen => tag_picker_opened(c, n),
        Action::PickerConfirm => picker_confirmed(c, n),
        Action::PickerCancel => n == App { active_picker: None, picker_context: None, needs_clear: true, ..c },
        _ => {
            &&& n == App { active_picker: n.active_picker, ..c }
            &&& match c.active_picker {
                None => n.active_picker is None,
                Some(p) => n.active_picker matches Some(q) && picker_moved(p, a, q),
            }
        },
    }
}

// ---------------------------------------------------------------- viewer

/// What opening the selected paper does: with no paper selected a message,
/// else a request to the viewer.
#[verifier::opaque]
pub open spec fn viewer_done(c: App, a: Action, n: App, r: Option<Request>) -> bool {
    let page = match a {
        Action::OpenAtPage(pg) => Some(pg),
        _ => None,
    };
    if c.selected_paper < c.papers@.len() {
        n == c && r == Some(Request::OpenPaper { page })
    } else {
        r is None && told(c, n, "No paper selected to open"@)
    }
}

// -------------------------------------------------------------- dispatch

/// What an action does: it starts from the state with the pending count and
/// chord settled, and acts by its group.
#[verifier::opaque]
pub open spec fn dispatched(o: App, a: Action, n: App, r: Option<Request>) -> bool {
    let c = pending_settled(o, a);
    match action_group(a) {
        ActionGroup::Navigation => r is None && nav_done(c, a, n),
        ActionGroup::Editing => r is None && edit_done(c, a, n),
        ActionGroup::Toc => r is None && toc_done(c, a, n),
        ActionGroup::Modal => modal_done(c, a, n, r),
        ActionGroup::Picker => r is None && picker_done(c, a, n),
        ActionGroup::Viewer => viewer_done(c, a, n, r),
    }
}

/// The inputs on which an action stays within its preconditions: motions
/// stay within the machine integers, the collection cursor is on a
/// collection before a delete prompt, a new collection's depth fits, the
/// search target can advance, the picker cursor can move by a page.
pub open spec fn dispatch_ok(o: App, a: Action) -> bool {
    action_ok(pending_settled(o, a), a)
}

/// The conditions of `dispatch_ok` on the state the action starts from.
pub open spec fn action_ok(c: App, a: Action) -> bool {
    match a {
        Action::Motion(m) => motion_ok(c, m),
        Action::MoveUp => motion_ok(c, Motion::Relative(-1isize)),
        Action::MoveDown => motion_ok(c, Motion::Relative(1isize)),
        Action::VisualModeToggle => !c.visual_mode && c.active_panel == ActivePanel::Papers && c.papers@.len() > 0
            ==> c.selected_paper < c.papers@.len(),
        Action::SearchCycleCollection => c.collections@.len() > 0 ==> c.search_collection_index < usize::MAX,
        Action::DeleteConfirmOpen => c.active_panel == ActivePanel::Collections ==> collection_cursor_ok(c),
        Action::CreateCollectionModalConfirm => depth_fits(c),
        Action::PickerMoveDown | Action::PickerMoveUp | Action::PickerPageDown | Action::PickerPageUp => c.active_picker matches Some(
            p,
        ) ==> p.selected + 10 <= isize::MAX,
        _ => true,
    }
}

/// The group of an action.
pub fn action_group_of(a: &Action) -> (g: ActionGroup)
    ensures
        g == action_group(*a),
{
    match a {
        Action::Quit | Action::NextPanel | Action::PreviousPanel | Action::PanelLeft | Action::PanelRight
        | Action::FocusPapers | Action::ToggleLayoutMode | Action::CyclePaperSort | Action::Motion(_)
        | Action::CountDigit(_) | Action::PendingChord(_) | Action::ResetNavigationState | Action::MoveUp
        | Action::MoveDown | Action::HelpModalToggle | Action::VisualModeToggle | Action::VisualModeCancel
        | Action::VisualModeToggleItem | Action::BatchDeleteConfirm | Action::OpenFullscreenToc
        | Action::CloseFullscreenToc => ActionGroup::Navigation,
        Action::Search | Action::SearchInput(_) | Action::SearchBackspace | Action::SearchConfirm
        | Action::SearchCancel | Action::SearchCycleCollection | Action::EditMetadata
        | Action::EditMetadataNextField | Action::EditMetadataPrevField | Action::EditMetadataInput(_)
        | Action::EditMetadataBackspace | Action::EditMetadataSave | Action::EditMetadataCancel => ActionGroup::Editing,
        Action::OpenToc | Action::TocAddEntry { .. } | Action::TocEditEntry { .. } | Action::TocDeleteEntry { .. }
        | Action::TocIndent { .. } | Action::TocOutdent { .. } | Action::TocMoveUp { .. } | Action::TocMoveDown { .. }
        | Action::TocEmbed | Action::TocEditModalNextField | Action::TocEditModalPrevField
        | Action::TocEditModalInput(_) | Action::TocEditModalBackspace | Action::TocEditModalSave
        | Action::TocEditModalCancel | Action::TocImportModalOpen | Action::TocImportModalNextField
        | Action::TocImportModalPrevField | Action::TocImportModalToggleSource | Action::TocImportModalToggleMerge
        | Action::TocImportModalInput(_) | Action::TocImportModalBackspace | Action::TocImportModalConfirm
        | Action::TocImportModalCancel => ActionGroup::Toc,
        Action::QuickOpenModalOpen | Action::CollectionMembershipModalOpen | Action::TagModalOpen
        | Action::PickerInput(_) | Action::PickerBackspace | Action::PickerMoveDown | Action::PickerMoveUp
        | Action::PickerPageDown | Action::PickerPageUp | Action::PickerToggleItem | Action::PickerConfirm
        | Action::PickerCancel => ActionGroup::Picker,
        Action::Open | Action::OpenAtPage(_) => ActionGroup::Viewer,
        _ => ActionGroup::Modal,
    }
}

fn keeps_pending_exec(a: &Action) -> (b: bool)
    ensures
        b == keeps_pending(*a),
{
    match a {
        Action::CountDigit(_) | Action::PendingChord(_) | Action::Motion(_) | Action::MoveUp | Action::MoveDown
        | Action::ResetNavigationState => true,
        _ => false,
    }
}

/// The message after papers are imported from a folder: how many came in
/// from `path`, then how many were skipped as duplicates and how many
/// failed, each only when there were any.
pub open spec fn folder_import_text(path: Seq<char>, imported: nat, duplicates: nat, failed: nat) -> Seq<char> {
    "Imported "@ + dec_nat(imported) + " papers from '"@ + path + "'"@ + (if duplicates > 0 {
        " ("@ + dec_nat(duplicates) + " duplicates skipped)"@
    } else {
        Seq::empty()
    }) + (if failed > 0 {
        " ("@ + dec_nat(failed) + " failed)"@
    } else {
        Seq::empty()
    })
}

/// The message after papers are imported from a folder.
pub fn folder_import_message(path: &str, imported: usize, duplicates: usize, failed: usize) -> (s: String)
    ensures
        s@ == folder_import_text(path@, imported as nat, duplicates as nat, failed as nat),
{
    let mut s = owned("Imported ");
    string_push_str(&mut s, usize_to_string(imported).as_str());
    string_push_str(&mut s, " papers from '");
    string_push_str(&mut s, path);
    string_push_str(&mut s, "'");
    if duplicates > 0 {
        string_push_str(&mut s, " (");
        string_push_str(&mut s, usize_to_string(duplicates).as_str());
        string_push_str(&mut s, " duplicates skipped)");
    } else {
        assert(s@ + Seq::<char>::empty() =~= s@);
    }
    if failed > 0 {
        string_push_str(&mut s, " (");
        string_push_str(&mut s, usize_to_string(failed).as_str());
        string_push_str(&mut s, " failed)");
    } else {
        assert(s@ + Seq::<char>::empty() =~= s@);
    }
    s
}

impl App {
    /// Performs one action; the outside work it needs, if any, comes back as
    /// a request.
    pub fn dispatch(&mut self, action: Action) -> (r: Option<Request>)
        requires
            dispatch_ok(*old(self), action),
        ensures
            dispatched(*old(self), action, *final(self), r),
            action matches Action::CountDigit(d) ==> final(self).pending_count == Some(
                next_count(
                    match old(self).pending_count {
                        Some(v) => v as int,
                        None => 0,
                    },
                    d as int,
                ) as usize,
            ) && final(self).pending_chord == old(self).pending_chord,
            action matches Action::PendingChord(ch) ==> final(self).pending_chord == Some(ch)
                && final(self).pending_count == old(self).pending_count,
            !(action is CountDigit || action is PendingChord) ==> final(self).pending_count is None
                && final(self).pending_chord is None,
    {
        let ghost o = *self;
        self.settle_pending(action);
        let r = match action_group_of(&action) {
            ActionGroup::Navigation => {
                self.dispatch_navigation(action);
                None
            },
            ActionGroup::Editing => {
                self.dispatch_editing(action);
                None
            },
            ActionGroup::Toc => {
                self.dispatch_toc(action);
                None
            },
            ActionGroup::Modal => self.dispatch_modal(action),
            ActionGroup::Picker => {
                self.dispatch_picker(action);
                None
            },
            ActionGroup::Viewer => self.dispatch_viewer(action),
        };
        proof {
            reveal(dispatched);
            crate::pending::lemma_pending_after_action(o, action, *self, r);
        }
        r
    }
}


impl App {
    fn nav_quit(&mut self)
        ensures
            nav_done(*old(self), Action::Quit, *final(self)),
    {
        self.running = false;
        proof {
            reveal(nav_done);
        }
    }

    fn nav_next_panel(&mut self)
        ensures
            nav_done(*old(self), Action::NextPanel, *final(self)),
    {
        let t = self.active_panel.next();
        self.focus_panel(t);
        proof {
            reveal(nav_done);
        }
    }

    fn nav_previous_panel(&mut self)
        ensures
            nav_done(*old(self), Action::PreviousPanel, *final(self)),
    {
        let t = self.active_panel.previous();
        self.focus_panel(t);
        proof {
            reveal(nav_done);
        }
    }

    fn nav_panel_left(&mut self)
        ensures
            nav_done(*old(self), Action::PanelLeft, *final(self)),
    {
        let t = self.active_panel.left();
        self.focus_panel(t);
        proof {
            reveal(nav_done);
        }
    }

    fn nav_panel_right(&mut self)
        ensures
            nav_done(*old(self), Action::PanelRight, *final(self)),
    {
        let t = self.active_panel.right();
        self.focus_panel(t);
        proof {
            reveal(nav_done);
        }
    }

    fn nav_focus_papers(&mut self)
        ensures
            nav_done(*old(self), Action::FocusPapers, *final(self)),
    {
        self.record_position_for_current_collection();
        self.record_position_for_current_paper();
        self.active_panel = ActivePanel::Papers;
        proof {
            reveal(nav_done);
        }
    }

    fn nav_toggle_layout(&mut self)
        ensures
            nav_done(*old(self), Action::ToggleLayoutMode, *final(self)),
    {
        self.layout_mode = match self.layout_mode {
            LayoutMode::MultiPanel => LayoutMode::SinglePanel,
            LayoutMode::SinglePanel => LayoutMode::MultiPanel,
        };
        self.needs_clear = true;
        proof {
            reveal(nav_done);
        }
    }

    fn nav_cycle_sort(&mut self)
        ensures
            nav_done(*old(self), Action::CyclePaperSort, *final(self)),
    {
        self.cycle_paper_sort();
        proof {
            reveal(nav_done);
        }
    }

    fn nav_motion(&mut self, m: Motion)
        requires
            motion_ok(*old(self), m),
        ensures
            nav_done(*old(self), Action::Motion(m), *final(self)),
    {
        self.apply_motion(m);
        proof {
            reveal(nav_done);
        }
    }

    fn nav_move_up(&mut self)
        requires
            motion_ok(*old(self), Motion::Relative(-1isize)),
        ensures
            nav_done(*old(self), Action::MoveUp, *final(self)),
    {
        self.apply_motion(Motion::Relative(-1));
        proof {
            reveal(nav_done);
        }
    }

    fn nav_move_down(&mut self)
        requires
            motion_ok(*old(self), Motion::Relative(1isize)),
        ensures
            nav_done(*old(self), Action::MoveDown, *final(self)),
    {
        self.apply_motion(Motion::Relative(1));
        proof {
            reveal(nav_done);
        }
    }

    fn nav_count_digit(&mut self, d: usize)
        ensures
            nav_done(*old(self), Action::CountDigit(d), *final(self)),
    {
        self.handle_digit(d);
        proof {
            reveal(nav_done);
        }
    }

    fn nav_pending_chord(&mut self, ch: char)
        ensures
            nav_done(*old(self), Action::PendingChord(ch), *final(self)),
    {
        self.pending_chord = Some(ch);
        proof {
            reveal(nav_done);
        }
    }

    fn nav_reset(&mut self)
        ensures
            nav_done(*old(self), Action::ResetNavigationState, *final(self)),
    {
        self.pending_count = None;
        self.pending_chord = None;
        proof {
            reveal(nav_done);
        }
    }

    fn nav_help(&mut self)
        ensures
            nav_done(*old(self), Action::HelpModalToggle, *final(self)),
    {
        self.is_showing_help = !self.is_showing_help;
        self.needs_clear = true;
        proof {
            reveal(nav_done);
        }
    }

    fn nav_visual_toggle(&mut self)
        requires
            !old(self).visual_mode && old(self).active_panel == ActivePanel::Papers && old(self).papers@.len() > 0 ==> old(self).selected_paper < old(self).papers@.len(),
        ensures
            nav_done(*old(self), Action::VisualModeToggle, *final(self)),
    {
        self.toggle_visual_mode();
        proof {
            reveal(nav_done);
        }
    }

    fn nav_visual_cancel(&mut self)
        ensures
            nav_done(*old(self), Action::VisualModeCancel, *final(self)),
    {
        self.exit_visual_mode();
        proof {
            reveal(nav_done);
        }
    }

    fn nav_visual_item(&mut self)
        ensures
            nav_done(*old(self), Action::VisualModeToggleItem, *final(self)),
    {
        self.toggle_current_paper_selection();
        proof {
            reveal(nav_done);
        }
    }

    fn nav_batch_delete(&mut self)
        requires
            old(self).visual_mode,
        ensures
            nav_done(*old(self), Action::BatchDeleteConfirm, *final(self)),
    {
        self.delete_visual_selection();
        proof {
            reveal(nav_done);
        }
    }

    fn nav_batch_delete_idle(&mut self)
        requires
            !old(self).visual_mode,
        ensures
            nav_done(*old(self), Action::BatchDeleteConfirm, *final(self)),
    {
        proof {
            reveal(nav_done);
        }
    }

    fn nav_fullscreen_none(&mut self)
        requires
            old(self).toc_preview@.len() == 0,
        ensures
            nav_done(*old(self), Action::OpenFullscreenToc, *final(self)),
    {
        self.set_status("No TOC available for this paper");
        proof {
            reveal(nav_done);
        }
    }

    fn nav_fullscreen_open(&mut self)
        requires
            old(self).toc_preview@.len() != 0,
        ensures
            nav_done(*old(self), Action::OpenFullscreenToc, *final(self)),
    {
        self.is_viewing_fullscreen_toc = true;
        self.toc_scroll_offset = 0;
        self.needs_clear = true;
        proof {
            reveal(nav_done);
        }
    }

    fn nav_fullscreen_close(&mut self)
        ensures
            nav_done(*old(self), Action::CloseFullscreenToc, *final(self)),
    {
        self.is_viewing_fullscreen_toc = false;
        self.needs_clear = true;
        proof {
            reveal(nav_done);
        }
    }

    fn edit_search_toggle(&mut self)
        ensures
            edit_done(*old(self), Action::Search, *final(self)),
    {
        self.is_searching = !self.is_searching;
        proof {
            reveal(edit_done);
        }
    }

    fn edit_search_input(&mut self, ch: char)
        requires
            old(self).is_searching,
        ensures
            edit_done(*old(self), Action::SearchInput(ch), *final(self)),
    {
        self.push_search_char(ch);
        proof {
            reveal(edit_done);
        }
    }

    fn edit_search_input_idle(&mut self, ch: char)
        requires
            !old(self).is_searching,
        ensures
            edit_done(*old(self), Action::SearchInput(ch), *final(self)),
    {
        proof {
            reveal(edit_done);
        }
    }

    fn edit_search_backspace(&mut self)
        requires
            old(self).is_searching,
        ensures
            edit_done(*old(self), Action::SearchBackspace, *final(self)),
    {
        self.pop_search_char();
        proof {
            reveal(edit_done);
        }
    }

    fn edit_search_backspace_idle(&mut self)
        requires
            !old(self).is_searching,
        ensures
            edit_done(*old(self), Action::SearchBackspace, *final(self)),
    {
        proof {
            reveal(edit_done);
        }
    }

    fn edit_search_confirm(&mut self)
        ensures
            edit_done(*old(self), Action::SearchConfirm, *final(self)),
    {
        self.confirm_search();
        proof {
            reveal(edit_done);
        }
    }

    fn edit_search_cancel(&mut self)
        ensures
            edit_done(*old(self), Action::SearchCancel, *final(self)),
    {
        self.cancel_search();
        proof {
            reveal(edit_done);
        }
    }

    fn edit_search_cycle(&mut self)
        requires
            old(self).collections@.len() > 0 ==> old(self).search_collection_index < usize::MAX,
        ensures
            edit_done(*old(self), Action::SearchCycleCollection, *final(self)),
    {
        self.cycle_search_collection();
        proof {
            reveal(edit_done);
        }
    }

    fn edit_metadata_open(&mut self)
        ensures
            edit_done(*old(self), Action::EditMetadata, *final(self)),
    {
        self.start_edit_metadata();
        proof {
            reveal(edit_done);
        }
    }

    fn edit_metadata_next(&mut self)
        ensures
            edit_done(*old(self), Action::EditMetadataNextField, *final(self)),
    {
        self.next_edit_field();
        proof {
            reveal(edit_done);
        }
    }

    fn edit_metadata_prev(&mut self)
        ensures
            edit_done(*old(self), Action::EditMetadataPrevField, *final(self)),
    {
        self.previous_edit_field();
        proof {
            reveal(edit_done);
        }
    }

    fn edit_metadata_input(&mut self, ch: char)
        ensures
            edit_done(*old(self), Action::EditMetadataInput(ch), *final(self)),
    {
        self.push_edit_char(ch);
        proof {
            reveal(edit_done);
        }
    }

    fn edit_metadata_backspace(&mut self)
        ensures
            edit_done(*old(self), Action::EditMetadataBackspace, *final(self)),
    {
        self.pop_edit_char();
        proof {
            reveal(edit_done);
        }
    }

    fn edit_metadata_save(&mut self)
        requires
            old(self).is_editing_metadata,
        ensures
            edit_done(*old(self), Action::EditMetadataSave, *final(self)),
    {
        self.save_metadata();
        proof {
            reveal(edit_done);
        }
    }

    fn edit_metadata_save_idle(&mut self)
        requires
            !old(self).is_editing_metadata,
        ensures
            edit_done(*old(self), Action::EditMetadataSave, *final(self)),
    {
        proof {
            reveal(edit_done);
        }
    }

    fn edit_metadata_cancel(&mut self)
        requires
            old(self).is_editing_metadata,
        ensures
            edit_done(*old(self), Action::EditMetadataCancel, *final(self)),
    {
        self.cancel_edit_metadata();
        proof {
            reveal(edit_done);
        }
    }

    fn edit_metadata_cancel_idle(&mut self)
        requires
            !old(self).is_editing_metadata,
        ensures
            edit_done(*old(self), Action::EditMetadataCancel, *final(self)),
    {
        proof {
            reveal(edit_done);
        }
    }

    fn toc_open(&mut self)
        ensures
            toc_done(*old(self), Action::OpenToc, *final(self)),
    {
        self.start_import_toc();
        proof {
            reveal(toc_done);
        }
    }

    fn toc_import_open(&mut self)
        ensures
            toc_done(*old(self), Action::TocImportModalOpen, *final(self)),
    {
        self.start_import_toc();
        proof {
            reveal(toc_done);
        }
    }

    fn toc_add(&mut self, parent_id: Option<u128>)
        ensures
            toc_done(*old(self), Action::TocAddEntry { parent_id }, *final(self)),
    {
        self.start_add_toc(parent_id);
        proof {
            reveal(toc_done);
        }
    }

    fn toc_edit(&mut self, id: u128)
        ensures
            toc_done(*old(self), Action::TocEditEntry { id }, *final(self)),
    {
        self.start_edit_toc(id);
        proof {
            reveal(toc_done);
        }
    }

    fn toc_delete(&mut self, id: u128)
        ensures
            toc_done(*old(self), Action::TocDeleteEntry { id }, *final(self)),
    {
        self.delete_selected_toc(id);
        proof {
            reveal(toc_done);
        }
    }

    fn toc_indent(&mut self, id: u128)
        ensures
            toc_done(*old(self), Action::TocIndent { id }, *final(self)),
    {
        self.indent_selected_toc(id);
        proof {
            reveal(toc_done);
        }
    }

    fn toc_outdent(&mut self, id: u128)
        ensures
            toc_done(*old(self), Action::TocOutdent { id }, *final(self)),
    {
        self.outdent_selected_toc(id);
        proof {
            reveal(toc_done);
        }
    }

    fn toc_move_up(&mut self, id: u128)
        ensures
            toc_done(*old(self), Action::TocMoveUp { id }, *final(self)),
    {
        self.move_up_selected_toc(id);
        proof {
            reveal(toc_done);
        }
    }

    fn toc_move_down(&mut self, id: u128)
        ensures
            toc_done(*old(self), Action::TocMoveDown { id }, *final(self)),
    {
        self.move_down_selected_toc(id);
        proof {
            reveal(toc_done);
        }
    }

    fn toc_embed(&mut self)
        ensures
            toc_done(*old(self), Action::TocEmbed, *final(self)),
    {
        self.embed_selected_toc();
        proof {
            reveal(toc_done);
        }
    }

    fn toc_edit_next(&mut self)
        ensures
            toc_done(*old(self), Action::TocEditModalNextField, *final(self)),
    {
        self.toc_edit_next_field();
        proof {
            reveal(toc_done);
        }
    }

    fn toc_edit_prev(&mut self)
        ensures
            toc_done(*old(self), Action::TocEditModalPrevField, *final(self)),
    {
        self.toc_edit_prev_field();
        proof {
            reveal(toc_done);
        }
    }

    fn toc_edit_input(&mut self, ch: char)
        ensures
            toc_done(*old(self), Action::TocEditModalInput(ch), *final(self)),
    {
        self.toc_edit_push_char(ch);
        proof {
            reveal(toc_done);
        }
    }

    fn toc_edit_backspace(&mut self)
        ensures
            toc_done(*old(self), Action::TocEditModalBackspace, *final(self)),
    {
        self.toc_edit_pop_char();
        proof {
            reveal(toc_done);
        }
    }

    fn toc_edit_save(&mut self)
        ensures
            toc_done(*old(self), Action::TocEditModalSave, *final(self)),
    {
        self.save_toc_modal();
        proof {
            reveal(toc_done);
        }
    }

    fn toc_edit_cancel(&mut self)
        ensures
            toc_done(*old(self), Action::TocEditModalCancel, *final(self)),
    {
        self.cancel_toc_modal();
        proof {
            reveal(toc_done);
        }
    }

    fn toc_import_next(&mut self)
        ensures
            toc_done(*old(self), Action::TocImportModalNextField, *final(self)),
    {
        self.toc_import_next_field();
        proof {
            reveal(toc_done);
        }
    }

    fn toc_import_prev(&mut self)
        ensures
            toc_done(*old(self), Action::TocImportModalPrevField, *final(self)),
    {
        self.toc_import_prev_field();
        proof {
            reveal(toc_done);
        }
    }

    fn toc_import_source(&mut self)
        ensures
            toc_done(*old(self), Action::TocImportModalToggleSource, *final(self)),
    {
        self.toc_import_toggle_source();
        proof {
            reveal(toc_done);
        }
    }

    fn toc_import_merge(&mut self)
        ensures
            toc_done(*old(self), Action::TocImportModalToggleMerge, *final(self)),
    {
        self.toc_import_toggle_merge();
        proof {
            reveal(toc_done);
        }
    }

    fn toc_import_input(&mut self, ch: char)
        ensures
            toc_done(*old(self), Action::TocImportModalInput(ch), *final(self)),
    {
        self.toc_import_push_char(ch);
        proof {
            reveal(toc_done);
        }
    }

    fn toc_import_backspace(&mut self)
        ensures
            toc_done(*old(self), Action::TocImportModalBackspace, *final(self)),
    {
        self.toc_import_pop_char();
        proof {
            reveal(toc_done);
        }
    }

    fn toc_import_confirm(&mut self)
        ensures
            toc_done(*old(self), Action::TocImportModalConfirm, *final(self)),
    {
        self.confirm_import_toc();
        proof {
            reveal(toc_done);
        }
    }

    fn toc_import_cancel(&mut self)
        ensures
            toc_done(*old(self), Action::TocImportModalCancel, *final(self)),
    {
        self.cancel_import_toc();
        proof {
            reveal(toc_done);
        }
    }

    fn modal_export_library(&mut self)
        ensures
            modal_state(*old(self), Action::ExportLibrary, *final(self)),
    {
        self.set_status("Cannot export library: database connection unavailable");
        proof {
            reveal(modal_state);
        }
    }

    fn modal_add_open(&mut self)
        ensures
            modal_state(*old(self), Action::AddPaperModalOpen, *final(self)),
    {
        self.open_add_paper_modal();
        proof {
            reveal(modal_state);
        }
    }

    fn modal_add_input(&mut self, ch: char)
        ensures
            modal_state(*old(self), Action::AddPaperModalInput(ch), *final(self)),
    {
        self.push_text(TextField::AddPaperPath, ch);
        proof {
            reveal(modal_state);
        }
    }

    fn modal_add_backspace(&mut self)
        ensures
            modal_state(*old(self), Action::AddPaperModalBackspace, *final(self)),
    {
        self.pop_text(TextField::AddPaperPath);
        proof {
            reveal(modal_state);
        }
    }

    fn modal_add_cancel(&mut self)
        ensures
            modal_state(*old(self), Action::AddPaperModalCancel, *final(self)),
    {
        self.cancel_add_paper_modal();
        proof {
            reveal(modal_state);
        }
    }

    fn modal_create_open(&mut self)
        ensures
            modal_state(*old(self), Action::CreateCollectionModalOpen, *final(self)),
    {
        self.open_create_collection_modal();
        proof {
            reveal(modal_state);
        }
    }

    fn modal_sub_open(&mut self)
        ensures
            modal_state(*old(self), Action::CreateSubcollectionModalOpen, *final(self)),
    {
        self.open_create_subcollection_modal();
        proof {
            reveal(modal_state);
        }
    }

    fn modal_create_input(&mut self, ch: char)
        ensures
            modal_state(*old(self), Action::CreateCollectionModalInput(ch), *final(self)),
    {
        self.push_text(TextField::CollectionName, ch);
        proof {
            reveal(modal_state);
        }
    }

    fn modal_create_backspace(&mut self)
        ensures
            modal_state(*old(self), Action::CreateCollectionModalBackspace, *final(self)),
    {
        self.pop_text(TextField::CollectionName);
        proof {
            reveal(modal_state);
        }
    }

    fn modal_create_cancel(&mut self)
        ensures
            modal_state(*old(self), Action::CreateCollectionModalCancel, *final(self)),
    {
        self.cancel_create_collection_modal();
        proof {
            reveal(modal_state);
        }
    }

    fn modal_create_confirm(&mut self)
        requires
            depth_fits(*old(self)),
        ensures
            modal_state(*old(self), Action::CreateCollectionModalConfirm, *final(self)),
    {
        self.confirm_create_collection();
        proof {
            reveal(modal_state);
        }
    }

    fn modal_rename_open(&mut self)
        ensures
            modal_state(*old(self), Action::RenameCollectionModalOpen, *final(self)),
    {
        self.open_rename_collection_modal();
        proof {
            reveal(modal_state);
        }
    }

    fn modal_rename_input(&mut self, ch: char)
        ensures
            modal_state(*old(self), Action::RenameCollectionModalInput(ch), *final(self)),
    {
        self.push_text(TextField::RenameCollection, ch);
        proof {
            reveal(modal_state);
        }
    }

    fn modal_rename_backspace(&mut self)
        ensures
            modal_state(*old(self), Action::RenameCollectionModalBackspace, *final(self)),
    {
        self.pop_text(TextField::RenameCollection);
        proof {
            reveal(modal_state);
        }
    }

    fn modal_rename_cancel(&mut self)
        ensures
            modal_state(*old(self), Action::RenameCollectionModalCancel, *final(self)),
    {
        self.cancel_rename_collection_modal();
        proof {
            reveal(modal_state);
        }
    }

    fn modal_rename_confirm(&mut self)
        ensures
            modal_state(*old(self), Action::RenameCollectionModalConfirm, *final(self)),
    {
        self.confirm_rename_collection();
        proof {
            reveal(modal_state);
        }
    }

    fn modal_export_open(&mut self)
        ensures
            modal_state(*old(self), Action::ExportCollectionModalOpen, *final(self)),
    {
        self.open_export_collection_modal();
        proof {
            reveal(modal_state);
        }
    }

    fn modal_export_input(&mut self, ch: char)
        ensures
            modal_state(*old(self), Action::ExportCollectionModalInput(ch), *final(self)),
    {
        self.push_text(TextField::ExportPath, ch);
        proof {
            reveal(modal_state);
        }
    }

    fn modal_export_backspace(&mut self)
        ensures
            modal_state(*old(self), Action::ExportCollectionModalBackspace, *final(self)),
    {
        self.pop_text(TextField::ExportPath);
        proof {
            reveal(modal_state);
        }
    }

    fn modal_export_cancel(&mut self)
        ensures
            modal_state(*old(self), Action::ExportCollectionModalCancel, *final(self)),
    {
        self.cancel_export_collection_modal();
        proof {
            reveal(modal_state);
        }
    }

    fn modal_export_confirm(&mut self)
        ensures
            modal_state(*old(self), Action::ExportCollectionModalConfirm, *final(self)),
    {
        self.confirm_export_collection();
        proof {
            reveal(modal_state);
        }
    }

    fn modal_import_open(&mut self)
        ensures
            modal_state(*old(self), Action::ImportMetadataModalOpen, *final(self)),
    {
        self.open_import_metadata_modal();
        proof {
            reveal(modal_state);
        }
    }

    fn modal_import_input(&mut self, ch: char)
        ensures
            modal_state(*old(self), Action::ImportMetadataModalInput(ch), *final(self)),
    {
        self.push_text(TextField::ImportMetadata, ch);
        proof {
            reveal(modal_state);
        }
    }

    fn modal_import_backspace(&mut self)
        ensures
            modal_state(*old(self), Action::ImportMetadataModalBackspace, *final(self)),
    {
        self.pop_text(TextField::ImportMetadata);
        proof {
            reveal(modal_state);
        }
    }

    fn modal_import_cancel(&mut self)
        ensures
            modal_state(*old(self), Action::ImportMetadataModalCancel, *final(self)),
    {
        self.cancel_import_metadata_modal();
        proof {
            reveal(modal_state);
        }
    }

    fn modal_tags_open(&mut self)
        ensures
            modal_state(*old(self), Action::EditTagsModalOpen, *final(self)),
    {
        self.open_tags_modal();
        proof {
            reveal(modal_state);
        }
    }

    fn modal_tags_input(&mut self, ch: char)
        ensures
            modal_state(*old(self), Action::EditTagsModalInput(ch), *final(self)),
    {
        self.push_text(TextField::Tags, ch);
        proof {
            reveal(modal_state);
        }
    }

    fn modal_tags_backspace(&mut self)
        ensures
            modal_state(*old(self), Action::EditTagsModalBackspace, *final(self)),
    {
        self.pop_text(TextField::Tags);
        proof {
            reveal(modal_state);
        }
    }

    fn modal_tags_cancel(&mut self)
        ensures
            modal_state(*old(self), Action::EditTagsModalCancel, *final(self)),
    {
        self.cancel_tags_modal();
        proof {
            reveal(modal_state);
        }
    }

    fn modal_tags_confirm(&mut self)
        ensures
            modal_state(*old(self), Action::EditTagsModalConfirm, *final(self)),
    {
        self.confirm_edit_tags();
        proof {
            reveal(modal_state);
        }
    }

    fn modal_delete_open(&mut self)
        requires
            old(self).active_panel == ActivePanel::Collections ==> collection_cursor_ok(*old(self)),
        ensures
            modal_state(*old(self), Action::DeleteConfirmOpen, *final(self)),
    {
        self.open_delete_confirm();
        proof {
            reveal(modal_state);
        }
    }

    fn modal_delete_cancel(&mut self)
        ensures
            modal_state(*old(self), Action::DeleteConfirmCancel, *final(self)),
    {
        self.cancel_delete_confirm();
        proof {
            reveal(modal_state);
        }
    }

    fn modal_delete_execute(&mut self)
        ensures
            modal_state(*old(self), Action::DeleteConfirmExecute, *final(self)),
    {
        self.execute_delete();
        proof {
            reveal(modal_state);
        }
    }

    fn modal_remove_one(&mut self)
        ensures
            modal_state(*old(self), Action::RemoveFromCollection, *final(self)),
    {
        self.remove_current_paper_from_collection();
        proof {
            reveal(modal_state);
        }
    }

    fn modal_remove_many(&mut self)
        ensures
            modal_state(*old(self), Action::BatchRemoveFromCollection, *final(self)),
    {
        self.batch_remove_papers_from_collection();
        proof {
            reveal(modal_state);
        }
    }

    fn pick_quick_open(&mut self)
        ensures
            picker_done(*old(self), Action::QuickOpenModalOpen, *final(self)),
    {
        self.open_quick_open();
        proof {
            reveal(picker_done);
        }
    }

    fn pick_membership_open(&mut self)
        ensures
            picker_done(*old(self), Action::CollectionMembershipModalOpen, *final(self)),
    {
        self.open_collection_membership();
        proof {
            reveal(picker_done);
        }
    }

    fn pick_tags_open(&mut self)
        ensures
            picker_done(*old(self), Action::TagModalOpen, *final(self)),
    {
        self.open_tag_picker();
        proof {
            reveal(picker_done);
        }
    }

    fn pick_confirm(&mut self)
        ensures
            picker_done(*old(self), Action::PickerConfirm, *final(self)),
    {
        self.confirm_active_picker();
        proof {
            reveal(picker_done);
        }
    }

    fn pick_cancel(&mut self)
        ensures
            picker_done(*old(self), Action::PickerCancel, *final(self)),
    {
        self.cancel_active_picker();
        proof {
            reveal(picker_done);
        }
    }

}

impl App {
    fn settle_pending(&mut self, a: Action)
        ensures
            *final(self) == pending_settled(*old(self), a),
    {
        if !keeps_pending_exec(&a) {
            self.pending_chord = None;
            self.pending_count = None;
        }
    }

    fn dispatch_navigation(&mut self, a: Action)
        requires
            action_group(a) == ActionGroup::Navigation,
            action_ok(*old(self), a),
        ensures
            nav_done(*old(self), a, *final(self)),
    {
        match a {
            Action::Quit => self.nav_quit(),
            Action::NextPanel => self.nav_next_panel(),
            Action::PreviousPanel => self.nav_previous_panel(),
            Action::PanelLeft => self.nav_panel_left(),
            Action::PanelRight => self.nav_panel_right(),
            Action::FocusPapers => self.nav_focus_papers(),
            Action::ToggleLayoutMode => self.nav_toggle_layout(),
            Action::CyclePaperSort => self.nav_cycle_sort(),
            Action::Motion(m) => self.nav_motion(m),
            Action::MoveUp => self.nav_move_up(),
            Action::MoveDown => self.nav_move_down(),
            Action::CountDigit(d) => self.nav_count_digit(d),
            Action::PendingChord(ch) => self.nav_pending_chord(ch),
            Action::ResetNavigationState => self.nav_reset(),
            Action::HelpModalToggle => self.nav_help(),
            Action::VisualModeToggle => self.nav_visual_toggle(),
            Action::VisualModeCancel => self.nav_visual_cancel(),
            Action::VisualModeToggleItem => self.nav_visual_item(),
            Action::BatchDeleteConfirm => {
                if self.visual_mode {
                    self.nav_batch_delete();
                } else {
                    self.nav_batch_delete_idle();
                }
            },
            Action::OpenFullscreenToc => {
                if self.toc_preview.len() == 0 {
                    self.nav_fullscreen_none();
                } else {
                    self.nav_fullscreen_open();
                }
            },
            Action::CloseFullscreenToc => self.nav_fullscreen_close(),
            _ => {},
        }
    }

    fn dispatch_editing(&mut self, a: Action)
        requires
            action_group(a) == ActionGroup::Editing,
            action_ok(*old(self), a),
        ensures
            edit_done(*old(self), a, *final(self)),
    {
        match a {
            Action::Search => self.edit_search_toggle(),
            Action::SearchInput(ch) => {
                if self.is_searching {
                    self.edit_search_input(ch);
                } else {
                    self.edit_search_input_idle(ch);
                }
            },
            Action::SearchBackspace => {
                if self.is_searching {
                    self.edit_search_backspace();
                } else {
                    self.edit_search_backspace_idle();
                }
            },
            Action::SearchConfirm => self.edit_search_confirm(),
            Action::SearchCancel => self.edit_search_cancel(),
            Action::SearchCycleCollection => self.edit_search_cycle(),
            Action::EditMetadata => self.edit_metadata_open(),
            Action::EditMetadataNextField => self.edit_metadata_next(),
            Action::EditMetadataPrevField => self.edit_metadata_prev(),
            Action::EditMetadataInput(ch) => self.edit_metadata_input(ch),
            Action::EditMetadataBackspace => self.edit_metadata_backspace(),
            Action::EditMetadataSave => {
                if self.is_editing_metadata {
                    self.edit_metadata_save();
                } else {
                    self.edit_metadata_save_idle();
                }
            },
            Action::EditMetadataCancel => {
                if self.is_editing_metadata {
                    self.edit_metadata_cancel();
                } else {
                    self.edit_metadata_cancel_idle();
                }
            },
            _ => {},
        }
    }

    fn dispatch_toc(&mut self, a: Action)
        requires
            action_group(a) == ActionGroup::Toc,
        ensures
            toc_done(*old(self), a, *final(self)),
    {
        match a {
            Action::OpenToc => self.toc_open(),
            Action::TocImportModalOpen => self.toc_import_open(),
            Action::TocAddEntry { parent_id } => self.toc_add(parent_id),
            Action::TocEditEntry { id } => self.toc_edit(id),
            Action::TocDeleteEntry { id } => self.toc_delete(id),
            Action::TocIndent { id } => self.toc_indent(id),
            Action::TocOutdent { id } => self.toc_outdent(id),
            Action::TocMoveUp { id } => self.toc_move_up(id),
            Action::TocMoveDown { id } => self.toc_move_down(id),
            Action::TocEmbed => self.toc_embed(),
            Action::TocEditModalNextField => self.toc_edit_next(),
            Action::TocEditModalPrevField => self.toc_edit_prev(),
            Action::TocEditModalInput(ch) => self.toc_edit_input(ch),
            Action::TocEditModalBackspace => self.toc_edit_backspace(),
            Action::TocEditModalSave => self.toc_edit_save(),
            Action::TocEditModalCancel => self.toc_edit_cancel(),
            Action::TocImportModalNextField => self.toc_import_next(),
            Action::TocImportModalPrevField => self.toc_import_prev(),
            Action::TocImportModalToggleSource => self.toc_import_source(),
            Action::TocImportModalToggleMerge => self.toc_import_merge(),
            Action::TocImportModalInput(ch) => self.toc_import_input(ch),
            Action::TocImportModalBackspace => self.toc_import_backspace(),
            Action::TocImportModalConfirm => self.toc_import_confirm(),
            Action::TocImportModalCancel => self.toc_import_cancel(),
            _ => {},
        }
    }

    fn modal_step(&mut self, a: Action)
        requires
            action_group(a) == ActionGroup::Modal,
            !(a is AddPaperModalConfirm || a is ImportMetadataModalConfirm || a is AddPaperModalAutocomplete
                || a is ExportCollectionModalAutocomplete || a is ImportMetadataModalAutocomplete),
            action_ok(*old(self), a),
        ensures
            modal_state(*old(self), a, *final(self)),
    {
        match a {
            Action::ExportLibrary => self.modal_export_library(),
            Action::AddPaperModalOpen => self.modal_add_open(),
            Action::AddPaperModalInput(ch) => self.modal_add_input(ch),
            Action::AddPaperModalBackspace => self.modal_add_backspace(),
            Action::AddPaperModalCancel => self.modal_add_cancel(),
            Action::CreateCollectionModalOpen => self.modal_create_open(),
            Action::CreateSubcollectionModalOpen => self.modal_sub_open(),
            Action::CreateCollectionModalInput(ch) => self.modal_create_input(ch),
            Action::CreateCollectionModalBackspace => self.modal_create_backspace(),
            Action::CreateCollectionModalCancel => self.modal_create_cancel(),
            Action::CreateCollectionModalConfirm => self.modal_create_confirm(),
            Action::RenameCollectionModalOpen => self.modal_rename_open(),
            Action::RenameCollectionModalInput(ch) => self.modal_rename_input(ch),
            Action::RenameCollectionModalBackspace => self.modal_rename_backspace(),
            Action::RenameCollectionModalCancel => self.modal_rename_cancel(),
            Action::RenameCollectionModalConfirm => self.modal_rename_confirm(),
            Action::ExportCollectionModalOpen => self.modal_export_open(),
            Action::ExportCollectionModalInput(ch) => self.modal_export_input(ch),
            Action::ExportCollectionModalBackspace => self.modal_export_backspace(),
            Action::ExportCollectionModalCancel => self.modal_export_cancel(),
            Action::ExportCollectionModalConfirm => self.modal_export_confirm(),
            Action::ImportMetadataModalOpen => self.modal_import_open(),
            Action::ImportMetadataModalInput(ch) => self.modal_import_input(ch),
            Action::ImportMetadataModalBackspace => self.modal_import_backspace(),
            Action::ImportMetadataModalCancel => self.modal_import_cancel(),
            Action::EditTagsModalOpen => self.modal_tags_open(),
            Action::EditTagsModalInput(ch) => self.modal_tags_input(ch),
            Action::EditTagsModalBackspace => self.modal_tags_backspace(),
            Action::EditTagsModalCancel => self.modal_tags_cancel(),
            Action::EditTagsModalConfirm => self.modal_tags_confirm(),
            Action::DeleteConfirmOpen => self.modal_delete_open(),
            Action::DeleteConfirmCancel => self.modal_delete_cancel(),
            Action::DeleteConfirmExecute => self.modal_delete_execute(),
            Action::RemoveFromCollection => self.modal_remove_one(),
            Action::BatchRemoveFromCollection => self.modal_remove_many(),
            _ => {},
        }
    }

    fn request_path(&mut self, f: TextField, empty_msg: &str) -> (r: Option<Request>)
        requires
            f == TextField::AddPaperPath || f == TextField::ImportMetadata,
        ensures
            if trim(text_of(*old(self), f)).len() == 0 {
                r is None && told(*old(self), *final(self), empty_msg@)
            } else {
                &&& *final(self) == *old(self)
                &&& f == TextField::AddPaperPath ==> (r matches Some(Request::AddPaper { path }) && path@ == trim(
                    text_of(*old(self), f),
                ))
                &&& f == TextField::ImportMetadata ==> (r matches Some(Request::ImportMetadata { path }) && path@
                    == trim(text_of(*old(self), f)))
            },
    {
        let t = self.text(f);
        if query_is_blank(t) {
            self.set_status(empty_msg);
            None
        } else {
            let path = trim_str(t.as_str());
            match f {
                TextField::AddPaperPath => Some(Request::AddPaper { path }),
                _ => Some(Request::ImportMetadata { path }),
            }
        }
    }

    /// Confirms the add-paper modal: a blank path is refused with a message;
    /// otherwise the trimmed path is handed out to be looked up and imported.
    pub fn confirm_add_paper(&mut self) -> (r: Option<Request>)
        ensures
            if trim(old(self).add_paper_path_buffer@).len() == 0 {
                r is None && told(*old(self), *final(self), "Please enter a file or directory path"@)
            } else {
                *final(self) == *old(self) && (r matches Some(Request::AddPaper { path }) && path@ == trim(
                    old(self).add_paper_path_buffer@,
                ))
            },
    {
        self.request_path(TextField::AddPaperPath, "Please enter a file or directory path")
    }

    /// Confirms the metadata-import modal: a blank path is refused with a
    /// message; otherwise the trimmed path is handed out to be read.
    pub fn confirm_import_metadata(&mut self) -> (r: Option<Request>)
        ensures
            if trim(old(self).import_metadata_buffer@).len() == 0 {
                r is None && told(*old(self), *final(self), "Please enter a JSON file or directory path"@)
            } else {
                *final(self) == *old(self) && (r matches Some(Request::ImportMetadata { path }) && path@
                    == trim(old(self).import_metadata_buffer@))
            },
    {
        self.request_path(TextField::ImportMetadata, "Please enter a JSON file or directory path")
    }

    fn dispatch_modal(&mut self, a: Action) -> (r: Option<Request>)
        requires
            action_group(a) == ActionGroup::Modal,
            action_ok(*old(self), a),
        ensures
            modal_done(*old(self), a, *final(self), r),
    {
        let r = match a {
            Action::AddPaperModalConfirm => self.confirm_add_paper(),
            Action::ImportMetadataModalConfirm => self.confirm_import_metadata(),
            Action::AddPaperModalAutocomplete => Some(Request::CompletePath { field: TextField::AddPaperPath }),
            Action::ExportCollectionModalAutocomplete => Some(Request::CompletePath { field: TextField::ExportPath }),
            Action::ImportMetadataModalAutocomplete => Some(Request::CompletePath { field: TextField::ImportMetadata }),
            _ => {
                self.modal_step(a);
                None
            },
        };
        proof {
            reveal(modal_done);
        }
        r
    }

    #[verifier::rlimit(60)]
    fn pick_input(&mut self, ch: char)
        ensures
            picker_done(*old(self), Action::PickerInput(ch), *final(self)),
    {
        match self.active_picker.take() {
            None => {},
            Some(mut p) => {
                p.push_query_char(ch);
                self.active_picker = Some(p);
            },
        }
        proof {
            reveal(picker_done);
        }
    }

    #[verifier::rlimit(60)]
    fn pick_backspace(&mut self)
        ensures
            picker_done(*old(self), Action::PickerBackspace, *final(self)),
    {
        match self.active_picker.take() {
            None => {},
            Some(mut p) => {
                p.pop_query_char();
                self.active_picker = Some(p);
            },
        }
        proof {
            reveal(picker_done);
        }
    }

    fn pick_down(&mut self)
        requires
            old(self).active_picker matches Some(p) ==> p.selected + 10 <= isize::MAX,
        ensures
            picker_done(*old(self), Action::PickerMoveDown, *final(self)),
    {
        match self.active_picker.take() {
            None => {},
            Some(mut p) => {
                p.move_cursor(1);
                self.active_picker = Some(p);
            },
        }
        proof {
            reveal(picker_done);
        }
    }

    fn pick_up(&mut self)
        requires
            old(self).active_picker matches Some(p) ==> p.selected + 10 <= isize::MAX,
        ensures
            picker_done(*old(self), Action::PickerMoveUp, *final(self)),
    {
        match self.active_picker.take() {
            None => {},
            Some(mut p) => {
                p.move_cursor(-1);
                self.active_picker = Some(p);
            },
        }
        proof {
            reveal(picker_done);
        }
    }

    fn pick_page_down(&mut self)
        requires
            old(self).active_picker matches Some(p) ==> p.selected + 10 <= isize::MAX,
        ensures
            picker_done(*old(self), Action::PickerPageDown, *final(self)),
    {
        match self.active_picker.take() {
            None => {},
            Some(mut p) => {
                p.move_cursor(10);
                self.active_picker = Some(p);
            },
        }
        proof {
            reveal(picker_done);
        }
    }

    fn pick_page_up(&mut self)
        requires
            old(self).active_picker matches Some(p) ==> p.selected + 10 <= isize::MAX,
        ensures
            picker_done(*old(self), Action::PickerPageUp, *final(self)),
    {
        match self.active_picker.take() {
            None => {},
            Some(mut p) => {
                p.move_cursor(-10);
                self.active_picker = Some(p);
            },
        }
        proof {
            reveal(picker_done);
        }
    }

    #[verifier::rlimit(60)]
    fn pick_toggle(&mut self)
        ensures
            picker_done(*old(self), Action::PickerToggleItem, *final(self)),
    {
        match self.active_picker.take() {
            None => {},
            Some(mut p) => {
                p.toggle_selected();
                self.active_picker = Some(p);
            },
        }
        proof {
            reveal(picker_done);
        }
    }

    fn dispatch_picker(&mut self, a: Action)
        requires
            action_group(a) == ActionGroup::Picker,
            action_ok(*old(self), a),
        ensures
            picker_done(*old(self), a, *final(self)),
    {
        match a {
            Action::QuickOpenModalOpen => self.pick_quick_open(),
            Action::CollectionMembershipModalOpen => self.pick_membership_open(),
            Action::TagModalOpen => self.pick_tags_open(),
            Action::PickerConfirm => self.pick_confirm(),
            Action::PickerCancel => self.pick_cancel(),
            Action::PickerInput(ch) => self.pick_input(ch),
            Action::PickerBackspace => self.pick_backspace(),
            Action::PickerMoveDown => self.pick_down(),
            Action::PickerMoveUp => self.pick_up(),
            Action::PickerPageDown => self.pick_page_down(),
            Action::PickerPageUp => self.pick_page_up(),
            Action::PickerToggleItem => self.pick_toggle(),
            _ => {},
        }
    }

    fn dispatch_viewer(&mut self, a: Action) -> (r: Option<Request>)
        requires
            action_group(a) == ActionGroup::Viewer,
        ensures
            viewer_done(*old(self), a, *final(self), r),
    {
        let page = match a {
            Action::OpenAtPage(pg) => Some(pg),
            _ => None,
        };
        let r = if self.selected_paper < self.papers.len() {
            Some(Request::OpenPaper { page })
        } else {
            self.set_status("No paper selected to open");
            None
        };
        proof {
            reveal(viewer_done);
        }
        r
    }
}


impl App {
    /// Whether `dispatch` may be called with this action (`dispatch_ok`):
    /// callers outside verified code test it first.
    pub fn action_allowed(&self, a: Action) -> (b: bool)
        ensures
            b == dispatch_ok(*self, a),
    {
        let count: usize = if keeps_pending_exec(&a) {
            match self.pending_count {
                Some(c) => c,
                None => 1,
            }
        } else {
            1
        };
        let cur = if self.is_viewing_fullscreen_toc || self.active_panel == ActivePanel::Details {
            self.selected_toc
        } else if self.active_panel == ActivePanel::Collections {
            self.selected_collection
        } else {
            self.selected_paper
        };
        match a {
            Action::Motion(m) => motion_fits(cur, count, m),
            Action::MoveUp => motion_fits(cur, count, Motion::Relative(-1)),
            Action::MoveDown => motion_fits(cur, count, Motion::Relative(1)),
            Action::VisualModeToggle => self.visual_mode || self.active_panel != ActivePanel::Papers
                || self.papers.len() == 0 || self.selected_paper < self.papers.len(),
            Action::SearchCycleCollection => self.collections.len() == 0 || self.search_collection_index < usize::MAX,
            Action::DeleteConfirmOpen => self.active_panel != ActivePanel::Collections || self.collections.len() == 0
                || self.selected_collection < self.collections.len(),
            Action::CreateCollectionModalConfirm => self.depth_fits_exec(),
            Action::PickerMoveDown | Action::PickerMoveUp | Action::PickerPageDown | Action::PickerPageUp => {
                match &self.active_picker {
                    Some(p) => p.selected <= isize::MAX as usize - 10,
                    None => true,
                }
            },
            _ => true,
        }
    }
}

/// The message after the viewer was asked to open a paper called `name`.
pub open spec fn open_report(name: Seq<char>, page: Option<u32>, outcome: Result<(), Seq<char>>) -> Seq<char> {
    match (outcome, page) {
        (Ok(_), None) => "Opened "@ + name,
        (Ok(_), Some(p)) => "Opened "@ + name + " at page "@ + dec_nat(p as nat),
        (Err(e), None) => "Failed to open: "@ + e,
        (Err(e), Some(p)) => "Failed to open at page "@ + dec_nat(p as nat) + ": "@ + e,
    }
}

/// The outcome as texts.
pub open spec fn outcome_view(o: Result<(), String>) -> Result<(), Seq<char>> {
    match o {
        Ok(_) => Ok(()),
        Err(e) => Err(e@),
    }
}

impl App {
    /// Reports what the viewer made of a request to open the selected paper.
    pub fn report_open(&mut self, page: Option<u32>, outcome: Result<(), String>)
        requires
            old(self).selected_paper < old(self).papers@.len(),
        ensures
            told(
                *old(self),
                *final(self),
                open_report(
                    prompt_title(old(self).papers@[old(self).selected_paper as int]),
                    page,
                    outcome_view(outcome),
                ),
            ),
    {
        let p = &self.papers[self.selected_paper];
        let name = match &p.title {
            Some(t) => t.as_str(),
            None => p.file_path.as_str(),
        };
        let msg = match (&outcome, page) {
            (Ok(_), None) => concat2("Opened ", name),
            (Ok(_), Some(pg)) => concat3(concat2("Opened ", name).as_str(), " at page ", u32_to_string(pg).as_str()),
            (Err(e), None) => concat2("Failed to open: ", e.as_str()),
            (Err(e), Some(pg)) => concat3(
                concat2("Failed to open at page ", u32_to_string(pg).as_str()).as_str(),
                ": ",
                e.as_str(),
            ),
        };
        self.set_status(msg.as_str());
    }

    /// Finishes adding papers once the path was looked up: a missing path
    /// is reported; a found one cannot be imported without the library
    /// database, so the modal closes saying so.
    pub fn finish_add_paper(&mut self, shown_path: &str, exists: bool)
        ensures
            !exists ==> told(*old(self), *final(self), "Path not found: '"@ + shown_path@ + "'"@),
            exists ==> *final(self) == (App {
                is_adding_paper: false,
                add_paper_path_buffer: final(self).add_paper_path_buffer,
                status_message: final(self).status_message,
                ..*old(self)
            }),
            exists ==> final(self).add_paper_path_buffer@.len() == 0,
            exists ==> opt_view(final(self).status_message) == Some("Cannot add paper: database connection unavailable"@),
    {
        if !exists {
            let msg = concat3("Path not found: '", shown_path, "'");
            self.set_status(msg.as_str());
        } else {
            self.is_adding_paper = false;
            self.add_paper_path_buffer = String::new();
            self.set_status("Cannot add paper: database connection unavailable");
        }
    }

    /// Finishes a metadata import once the path was looked up: a missing
    /// path is reported; a found one cannot be imported without the library
    /// database, so the modal closes saying so.
    pub fn finish_import_metadata(&mut self, shown_path: &str, exists: bool)
        ensures
            !exists ==> told(*old(self), *final(self), "Path not found: '"@ + shown_path@ + "'"@),
            exists ==> *final(self) == (App {
                is_importing_metadata: false,
                import_metadata_buffer: final(self).import_metadata_buffer,
                needs_clear: true,
                status_message: final(self).status_message,
                ..*old(self)
            }),
            exists ==> final(self).import_metadata_buffer@.len() == 0,
            exists ==> opt_view(final(self).status_message) == Some(
                "Cannot import metadata: database connection unavailable"@,
            ),
    {
        if !exists {
            let msg = concat3("Path not found: '", shown_path, "'");
            self.set_status(msg.as_str());
        } else {
            self.is_importing_metadata = false;
            self.import_metadata_buffer = String::new();
            self.needs_clear = true;
            self.set_status("Cannot import metadata: database connection unavailable");
        }
    }
}

/// Cancelling a search ends search mode, empties the query and shows the
/// whole list of the selected collection again, in the active sort order.
pub proof fn lemma_search_cancel_restores(o: App, n: App, r: Option<Request>)
    requires
        dispatched(o, Action::SearchCancel, n, r),
    ensures
        r is None,
        !n.is_searching,
        n.search_query@.len() == 0,
        o.collections@.len() > 0 ==> arranged(
            n.papers@,
            papers_in(
                o.papers_by_collection@,
                o.collections@[clamp_index(o.selected_collection as int, o.collections@.len() as int)].id,
            ),
            o.sort_field,
            o.sort_direction,
        ),
        o.collections@.len() == 0 ==> n.papers@.len() == 0,
{
    reveal(dispatched);
    reveal(edit_done);
    let c = pending_settled(o, Action::SearchCancel);
    let m = choose|m: App|
        #[trigger] collection_synced(m, n) && m == (App {
            is_searching: false,
            search_query: m.search_query,
            search_collection_index: c.selected_collection,
            ..c
        }) && m.search_query@.len() == 0;
    reveal(collection_synced);
    reveal(paper_synced);
    reveal(selection_from_indices);
    assert(trim(m.search_query@) =~= m.search_query@);
}

} // verus!

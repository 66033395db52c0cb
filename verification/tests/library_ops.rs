use papyrus_tui::action::Action;
use papyrus_tui::app::{App, PickerContext};
use papyrus_tui::app_modal::TextField;
use papyrus_tui::app_pick::{quick_collection_id_exec, tag_to_uuid};
use papyrus_tui::collections::KeyMap;
use papyrus_tui::dispatch::{folder_import_message, Request};
use papyrus_tui::paper::Paper;
use papyrus_tui::panel::ActivePanel;
use papyrus_tui::selection::{CollectionItem, CollectionKey};
use uuid::Uuid;

fn paper(title: &str, year: i64) -> Paper {
    Paper {
        id: Uuid::now_v7().as_u128(),
        file_path: format!("/library/{title}.pdf"),
        content_hash: format!("hash_{title}"),
        title: Some(title.to_string()),
        authors: Some(format!("Author of {title}")),
        year: Some(year),
        journal: None,
        doi: None,
        abstract_text: None,
        text_path: None,
        annotated_pdf_path: None,
        toc_embedded_at: None,
        created_at: "2024-01-01T00:00:00Z".to_string(),
        updated_at: "2024-01-01T00:00:00Z".to_string(),
    }
}

/// A library with "All Papers" (three papers) and a real collection "Reading"
/// (the first two papers).
fn library() -> (App, Vec<Paper>, u128) {
    let ps = vec![paper("Alpha", 2020), paper("Beta", 2021), paper("Gamma", 2022)];
    let cid = Uuid::now_v7().as_u128();
    let mut lists = KeyMap::new();
    lists.insert(None, vec![ps[0].clone(), ps[1].clone(), ps[2].clone()]);
    lists.insert(Some(cid), vec![ps[0].clone(), ps[1].clone()]);
    let cols = vec![
        CollectionItem::new(None, "All Papers", 3),
        CollectionItem::new(Some(cid), "Reading", 2),
    ];
    let app = App::with_data(cols, lists, KeyMap::new());
    (app, ps, cid)
}

#[test]
fn tag_ids_are_name_based_version_five_ids() {
    let id = tag_to_uuid("transformer");
    let expected = Uuid::new_v5(&Uuid::NAMESPACE_OID, b"transformer").as_u128();
    assert_eq!(id, expected);
    assert_ne!(tag_to_uuid("transformer"), tag_to_uuid("Transformer"));
}

#[test]
fn quick_open_ids_of_virtual_collections() {
    let unfiled = CollectionItem::from_key(CollectionKey::Unfiled, "Unfiled", 0);
    let expected = Uuid::new_v5(&Uuid::NAMESPACE_OID, b"col:Unfiled").as_u128();
    assert_eq!(quick_collection_id_exec(&unfiled), expected);

    // A real key without an id goes by the debug text of its key.
    let raw = 0x0123_4567_89ab_cdef_0123_4567_89ab_cdefu128;
    let odd = CollectionItem {
        key: CollectionKey::Real(raw),
        id: None,
        name: "Odd".to_string(),
        paper_count: 0,
        depth: 0,
        parent_id: None,
    };
    let text = format!("col:Real({:?})", Uuid::from_u128(raw));
    assert_eq!(text, "col:Real(01234567-89ab-cdef-0123-456789abcdef)");
    let expected = Uuid::new_v5(&Uuid::NAMESPACE_OID, text.as_bytes()).as_u128();
    assert_eq!(quick_collection_id_exec(&odd), expected);

    let real = CollectionItem::new(Some(7), "Seven", 0);
    assert_eq!(quick_collection_id_exec(&real), 7);
}

#[test]
fn search_ignores_case_of_query() {
    let (mut app, ps, _) = library();
    app.set_search_query("BETA");
    assert_eq!(app.papers.len(), 1);
    assert_eq!(app.papers[0].id, ps[1].id);
}

#[test]
fn search_cancel_restores_collection_in_sort_order() {
    let (mut app, ps, _) = library();
    app.dispatch(Action::Search);
    for c in "gam".chars() {
        app.dispatch(Action::SearchInput(c));
    }
    assert_eq!(app.papers.len(), 1);
    app.dispatch(Action::SearchCancel);
    assert!(!app.is_searching);
    assert!(app.search_query.is_empty());
    assert_eq!(app.papers.len(), 3);
    // Same "added" timestamps: ties keep the order of the ids, descending sort
    // puts the latest id first.
    let ids: Vec<u128> = app.papers.iter().map(|p| p.id).collect();
    assert!(ids.contains(&ps[0].id) && ids.contains(&ps[1].id) && ids.contains(&ps[2].id));
}

#[test]
fn deleting_the_virtual_collection_is_refused() {
    let (mut app, _, _) = library();
    app.active_panel = ActivePanel::Collections;
    app.selected_collection = 0;
    app.dispatch(Action::DeleteConfirmOpen);
    assert!(!app.is_confirming_delete);
    assert_eq!(
        app.status_message.as_deref(),
        Some("Cannot delete 'All Papers' virtual collection")
    );
}

#[test]
fn deleting_a_real_collection_keeps_its_papers_elsewhere() {
    let (mut app, ps, cid) = library();
    app.active_panel = ActivePanel::Collections;
    app.selected_collection = 1;
    app.dispatch(Action::DeleteConfirmOpen);
    assert!(app.is_confirming_delete);
    assert_eq!(app.delete_target_description, "Collection 'Reading'");
    app.dispatch(Action::DeleteConfirmExecute);
    assert!(!app.is_confirming_delete);
    assert!(app.delete_target_description.is_empty());
    assert_eq!(app.collections.len(), 1);
    assert_eq!(app.selected_collection, 0);
    assert!(!app.papers_by_collection.contains_key(&Some(cid)));
    assert_eq!(app.papers.len(), 3);
    assert_eq!(app.status_message.as_deref(), Some("Deleted collection 'Reading'"));
    assert!(app.papers.iter().any(|p| p.id == ps[0].id));
}

#[test]
fn deleting_a_paper_removes_it_everywhere() {
    let (mut app, ps, cid) = library();
    app.active_panel = ActivePanel::Papers;
    let target = app.papers[0].id;
    app.tags_by_paper.insert(target, vec!["x".to_string()]);
    app.dispatch(Action::DeleteConfirmOpen);
    assert!(app.delete_target_description.starts_with("Paper '"));
    app.dispatch(Action::DeleteConfirmExecute);
    assert_eq!(app.papers.len(), 2);
    assert!(app.papers.iter().all(|p| p.id != target));
    assert!(app.papers_by_collection.get(&Some(cid)).unwrap().iter().all(|p| p.id != target));
    assert!(!app.tags_by_paper.contains_key(&target));
    let title = ps.iter().find(|p| p.id == target).unwrap().title.clone().unwrap();
    assert_eq!(app.status_message, Some(format!("Deleted paper '{title}'")));
}

#[test]
fn delete_prompt_without_paper() {
    let mut app = App::new();
    app.active_panel = ActivePanel::Papers;
    app.dispatch(Action::DeleteConfirmOpen);
    assert!(!app.is_confirming_delete);
    assert_eq!(app.status_message.as_deref(), Some("No paper to delete"));
}

#[test]
fn removing_from_all_papers_shows_hint() {
    let (mut app, _, _) = library();
    app.active_panel = ActivePanel::Papers;
    app.dispatch(Action::RemoveFromCollection);
    assert_eq!(
        app.status_message.as_deref(),
        Some("Cannot remove from 'All Papers'; press 'D' to delete from database")
    );
    assert_eq!(app.papers.len(), 3);
}

#[test]
fn removing_from_a_collection_keeps_the_paper_in_the_library() {
    let (mut app, _, cid) = library();
    app.selected_collection = 1;
    app.sync_current_selection();
    assert_eq!(app.papers.len(), 2);
    let target = app.papers[0].id;
    app.dispatch(Action::RemoveFromCollection);
    assert_eq!(app.papers.len(), 1);
    assert!(app.papers_by_collection.get(&Some(cid)).unwrap().iter().all(|p| p.id != target));
    assert!(app.papers_by_collection.get(&None).unwrap().iter().any(|p| p.id == target));
    assert_eq!(
        app.status_message.as_deref(),
        Some("Removed paper from collection 'Reading'")
    );
}

#[test]
fn batch_removal_counts_papers_and_leaves_visual_mode() {
    let (mut app, _, cid) = library();
    app.selected_collection = 1;
    app.sync_current_selection();
    app.active_panel = ActivePanel::Papers;
    app.selected_paper = 0;
    app.enter_visual_mode();
    app.dispatch(Action::MoveDown);
    assert_eq!(app.visual_selected_papers().len(), 2);
    app.dispatch(Action::BatchRemoveFromCollection);
    assert!(!app.visual_mode);
    assert!(app.papers_by_collection.get(&Some(cid)).unwrap().is_empty());
    assert_eq!(
        app.status_message.as_deref(),
        Some("Removed 2 papers from collection 'Reading'")
    );
}

#[test]
fn batch_delete_in_visual_mode_deletes_and_counts() {
    let (mut app, _, _) = library();
    app.active_panel = ActivePanel::Papers;
    app.selected_paper = 0;
    app.enter_visual_mode();
    app.dispatch(Action::MoveDown);
    app.dispatch(Action::BatchDeleteConfirm);
    assert!(!app.visual_mode);
    assert_eq!(app.papers.len(), 1);
    assert_eq!(app.status_message.as_deref(), Some("Deleted 2 papers"));
}

#[test]
fn batch_delete_outside_visual_mode_does_nothing() {
    let (mut app, _, _) = library();
    app.active_panel = ActivePanel::Papers;
    app.dispatch(Action::BatchDeleteConfirm);
    assert_eq!(app.papers.len(), 3);
    assert_eq!(app.status_message, None);
}

#[test]
fn creating_collections_in_memory_sets_depth_and_selects_them() {
    let (mut app, _, cid) = library();
    app.dispatch(Action::CreateCollectionModalOpen);
    app.dispatch(Action::CreateCollectionModalConfirm);
    assert_eq!(app.status_message.as_deref(), Some("Collection name cannot be empty"));
    assert!(app.is_creating_collection);

    for c in "  Theory  ".chars() {
        app.dispatch(Action::CreateCollectionModalInput(c));
    }
    app.dispatch(Action::CreateCollectionModalConfirm);
    assert!(!app.is_creating_collection);
    assert_eq!(app.collections.len(), 3);
    assert_eq!(app.selected_collection, 2);
    assert_eq!(app.collections[2].name, "Theory");
    assert_eq!(app.collections[2].depth, 0);
    assert!(app.collections[2].id.is_some());
    assert_eq!(app.status_message.as_deref(), Some("Created collection 'Theory'"));
    assert!(app.papers.is_empty());

    app.selected_collection = 1;
    app.dispatch(Action::CreateSubcollectionModalOpen);
    assert_eq!(app.create_collection_parent_id, Some(cid));
    for c in "Child".chars() {
        app.dispatch(Action::CreateCollectionModalInput(c));
    }
    app.dispatch(Action::CreateCollectionModalConfirm);
    let child = app.collections.last().unwrap();
    assert_eq!(child.depth, 1);
    assert_eq!(child.parent_id, Some(cid));
    assert_eq!(app.create_collection_parent_id, None);
}

#[test]
fn subcollection_needs_a_real_collection() {
    let (mut app, _, _) = library();
    app.selected_collection = 0;
    app.dispatch(Action::CreateSubcollectionModalOpen);
    assert!(!app.is_creating_collection);
    assert_eq!(
        app.status_message.as_deref(),
        Some("Cannot create subcollection inside 'All Papers'")
    );
}

#[test]
fn renaming_in_memory() {
    let (mut app, _, _) = library();
    app.selected_collection = 0;
    app.dispatch(Action::RenameCollectionModalOpen);
    assert_eq!(
        app.status_message.as_deref(),
        Some("Cannot rename 'All Papers' virtual collection")
    );
    app.selected_collection = 1;
    app.dispatch(Action::RenameCollectionModalOpen);
    assert!(app.is_renaming_collection);
    assert_eq!(app.rename_collection_buffer, "Reading");
    app.dispatch(Action::RenameCollectionModalBackspace);
    app.dispatch(Action::RenameCollectionModalInput('s'));
    app.dispatch(Action::RenameCollectionModalConfirm);
    assert!(!app.is_renaming_collection);
    assert_eq!(app.collections[1].name, "Readins");
    assert_eq!(app.status_message.as_deref(), Some("Renamed collection to 'Readins'"));
}

#[test]
fn export_without_database_is_reported() {
    let (mut app, _, _) = library();
    app.dispatch(Action::ExportCollectionModalOpen);
    assert!(app.is_exporting_collection);
    app.dispatch(Action::ExportCollectionModalConfirm);
    assert!(!app.is_exporting_collection);
    assert_eq!(
        app.status_message.as_deref(),
        Some("Cannot export collection: database connection unavailable")
    );
    app.dispatch(Action::ExportLibrary);
    assert_eq!(
        app.status_message.as_deref(),
        Some("Cannot export library: database connection unavailable")
    );
    let mut empty = App::new();
    empty.dispatch(Action::ExportCollectionModalOpen);
    assert!(!empty.is_exporting_collection);
    assert_eq!(empty.status_message.as_deref(), Some("No collection selected to export"));
}

#[test]
fn add_paper_asks_for_the_trimmed_path() {
    let mut app = App::new();
    app.dispatch(Action::AddPaperModalOpen);
    let r = app.dispatch(Action::AddPaperModalConfirm);
    assert!(r.is_none());
    assert_eq!(app.status_message.as_deref(), Some("Please enter a file or directory path"));
    for c in "  ~/papers ".chars() {
        app.dispatch(Action::AddPaperModalInput(c));
    }
    match app.dispatch(Action::AddPaperModalConfirm) {
        Some(Request::AddPaper { path }) => assert_eq!(path, "~/papers"),
        other => panic!("unexpected request {other:?}"),
    }
    app.finish_add_paper("/nowhere", false);
    assert_eq!(app.status_message.as_deref(), Some("Path not found: '/nowhere'"));
    assert!(app.is_adding_paper);
    app.finish_add_paper("/home/me/papers", true);
    assert!(!app.is_adding_paper);
    assert!(app.add_paper_path_buffer.is_empty());
    assert_eq!(
        app.status_message.as_deref(),
        Some("Cannot add paper: database connection unavailable")
    );
}

#[test]
fn metadata_import_asks_for_the_trimmed_path() {
    let mut app = App::new();
    app.dispatch(Action::ImportMetadataModalOpen);
    assert!(app.is_importing_metadata);
    app.dispatch(Action::ImportMetadataModalConfirm);
    assert_eq!(
        app.status_message.as_deref(),
        Some("Please enter a JSON file or directory path")
    );
    for c in "meta.json".chars() {
        app.dispatch(Action::ImportMetadataModalInput(c));
    }
    match app.dispatch(Action::ImportMetadataModalConfirm) {
        Some(Request::ImportMetadata { path }) => assert_eq!(path, "meta.json"),
        other => panic!("unexpected request {other:?}"),
    }
    match app.dispatch(Action::ImportMetadataModalAutocomplete) {
        Some(Request::CompletePath { field }) => assert_eq!(field, TextField::ImportMetadata),
        other => panic!("unexpected request {other:?}"),
    }
    app.finish_import_metadata("meta.json", true);
    assert!(!app.is_importing_metadata);
    assert_eq!(
        app.status_message.as_deref(),
        Some("Cannot import metadata: database connection unavailable")
    );
}

#[test]
fn opening_a_paper_is_requested_and_reported() {
    let mut app = App::new();
    app.dispatch(Action::Open);
    assert_eq!(app.status_message.as_deref(), Some("No paper selected to open"));

    let (mut app, _, _) = library();
    match app.dispatch(Action::OpenAtPage(7)) {
        Some(Request::OpenPaper { page }) => assert_eq!(page, Some(7)),
        other => panic!("unexpected request {other:?}"),
    }
    let title = app.papers[app.selected_paper].title.clone().unwrap();
    app.report_open(Some(7), Ok(()));
    assert_eq!(app.status_message, Some(format!("Opened {title} at page 7")));
    app.report_open(None, Err("viewer missing".to_string()));
    assert_eq!(app.status_message.as_deref(), Some("Failed to open: viewer missing"));
    app.report_open(Some(3), Err("boom".to_string()));
    assert_eq!(app.status_message.as_deref(), Some("Failed to open at page 3: boom"));
}

#[test]
fn pending_count_is_dropped_by_other_actions() {
    let (mut app, _, _) = library();
    app.dispatch(Action::CountDigit(4));
    assert_eq!(app.pending_count, Some(4));
    app.dispatch(Action::HelpModalToggle);
    assert_eq!(app.pending_count, None);
    app.dispatch(Action::PendingChord('g'));
    app.dispatch(Action::Search);
    assert_eq!(app.pending_chord, None);
}

#[test]
fn membership_picker_adds_and_removes_in_memory() {
    let (mut app, ps, cid) = library();
    app.active_panel = ActivePanel::Papers;
    // Select Gamma (not in "Reading").
    let idx = app.papers.iter().position(|p| p.id == ps[2].id).unwrap();
    app.selected_paper = idx;
    app.update_selection_from_indices();
    app.dispatch(Action::CollectionMembershipModalOpen);
    assert_eq!(
        app.picker_context,
        Some(PickerContext::CollectionMembership { target_papers: vec![ps[2].id] })
    );
    {
        let picker = app.active_picker.as_ref().unwrap();
        assert_eq!(picker.items.len(), 1);
        assert_eq!(picker.items[0].id, cid);
        assert_eq!(picker.items[0].subtitle.as_deref(), Some("2 papers"));
        assert!(picker.checked_items().is_empty());
    }
    app.dispatch(Action::PickerToggleItem);
    app.dispatch(Action::PickerConfirm);
    assert!(app.active_picker.is_none());
    let reading = app.papers_by_collection.get(&Some(cid)).unwrap();
    assert_eq!(reading.len(), 3);
    assert_eq!(reading[2].id, ps[2].id);

    // Opening again shows the collection checked; unchecking removes it.
    app.dispatch(Action::CollectionMembershipModalOpen);
    assert!(app.active_picker.as_ref().unwrap().checked_items().contains(&cid));
    app.dispatch(Action::PickerToggleItem);
    app.dispatch(Action::PickerConfirm);
    assert_eq!(app.papers_by_collection.get(&Some(cid)).unwrap().len(), 2);
}

#[test]
fn tag_picker_lists_sorted_tags_and_applies_changes() {
    let (mut app, _, _) = library();
    app.active_panel = ActivePanel::Papers;
    let a = app.papers[0].id;
    let b = app.papers[1].id;
    app.tags_by_paper.insert(a, vec!["zeta".to_string(), "alpha".to_string()]);
    app.tags_by_paper.insert(b, vec!["beta".to_string(), "alpha".to_string()]);
    app.selected_paper = 0;
    app.update_selection_from_indices();
    app.dispatch(Action::TagModalOpen);
    {
        let picker = app.active_picker.as_ref().unwrap();
        let titles: Vec<&str> = picker.items.iter().map(|i| i.title.as_str()).collect();
        assert_eq!(titles, vec!["alpha", "beta", "zeta"]);
        assert!(picker.checked_items().contains(&tag_to_uuid("alpha")));
        assert!(picker.checked_items().contains(&tag_to_uuid("zeta")));
        assert_eq!(picker.checked_items().len(), 2);
    }
    // Uncheck "alpha" (the first entry), type a new tag and confirm.
    app.dispatch(Action::PickerToggleItem);
    for c in "gamma".chars() {
        app.dispatch(Action::PickerInput(c));
    }
    app.dispatch(Action::PickerConfirm);
    let tags = app.tags_by_paper.get(&a).unwrap();
    assert_eq!(tags, &vec!["zeta".to_string(), "gamma".to_string()]);
    // The other paper is untouched.
    let tags_b = app.tags_by_paper.get(&b).unwrap();
    assert_eq!(tags_b, &vec!["beta".to_string(), "alpha".to_string()]);
}

#[test]
fn tags_modal_shows_joined_tags_and_stores_trimmed_ones() {
    let (mut app, _, _) = library();
    app.active_panel = ActivePanel::Papers;
    let id = app.papers[0].id;
    app.tags_by_paper.insert(id, vec!["ml".to_string(), "nlp".to_string()]);
    app.dispatch(Action::EditTagsModalOpen);
    assert!(app.is_editing_tags);
    assert_eq!(app.tags_input_buffer, "ml, nlp");
    app.set_text(TextField::Tags, " a ,, b,c ".to_string());
    app.dispatch(Action::EditTagsModalConfirm);
    assert!(!app.is_editing_tags);
    assert_eq!(
        app.tags_by_paper.get(&id).unwrap(),
        &vec!["a".to_string(), "b".to_string(), "c".to_string()]
    );
}

#[test]
fn picker_cursor_moves_by_pages_and_clamps() {
    let (mut app, _, _) = library();
    app.dispatch(Action::QuickOpenModalOpen);
    // Three papers and two collections.
    assert_eq!(app.active_picker.as_ref().unwrap().items.len(), 5);
    app.dispatch(Action::PickerPageDown);
    assert_eq!(app.active_picker.as_ref().unwrap().selected, 4);
    app.dispatch(Action::PickerMoveUp);
    assert_eq!(app.active_picker.as_ref().unwrap().selected, 3);
    app.dispatch(Action::PickerPageUp);
    assert_eq!(app.active_picker.as_ref().unwrap().selected, 0);
    app.dispatch(Action::PickerCancel);
    assert!(app.active_picker.is_none());
    assert_eq!(app.picker_context, None);
}

#[test]
fn virtual_collection_key_has_no_id() {
    let item = CollectionItem::from_key(CollectionKey::RecentlyAdded, "Recently Added", 1);
    assert_eq!(item.id, None);
    assert_eq!(CollectionKey::Real(9).as_uuid(), Some(9));
}

#[test]
fn tags_modal_confirmed_untouched_keeps_plain_tags() {
    let (mut app, _, _) = library();
    app.active_panel = ActivePanel::Papers;
    let id = app.papers[1].id;
    let tags = vec!["deep learning".to_string(), "nlp".to_string(), "x".to_string()];
    app.selected_paper = 1;
    app.tags_by_paper.insert(id, tags.clone());
    app.dispatch(Action::EditTagsModalOpen);
    assert_eq!(app.tags_input_buffer, "deep learning, nlp, x");
    app.dispatch(Action::EditTagsModalConfirm);
    assert_eq!(app.tags_by_paper.get(&id).unwrap(), &tags);
}

#[test]
fn tags_are_trimmed_of_unicode_white_space() {
    let (mut app, _, _) = library();
    app.active_panel = ActivePanel::Papers;
    let id = app.papers[0].id;
    app.dispatch(Action::EditTagsModalOpen);
    app.set_text(TextField::Tags, "\u{3000}ml\u{a0},\t\u{2028},nlp\u{85}".to_string());
    app.dispatch(Action::EditTagsModalConfirm);
    assert_eq!(
        app.tags_by_paper.get(&id).unwrap(),
        &vec!["ml".to_string(), "nlp".to_string()]
    );
}

#[test]
fn membership_and_common_tags_of_paper_sets() {
    let (mut app, ps, cid) = library();
    let both = app.compute_collections_for_papers(&vec![ps[0].id, ps[1].id]);
    assert!(both.contains(&cid));
    assert_eq!(both.len(), 1);
    let mixed = app.compute_collections_for_papers(&vec![ps[0].id, ps[2].id]);
    assert!(mixed.is_empty());
    assert!(app.compute_collections_for_papers(&Vec::new()).is_empty());

    app.tags_by_paper.insert(ps[0].id, vec!["ml".to_string(), "nlp".to_string()]);
    app.tags_by_paper.insert(ps[1].id, vec!["nlp".to_string()]);
    let common = app.compute_tags_for_papers(&vec![ps[0].id, ps[1].id]);
    assert_eq!(common.len(), 1);
    assert!(common.contains(&tag_to_uuid("nlp")));
    let single = app.compute_tags_for_papers(&vec![ps[0].id]);
    assert_eq!(single.len(), 2);
    assert!(single.contains(&tag_to_uuid("ml")));
    assert!(app.compute_tags_for_papers(&vec![ps[2].id]).is_empty());
}

#[test]
fn new_collections_get_version_seven_ids() {
    let (mut app, _, _) = library();
    for name in ["One", "Two"] {
        app.dispatch(Action::CreateCollectionModalOpen);
        for c in name.chars() {
            app.dispatch(Action::CreateCollectionModalInput(c));
        }
        app.dispatch(Action::CreateCollectionModalConfirm);
        let id = app.collections.iter().find(|c| c.name == name).unwrap().id.unwrap();
        assert_eq!((id >> 76) & 0xF, 7);
        assert_eq!((id >> 62) & 0x3, 2);
    }
}

#[test]
fn saved_metadata_is_stamped_with_a_timestamp() {
    let (mut app, _, _) = library();
    app.active_panel = ActivePanel::Papers;
    let id = app.papers[app.selected_paper].id;
    app.dispatch(Action::EditMetadata);
    assert!(app.is_editing_metadata);
    app.dispatch(Action::EditMetadataSave);
    assert!(!app.is_editing_metadata);
    let saved = app.papers.iter().find(|p| p.id == id).unwrap();
    let stamp = &saved.updated_at;
    assert_eq!(stamp.len(), 20);
    assert!(stamp.ends_with('Z'));
    assert_eq!(&stamp[4..5], "-");
    assert_eq!(&stamp[10..11], "T");
    assert_ne!(stamp, "2024-01-01T00:00:00Z");
}

#[test]
fn metadata_focus_wraps_both_ways() {
    let (mut app, _, _) = library();
    app.active_panel = ActivePanel::Papers;
    app.dispatch(Action::EditMetadata);
    assert_eq!(app.editing_field_index, 0);
    app.dispatch(Action::EditMetadataPrevField);
    assert_eq!(app.editing_field_index, 5);
    app.dispatch(Action::EditMetadataNextField);
    assert_eq!(app.editing_field_index, 0);
    for _ in 0..7 {
        app.dispatch(Action::EditMetadataNextField);
    }
    assert_eq!(app.editing_field_index, 1);
}

#[test]
fn confirming_path_modals_hands_out_trimmed_paths() {
    let (mut app, _, _) = library();
    app.add_paper_path_buffer = "   ".to_string();
    assert!(app.confirm_add_paper().is_none());
    assert_eq!(app.status_message.as_deref(), Some("Please enter a file or directory path"));
    app.add_paper_path_buffer = "  ~/papers/a.pdf ".to_string();
    match app.confirm_add_paper() {
        Some(Request::AddPaper { path }) => assert_eq!(path, "~/papers/a.pdf"),
        other => panic!("unexpected {other:?}"),
    }
    app.import_metadata_buffer = String::new();
    assert!(app.confirm_import_metadata().is_none());
    assert_eq!(app.status_message.as_deref(), Some("Please enter a JSON file or directory path"));
    app.import_metadata_buffer = "meta.json".to_string();
    match app.confirm_import_metadata() {
        Some(Request::ImportMetadata { path }) => assert_eq!(path, "meta.json"),
        other => panic!("unexpected {other:?}"),
    }
}

#[test]
fn metadata_save_checks_title_then_year_and_reads_missing_buffers_as_empty() {
    let (mut app, _, _) = library();
    app.active_panel = ActivePanel::Papers;
    let id = app.papers[app.selected_paper].id;
    app.dispatch(Action::EditMetadata);
    app.edit_buffers = vec!["New Title".to_string(), String::new(), "9999".to_string()];
    app.dispatch(Action::EditMetadataSave);
    assert!(app.is_editing_metadata);
    assert_eq!(app.status_message.as_deref(), Some("Invalid year"));
    app.edit_buffers = vec!["  ".to_string(), String::new(), "not_a_number".to_string()];
    app.dispatch(Action::EditMetadataSave);
    assert!(app.is_editing_metadata);
    assert_eq!(app.status_message.as_deref(), Some("Title cannot be empty"));
    app.edit_buffers = vec!["New Title".to_string(), "Someone".to_string(), "2001".to_string()];
    app.dispatch(Action::EditMetadataSave);
    assert!(!app.is_editing_metadata);
    let saved = app.papers.iter().find(|p| p.id == id).unwrap();
    assert_eq!(saved.title.as_deref(), Some("New Title"));
    assert_eq!(saved.authors.as_deref(), Some("Someone"));
    assert_eq!(saved.year, Some(2001));
    assert_eq!(saved.journal, None);
    assert_eq!(saved.abstract_text, None);
}

#[test]
fn folder_import_message_names_skips_and_failures_when_there_are_any() {
    assert_eq!(folder_import_message("/pdfs", 3, 0, 0), "Imported 3 papers from '/pdfs'");
    assert_eq!(
        folder_import_message("/pdfs", 2, 1, 4),
        "Imported 2 papers from '/pdfs' (1 duplicates skipped) (4 failed)"
    );
    assert_eq!(folder_import_message("d", 0, 0, 2), "Imported 0 papers from 'd' (2 failed)");
}

#[test]
fn pending_count_and_chord_settle_after_other_actions() {
    let (mut app, _, _) = library();
    app.dispatch(Action::CountDigit(4));
    app.dispatch(Action::CountDigit(2));
    assert_eq!(app.pending_count, Some(42));
    app.dispatch(Action::PendingChord('g'));
    assert_eq!(app.pending_chord, Some('g'));
    assert_eq!(app.pending_count, Some(42));
    app.dispatch(Action::HelpModalToggle);
    assert_eq!(app.pending_count, None);
    assert_eq!(app.pending_chord, None);
    for _ in 0..8 {
        app.dispatch(Action::CountDigit(9));
    }
    assert_eq!(app.pending_count, Some(999_999));
    app.dispatch(Action::MoveDown);
    assert_eq!(app.pending_count, None);
}

use papyrus_tui::action::Action;
use papyrus_tui::app::{App, PickerContext};
use papyrus_tui::collections::KeyMap;
use papyrus_tui::keymap::{map_key_event_for_app, map_key_event_with_context};
use papyrus_tui::keys::{KeyCode, KeyEvent, KeyModifiers};
use papyrus_tui::navigation::Motion;
use papyrus_tui::paper::{Paper, TocEntry, TocSource};
use papyrus_tui::panel::{ActivePanel, LayoutMode};
use papyrus_tui::selection::{CollectionItem, CollectionKey};
use papyrus_tui::sorting::{PaperSortField, SortDirection};
use uuid::Uuid;

fn dummy_paper(title: &str, authors: &str, year: i64) -> Paper {
    Paper {
        id: Uuid::now_v7().as_u128(),
        file_path: format!("/path/{title}.pdf"),
        content_hash: format!("hash_{title}"),
        title: Some(title.to_string()),
        authors: Some(authors.to_string()),
        year: Some(year),
        journal: None,
        doi: None,
        abstract_text: Some(format!("Abstract of {title}")),
        text_path: None,
        annotated_pdf_path: None,
        toc_embedded_at: None,
        created_at: "2024-01-01T00:00:00Z".to_string(),
        updated_at: "2024-01-01T00:00:00Z".to_string(),
    }
}

fn dummy_toc(paper_id: u128, title: &str, page_number: u32) -> TocEntry {
    TocEntry {
        id: Uuid::now_v7().as_u128(),
        paper_id,
        parent_id: None,
        title: title.to_string(),
        page_number,
        order_index: 0,
        source: TocSource::Manual,
        created_at: "2024-01-01T00:00:00Z".to_string(),
        updated_at: "2024-01-01T00:00:00Z".to_string(),
    }
}


#[test]
fn test_app_search_state_and_filter() {
    let mut app = App::new();
    let p1 = dummy_paper("Attention Is All You Need", "Vaswani", 2017);
    let p2 = dummy_paper("BERT: Pre-training", "Devlin", 2018);
    let p3 = dummy_paper("Deep Residual Learning", "He", 2015);

    app.add_collection(
        CollectionItem::new(None, "All Papers", 3),
        vec![p1.clone(), p2.clone(), p3.clone()],
    );

    assert_eq!(app.papers.len(), 3);
    assert!(!app.is_searching);
    assert!(app.search_query.is_empty());

    // Toggle search mode
    app.dispatch(Action::Search);
    assert!(app.is_searching);

    // Type 'b' -> 'e' -> 'r' -> 't'
    for c in ['b', 'e', 'r', 't'] {
        app.dispatch(Action::SearchInput(c));
    }
    assert_eq!(app.search_query, "bert");
    assert_eq!(app.papers.len(), 1);
    assert_eq!(app.papers[0].title.as_deref(), Some("BERT: Pre-training"));

    // Backspace removes 't' -> query "ber", still matches BERT
    app.dispatch(Action::SearchBackspace);
    assert_eq!(app.search_query, "ber");
    assert_eq!(app.papers.len(), 1);

    // Confirm search keeps filtered list but exits typing mode
    app.dispatch(Action::SearchConfirm);
    assert!(!app.is_searching);
    assert_eq!(app.papers.len(), 1);

    // Cancel / Esc restores full list and clears query
    app.dispatch(Action::SearchCancel);
    assert!(!app.is_searching);
    assert!(app.search_query.is_empty());
    assert_eq!(app.papers.len(), 3);
}

#[test]
fn test_app_metadata_edit_modal_lifecycle() {
    let mut app = App::new();
    let p = dummy_paper("Attention Is All You Need", "Vaswani", 2017);
    app.add_collection(CollectionItem::new(None, "All Papers", 1), vec![p]);

    assert!(!app.is_editing_metadata);
    assert_eq!(app.editing_field_index, 0);

    // Dispatch EditMetadata
    app.dispatch(Action::EditMetadata);
    assert!(app.is_editing_metadata);
    assert_eq!(app.editing_field_index, 0);
    assert_eq!(app.edit_buffers[0], "Attention Is All You Need");
    assert_eq!(app.edit_buffers[1], "Vaswani");
    assert_eq!(app.edit_buffers[2], "2017");
    assert_eq!(app.edit_buffers[3], "");
    assert_eq!(app.edit_buffers[4], "");
    assert_eq!(app.edit_buffers[5], "Abstract of Attention Is All You Need");

    // Next field navigation (0 -> 1 -> 2 -> 3 -> 4 -> 5 -> 0)
    for i in 1..=5 {
        app.dispatch(Action::EditMetadataNextField);
        assert_eq!(app.editing_field_index, i);
    }
    app.dispatch(Action::EditMetadataNextField);
    assert_eq!(app.editing_field_index, 0);

    // Prev field navigation (0 -> 5 -> 4 -> ...)
    app.dispatch(Action::EditMetadataPrevField);
    assert_eq!(app.editing_field_index, 5);
    app.dispatch(Action::EditMetadataPrevField);
    assert_eq!(app.editing_field_index, 4);

    // Switch back to Title (0)
    app.editing_field_index = 0;
    app.dispatch(Action::EditMetadataInput('!'));
    assert_eq!(app.edit_buffers[0], "Attention Is All You Need!");
    app.dispatch(Action::EditMetadataBackspace);
    assert_eq!(app.edit_buffers[0], "Attention Is All You Need");

    // Cancel editing restores modal state without modifying paper
    app.dispatch(Action::EditMetadataCancel);
    assert!(!app.is_editing_metadata);
    assert_eq!(app.editing_field_index, 0);
    assert!(app.edit_buffers[0].is_empty());
    assert_eq!(
        app.papers[0].title.as_deref(),
        Some("Attention Is All You Need")
    );
}

#[test]
fn test_app_metadata_save_success_and_validation() {
    let mut app = App::new();
    let p = dummy_paper("Original Title", "Original Author", 2020);
    app.add_collection(CollectionItem::new(None, "All Papers", 1), vec![p]);

    // Open modal
    app.dispatch(Action::EditMetadata);
    assert!(app.is_editing_metadata);

    // 1. Validation error: empty title
    app.edit_buffers[0] = "   ".to_string();
    app.dispatch(Action::EditMetadataSave);
    assert!(app.is_editing_metadata, "Modal must remain open on error");
    assert_eq!(app.status_message.as_deref(), Some("Title cannot be empty"));

    // 2. Validation error: invalid year
    app.edit_buffers[0] = "Valid Title".to_string();
    app.edit_buffers[2] = "9999".to_string();
    app.dispatch(Action::EditMetadataSave);
    assert!(app.is_editing_metadata, "Modal must remain open on error");
    assert_eq!(app.status_message.as_deref(), Some("Invalid year"));

    app.edit_buffers[2] = "not_a_number".to_string();
    app.dispatch(Action::EditMetadataSave);
    assert!(app.is_editing_metadata, "Modal must remain open on error");
    assert_eq!(app.status_message.as_deref(), Some("Invalid year"));

    // 3. Valid save
    app.edit_buffers[0] = "Attention 2.0".to_string();
    app.edit_buffers[1] = "Vaswani et al.".to_string();
    app.edit_buffers[2] = "2024".to_string();
    app.edit_buffers[3] = "NeurIPS".to_string();
    app.dispatch(Action::EditMetadataSave);

    assert!(!app.is_editing_metadata, "Modal must close on success");
    assert_eq!(app.papers[0].title.as_deref(), Some("Attention 2.0"));
    assert_eq!(app.papers[0].authors.as_deref(), Some("Vaswani et al."));
    assert_eq!(app.papers[0].year, Some(2024));
    assert_eq!(app.papers[0].journal.as_deref(), Some("NeurIPS"));
    assert!(app
        .status_message
        .as_deref()
        .unwrap_or("")
        .contains("Updated metadata for Attention 2.0"));
}

#[test]
fn test_app_toc_modal_lifecycle() {
    let mut app = App::new();
    let p = dummy_paper("Attention", "Vaswani", 2017);
    app.add_collection(CollectionItem::new(None, "All Papers", 1), vec![p]);

    assert!(!app.is_editing_toc());

    // Start Add TOC entry
    app.dispatch(Action::TocAddEntry { parent_id: None });
    assert!(app.is_editing_toc());

    let state = app.toc_edit_state.as_ref().unwrap();
    assert_eq!(state.entry_id, None);
    assert_eq!(state.active_field, 0);

    // Type title
    app.dispatch(Action::TocEditModalInput('I'));
    app.dispatch(Action::TocEditModalInput('n'));
    app.dispatch(Action::TocEditModalInput('t'));
    app.dispatch(Action::TocEditModalInput('r'));
    app.dispatch(Action::TocEditModalInput('o'));

    // Switch to page field
    app.dispatch(Action::TocEditModalNextField);
    let state = app.toc_edit_state.as_ref().unwrap();
    assert_eq!(state.active_field, 1);

    // Change page to 5
    app.dispatch(Action::TocEditModalBackspace);
    app.dispatch(Action::TocEditModalInput('5'));

    // Save
    app.dispatch(Action::TocEditModalSave);
    assert!(!app.is_editing_toc());
    assert_eq!(app.toc_preview.len(), 1);
    assert_eq!(app.toc_preview[0].title, "Intro");
    assert_eq!(app.toc_preview[0].page_number, 5);

    // Start editing existing TOC entry
    let id = app.toc_preview[0].id;
    app.dispatch(Action::TocEditEntry { id });
    assert!(app.is_editing_toc());
    let state = app.toc_edit_state.as_ref().unwrap();
    assert_eq!(state.entry_id, Some(id));
    assert_eq!(state.title_buffer, "Intro");
    assert_eq!(state.page_buffer, "5");

    // Cancel editing
    app.dispatch(Action::TocEditModalCancel);
    assert!(!app.is_editing_toc());
}

#[test]
fn test_app_add_paper_modal_lifecycle() {
    let mut app = App::new();
    assert!(!app.is_adding_paper);
    assert!(app.add_paper_path_buffer.is_empty());

    // Open add paper modal
    app.dispatch(Action::AddPaperModalOpen);
    assert!(app.is_adding_paper);

    // Type path
    for c in "paper.pdf".chars() {
        app.dispatch(Action::AddPaperModalInput(c));
    }
    assert_eq!(app.add_paper_path_buffer, "paper.pdf");

    // Backspace
    app.dispatch(Action::AddPaperModalBackspace);
    assert_eq!(app.add_paper_path_buffer, "paper.pd");

    // Cancel
    app.dispatch(Action::AddPaperModalCancel);
    assert!(!app.is_adding_paper);
    assert!(app.add_paper_path_buffer.is_empty());
}

#[test]
fn test_app_create_collection_modal_lifecycle() {
    let mut app = App::new();
    assert!(!app.is_creating_collection);
    assert!(app.collection_name_buffer.is_empty());

    // Open modal
    app.dispatch(Action::CreateCollectionModalOpen);
    assert!(app.is_creating_collection);

    // Type collection name
    for c in "Machine Learning".chars() {
        app.dispatch(Action::CreateCollectionModalInput(c));
    }
    assert_eq!(app.collection_name_buffer, "Machine Learning");

    // Backspace
    app.dispatch(Action::CreateCollectionModalBackspace);
    assert_eq!(app.collection_name_buffer, "Machine Learnin");

    // Cancel
    app.dispatch(Action::CreateCollectionModalCancel);
    assert!(!app.is_creating_collection);
    assert!(app.collection_name_buffer.is_empty());
}

#[test]
fn test_key_events_for_collections_panel() {
    let key = KeyEvent::new(KeyCode::Char('a'), KeyModifiers::none());
    let action = map_key_event_with_context(key, ActivePanel::Collections, None);
    assert_eq!(action, Some(Action::CreateCollectionModalOpen));

    let key_paper = KeyEvent::new(KeyCode::Char('a'), KeyModifiers::none());
    let action_paper =
        map_key_event_with_context(key_paper, ActivePanel::Papers, None);
    assert_eq!(action_paper, Some(Action::AddPaperModalOpen));
}

#[test]
fn test_fullscreen_toc_flow() {
    let p = dummy_paper("Attention Is All You Need", "Vaswani", 2017);
    let toc1 = dummy_toc(p.id, "1. Introduction", 1);
    let toc2 = dummy_toc(p.id, "2. Background", 3);
    let toc3 = dummy_toc(p.id, "3. Model Architecture", 5);

    let mut tocs_map = KeyMap::new();
    tocs_map.insert(p.id, vec![toc1, toc2, toc3]);

    let mut papers_map = KeyMap::new();
    papers_map.insert(None, vec![p]);

    let collections = vec![CollectionItem::new(None, "All Papers", 1)];
    let mut app = App::with_data(collections, papers_map, tocs_map);

    assert!(!app.is_viewing_fullscreen_toc);

    // Open fullscreen TOC
    app.dispatch(Action::OpenFullscreenToc);
    assert!(app.is_viewing_fullscreen_toc);
    assert_eq!(app.selected_toc, 0);

    // Navigate down
    app.dispatch(Action::MoveDown);
    assert_eq!(app.selected_toc, 1);

    // Close fullscreen TOC
    app.dispatch(Action::CloseFullscreenToc);
    assert!(!app.is_viewing_fullscreen_toc);
}

#[test]
fn test_search_by_title_and_tags_and_collection_cycling() {
    let p1 = dummy_paper("Attention Is All You Need", "Vaswani", 2017);
    let p2 = dummy_paper("Deep Residual Learning", "He", 2016);

    let col1_id = Uuid::now_v7().as_u128();
    let col2_id = Uuid::now_v7().as_u128();

    let collections = vec![
        CollectionItem::new(None, "All Papers", 2),
        CollectionItem::new(Some(col1_id), "NLP", 1),
        CollectionItem::new(Some(col2_id), "Vision", 1),
    ];

    let mut papers_map = KeyMap::new();
    papers_map.insert(None, vec![p1.clone(), p2.clone()]);
    papers_map.insert(Some(col1_id), vec![p1.clone()]);
    papers_map.insert(Some(col2_id), vec![p2.clone()]);

    let mut app = App::with_data(collections, papers_map, KeyMap::new());

    // Set tags
    app.tags_by_paper
        .insert(p1.id, vec!["transformer".to_string(), "nlp".to_string()]);
    app.tags_by_paper
        .insert(p2.id, vec!["resnet".to_string(), "cnn".to_string()]);

    // 1. Search by title
    app.start_search();
    app.set_search_query("Residual");
    assert_eq!(app.papers.len(), 1);
    assert_eq!(app.papers[0].id, p2.id);

    // 2. Search by tag substring
    app.set_search_query("transformer");
    assert_eq!(app.papers.len(), 1);
    assert_eq!(app.papers[0].id, p1.id);

    // 3. Search with #tag prefix
    app.set_search_query("#resnet");
    assert_eq!(app.papers.len(), 1);
    assert_eq!(app.papers[0].id, p2.id);

    // 4. Cycle collection via Tab
    app.set_search_query(""); // show all in current collection
    assert_eq!(app.papers.len(), 2);

    app.dispatch(Action::SearchCycleCollection);
    assert_eq!(app.search_collection_index, 1); // "NLP"
    assert_eq!(app.papers.len(), 1);
    assert_eq!(app.papers[0].id, p1.id);

    app.dispatch(Action::SearchCycleCollection);
    assert_eq!(app.search_collection_index, 2); // "Vision"
    assert_eq!(app.papers.len(), 1);
    assert_eq!(app.papers[0].id, p2.id);
}

#[test]
fn test_help_modal_toggle() {
    let mut app = App::new();
    assert!(!app.is_showing_help);

    app.dispatch(Action::HelpModalToggle);
    assert!(app.is_showing_help);

    app.dispatch(Action::HelpModalToggle);
    assert!(!app.is_showing_help);
}

#[test]
fn test_position_memory_roundtrip() {
    let col1_id = Uuid::now_v7().as_u128();
    let col2_id = Uuid::now_v7().as_u128();

    let p1 = dummy_paper("P1", "A1", 2020);
    let p2 = dummy_paper("P2", "A2", 2021);
    let p3 = dummy_paper("P3", "A3", 2022);
    let p4 = dummy_paper("P4", "A4", 2023);

    let p2_id = p2.id;
    let p4_id = p4.id;

    let col1 = CollectionItem::new(Some(col1_id), "Col 1", 2);
    let col2 = CollectionItem::new(Some(col2_id), "Col 2", 2);

    let mut papers_by_col = KeyMap::new();
    papers_by_col.insert(Some(col1_id), vec![p1, p2]);
    papers_by_col.insert(Some(col2_id), vec![p3, p4]);

    let mut app = App::with_data(vec![col1, col2], papers_by_col, KeyMap::new());
    app.active_panel = ActivePanel::Collections;

    // Initially at col 0, papers: [P1, P2]
    assert_eq!(app.selected_collection, 0);
    // Switch to Papers panel and move down to P2
    app.active_panel = ActivePanel::Papers;
    app.dispatch(Action::MoveDown);
    assert_eq!(app.selected_paper, 1);
    assert_eq!(app.selection.paper_id, Some(p2_id));

    // Switch to Collections panel and move down to Col 2
    app.active_panel = ActivePanel::Collections;
    app.dispatch(Action::MoveDown);
    assert_eq!(app.selected_collection, 1);
    assert_eq!(app.selected_paper, 0); // Col 2 has no memory yet -> defaults to P3 (0)

    // Select P4 in Col 2
    app.active_panel = ActivePanel::Papers;
    app.dispatch(Action::MoveDown);
    assert_eq!(app.selected_paper, 1);
    assert_eq!(app.selection.paper_id, Some(p4_id));

    // Switch to Collections panel and move back up to Col 1
    app.active_panel = ActivePanel::Collections;
    app.dispatch(Action::MoveUp);
    assert_eq!(app.selected_collection, 0);
    // Memory should have restored P2 (index 1)!
    assert_eq!(app.selected_paper, 1);
    assert_eq!(app.selection.paper_id, Some(p2_id));

    // Move back down to Col 2
    app.dispatch(Action::MoveDown);
    assert_eq!(app.selected_collection, 1);
    // Memory should have restored P4 (index 1)!
    assert_eq!(app.selected_paper, 1);
    assert_eq!(app.selection.paper_id, Some(p4_id));
}

#[test]
fn test_position_memory_by_paper_toc() {
    let col_id = Uuid::now_v7().as_u128();
    let p1 = dummy_paper("P1", "A1", 2020);
    let p2 = dummy_paper("P2", "A2", 2021);

    let p1_id = p1.id;
    let p2_id = p2.id;

    let t1_1 = dummy_toc(p1_id, "TOC 1.1", 1);
    let t1_2 = dummy_toc(p1_id, "TOC 1.2", 5);
    let t1_3 = dummy_toc(p1_id, "TOC 1.3", 10);
    let t1_3_id = t1_3.id;

    let t2_1 = dummy_toc(p2_id, "TOC 2.1", 1);
    let t2_2 = dummy_toc(p2_id, "TOC 2.2", 20);

    let col = CollectionItem::new(Some(col_id), "Col 1", 2);

    let mut papers_by_col = KeyMap::new();
    papers_by_col.insert(Some(col_id), vec![p1, p2]);

    let mut tocs = KeyMap::new();
    tocs.insert(p1_id, vec![t1_1, t1_2, t1_3]);
    tocs.insert(p2_id, vec![t2_1, t2_2]);

    let mut app = App::with_data(vec![col], papers_by_col, tocs);

    // Currently at P1 (index 0)
    assert_eq!(app.selected_paper, 0);
    // Move to Details panel and select TOC 1.3 (index 2)
    app.active_panel = ActivePanel::Details;
    app.dispatch(Action::MoveDown); // index 1
    app.dispatch(Action::MoveDown); // index 2
    assert_eq!(app.selected_toc, 2);
    assert_eq!(app.selection.toc_id, Some(t1_3_id));

    // Move back to Papers panel and move down to P2
    app.active_panel = ActivePanel::Papers;
    app.dispatch(Action::MoveDown);
    assert_eq!(app.selected_paper, 1);
    assert_eq!(app.selected_toc, 0); // P2 defaults to TOC 2.1 (index 0)

    // Move back to P1
    app.dispatch(Action::MoveUp);
    assert_eq!(app.selected_paper, 0);
    // Memory should have restored TOC 1.3 (index 2)!
    assert_eq!(app.selected_toc, 2);
    assert_eq!(app.selection.toc_id, Some(t1_3_id));
}

#[test]
fn test_delete_fallback_selection() {
    let col_id = Uuid::now_v7().as_u128();
    let p1 = dummy_paper("P1", "A1", 2020);
    let p2 = dummy_paper("P2", "A2", 2021);
    let p3 = dummy_paper("P3", "A3", 2022);

    let p1_id = p1.id;
    let p2_id = p2.id;
    let p3_id = p3.id;

    let col = CollectionItem::new(Some(col_id), "Col 1", 3);
    let mut papers_by_col = KeyMap::new();
    papers_by_col.insert(Some(col_id), vec![p1, p2, p3]);

    let mut app = App::with_data(vec![col], papers_by_col, KeyMap::new());
    app.active_panel = ActivePanel::Papers;

    // 1. Delete last element (P3 at index 2)
    app.selected_paper = 2;
    app.update_selection_from_indices();
    assert_eq!(app.selection.paper_id, Some(p3_id));

    app.dispatch(Action::DeleteConfirmOpen);
    app.dispatch(Action::DeleteConfirmExecute);

    // Papers list is now [P1, P2]. Selected paper should clamp to index 1 (P2), not panic
    assert_eq!(app.papers.len(), 2);
    assert_eq!(app.selected_paper, 1);
    assert_eq!(app.selection.paper_id, Some(p2_id));

    // 2. Delete middle element (P2 at index 1)
    app.dispatch(Action::DeleteConfirmOpen);
    app.dispatch(Action::DeleteConfirmExecute);

    // Papers list is now [P1]. Selected paper should clamp to index 0 (P1)
    assert_eq!(app.papers.len(), 1);
    assert_eq!(app.selected_paper, 0);
    assert_eq!(app.selection.paper_id, Some(p1_id));

    // 3. Delete only element (P1 at index 0)
    app.dispatch(Action::DeleteConfirmOpen);
    app.dispatch(Action::DeleteConfirmExecute);

    // Papers list is now empty. Selected paper is 0, selection.paper_id is None, no panic
    assert_eq!(app.papers.len(), 0);
    assert_eq!(app.selected_paper, 0);
    assert_eq!(app.selection.paper_id, None);
    assert_eq!(app.toc_preview.len(), 0);
    assert_eq!(app.selected_toc, 0);
    assert_eq!(app.selection.toc_id, None);
}

#[test]
fn test_h_l_clamping_and_tab_backtab_cycling() {
    let mut app = App::new();
    assert_eq!(app.active_panel, ActivePanel::Collections);

    // 'h' at Collections is clamped at Collections
    app.dispatch(Action::PanelLeft);
    assert_eq!(app.active_panel, ActivePanel::Collections);

    // 'l' moves to Papers
    app.dispatch(Action::PanelRight);
    assert_eq!(app.active_panel, ActivePanel::Papers);

    // 'l' moves to Details
    app.dispatch(Action::PanelRight);
    assert_eq!(app.active_panel, ActivePanel::Details);

    // 'l' at Details is clamped at Details
    app.dispatch(Action::PanelRight);
    assert_eq!(app.active_panel, ActivePanel::Details);

    // 'h' moves back to Papers
    app.dispatch(Action::PanelLeft);
    assert_eq!(app.active_panel, ActivePanel::Papers);

    // 'h' moves back to Collections
    app.dispatch(Action::PanelLeft);
    assert_eq!(app.active_panel, ActivePanel::Collections);

    // Tab cycles: Collections -> Papers -> Details -> Collections
    app.dispatch(Action::NextPanel);
    assert_eq!(app.active_panel, ActivePanel::Papers);
    app.dispatch(Action::NextPanel);
    assert_eq!(app.active_panel, ActivePanel::Details);
    app.dispatch(Action::NextPanel);
    assert_eq!(app.active_panel, ActivePanel::Collections);

    // BackTab cycles in reverse: Collections -> Details -> Papers -> Collections
    app.dispatch(Action::PreviousPanel);
    assert_eq!(app.active_panel, ActivePanel::Details);
    app.dispatch(Action::PreviousPanel);
    assert_eq!(app.active_panel, ActivePanel::Papers);
    app.dispatch(Action::PreviousPanel);
    assert_eq!(app.active_panel, ActivePanel::Collections);
}

#[test]
fn test_enter_in_collections_focuses_papers() {
    let mut app = App::new();
    app.active_panel = ActivePanel::Collections;
    app.layout_mode = LayoutMode::MultiPanel;

    // In MultiPanel mode, Enter focuses Papers
    let enter = KeyEvent::new(
        KeyCode::Enter,
        KeyModifiers::none(),
    );
    let action = map_key_event_for_app(enter, &app);
    assert_eq!(action, Some(Action::FocusPapers));

    app.dispatch(action.unwrap());
    assert_eq!(app.active_panel, ActivePanel::Papers);
    assert_eq!(app.layout_mode, LayoutMode::MultiPanel);

    // In SinglePanel mode, Enter focuses Papers and visible panel will be Papers
    app.active_panel = ActivePanel::Collections;
    app.layout_mode = LayoutMode::SinglePanel;

    let action = map_key_event_for_app(enter, &app);
    assert_eq!(action, Some(Action::FocusPapers));

    app.dispatch(action.unwrap());
    assert_eq!(app.active_panel, ActivePanel::Papers);
    assert_eq!(app.layout_mode, LayoutMode::SinglePanel);
}

#[test]
fn test_all_motion_variants() {
    let col = CollectionItem::new(None, "All Papers", 5);
    let p0 = dummy_paper("P0", "A0", 2020);
    let p1 = dummy_paper("P1", "A1", 2021);
    let p2 = dummy_paper("P2", "A2", 2022);
    let p3 = dummy_paper("P3", "A3", 2023);
    let p4 = dummy_paper("P4", "A4", 2024);

    let mut map = KeyMap::new();
    map.insert(None, vec![p0, p1, p2, p3, p4]);
    let mut app = App::with_data(vec![col], map, KeyMap::new());
    app.active_panel = ActivePanel::Papers;
    assert_eq!(app.selected_paper, 0);

    // Relative(2) -> index 2
    app.dispatch(Action::Motion(Motion::Relative(2)));
    assert_eq!(app.selected_paper, 2);

    // Relative(-1) -> index 1
    app.dispatch(Action::Motion(Motion::Relative(-1)));
    assert_eq!(app.selected_paper, 1);

    // First -> index 0
    app.dispatch(Action::Motion(Motion::First));
    assert_eq!(app.selected_paper, 0);

    // Last -> index 4
    app.dispatch(Action::Motion(Motion::Last));
    assert_eq!(app.selected_paper, 4);

    // Absolute(3) (1-based index 3 -> 0-based index 2)
    app.dispatch(Action::Motion(Motion::Absolute(3)));
    assert_eq!(app.selected_paper, 2);

    // Absolute(0) -> 0
    app.dispatch(Action::Motion(Motion::Absolute(0)));
    assert_eq!(app.selected_paper, 0);

    // Absolute(999) -> clamped to 4
    app.dispatch(Action::Motion(Motion::Absolute(999)));
    assert_eq!(app.selected_paper, 4);

    // HalfPageUp -> clamped to 0
    app.dispatch(Action::Motion(Motion::HalfPageUp));
    assert_eq!(app.selected_paper, 0);

    // HalfPageDown -> clamped to 4
    app.dispatch(Action::Motion(Motion::HalfPageDown));
    assert_eq!(app.selected_paper, 4);
}

#[test]
fn test_vim_motions_gg_g_ctrl_d_u() {
    let col = CollectionItem::new(None, "All Papers", 25);
    let papers: Vec<Paper> = (0..25)
        .map(|i| dummy_paper(&format!("Paper {i}"), "Author", 2000 + i))
        .collect();
    let mut map = KeyMap::new();
    map.insert(None, papers);

    let mut app = App::with_data(vec![col], map, KeyMap::new());
    app.active_panel = ActivePanel::Papers;
    assert_eq!(app.selected_paper, 0);

    // Press 'G' -> moves to last item (index 24)
    let g_upper = KeyEvent::new(
        KeyCode::Char('G'),
        KeyModifiers::none(),
    );
    let act = map_key_event_for_app(g_upper, &app);
    assert_eq!(act, Some(Action::Motion(Motion::Last)));
    app.dispatch(act.unwrap());
    assert_eq!(app.selected_paper, 24);

    // Press 'g' once -> sets pending chord 'g'
    let g_lower = KeyEvent::new(
        KeyCode::Char('g'),
        KeyModifiers::none(),
    );
    let act = map_key_event_for_app(g_lower, &app);
    assert_eq!(act, Some(Action::PendingChord('g')));
    app.dispatch(act.unwrap());
    assert_eq!(app.pending_chord, Some('g'));

    // Press 'g' second time -> moves to first item (index 0)
    let act = map_key_event_for_app(g_lower, &app);
    assert_eq!(act, Some(Action::Motion(Motion::First)));
    app.dispatch(act.unwrap());
    assert_eq!(app.selected_paper, 0);
    assert_eq!(app.pending_chord, None);

    // Ctrl-d -> half page down (step 10) -> index 10
    let ctrl_d = KeyEvent::new(
        KeyCode::Char('d'),
        KeyModifiers::control(),
    );
    let act = map_key_event_for_app(ctrl_d, &app);
    assert_eq!(act, Some(Action::Motion(Motion::HalfPageDown)));
    app.dispatch(act.unwrap());
    assert_eq!(app.selected_paper, 10);

    // Ctrl-u -> half page up (step 10) -> index 0
    let ctrl_u = KeyEvent::new(
        KeyCode::Char('u'),
        KeyModifiers::control(),
    );
    let act = map_key_event_for_app(ctrl_u, &app);
    assert_eq!(act, Some(Action::Motion(Motion::HalfPageUp)));
    app.dispatch(act.unwrap());
    assert_eq!(app.selected_paper, 0);
}

#[test]
fn test_count_prefixes_and_reset() {
    let col = CollectionItem::new(None, "All Papers", 30);
    let papers: Vec<Paper> = (0..30)
        .map(|i| dummy_paper(&format!("Paper {i}"), "Author", 2000 + i))
        .collect();
    let mut map = KeyMap::new();
    map.insert(None, papers);

    let mut app = App::with_data(vec![col], map, KeyMap::new());
    app.active_panel = ActivePanel::Papers;
    assert_eq!(app.selected_paper, 0);

    // '5' then 'j' -> moves down 5
    let key_5 = KeyEvent::new(
        KeyCode::Char('5'),
        KeyModifiers::none(),
    );
    let act = map_key_event_for_app(key_5, &app);
    assert_eq!(act, Some(Action::CountDigit(5)));
    app.dispatch(act.unwrap());
    assert_eq!(app.pending_count, Some(5));

    let key_j = KeyEvent::new(
        KeyCode::Char('j'),
        KeyModifiers::none(),
    );
    let act = map_key_event_for_app(key_j, &app);
    assert_eq!(act, Some(Action::MoveDown));
    app.dispatch(act.unwrap());
    assert_eq!(app.selected_paper, 5);
    assert_eq!(app.pending_count, None);

    // '1', '0', 'k' -> moves up 10 (clamped to 0)
    let key_1 = KeyEvent::new(
        KeyCode::Char('1'),
        KeyModifiers::none(),
    );
    app.dispatch(map_key_event_for_app(key_1, &app).unwrap());
    let key_0 = KeyEvent::new(
        KeyCode::Char('0'),
        KeyModifiers::none(),
    );
    app.dispatch(map_key_event_for_app(key_0, &app).unwrap());
    assert_eq!(app.pending_count, Some(10));

    let key_k = KeyEvent::new(
        KeyCode::Char('k'),
        KeyModifiers::none(),
    );
    app.dispatch(map_key_event_for_app(key_k, &app).unwrap());
    assert_eq!(app.selected_paper, 0);
    assert_eq!(app.pending_count, None);

    // '2', '0', 'G' -> moves to 1-based line 20 (0-based index 19)
    let key_2 = KeyEvent::new(
        KeyCode::Char('2'),
        KeyModifiers::none(),
    );
    app.dispatch(map_key_event_for_app(key_2, &app).unwrap());
    app.dispatch(map_key_event_for_app(key_0, &app).unwrap());
    assert_eq!(app.pending_count, Some(20));

    let key_g_upper = KeyEvent::new(
        KeyCode::Char('G'),
        KeyModifiers::none(),
    );
    let act = map_key_event_for_app(key_g_upper, &app);
    assert_eq!(act, Some(Action::Motion(Motion::Absolute(20))));
    app.dispatch(act.unwrap());
    assert_eq!(app.selected_paper, 19);
    assert_eq!(app.pending_count, None);

    // Count reset upon Esc
    app.dispatch(Action::CountDigit(7));
    assert_eq!(app.pending_count, Some(7));
    let esc = KeyEvent::new(
        KeyCode::Esc,
        KeyModifiers::none(),
    );
    let act = map_key_event_for_app(esc, &app);
    assert_eq!(act, Some(Action::ResetNavigationState));
    app.dispatch(act.unwrap());
    assert_eq!(app.pending_count, None);

    // Chord reset upon Esc
    app.dispatch(Action::PendingChord('g'));
    assert_eq!(app.pending_chord, Some('g'));
    let act = map_key_event_for_app(esc, &app);
    assert_eq!(act, Some(Action::ResetNavigationState));
    app.dispatch(act.unwrap());
    assert_eq!(app.pending_chord, None);
}

#[test]
fn test_layout_mode_toggle_and_esc_return() {
    let mut app = App::new();
    assert_eq!(app.layout_mode, LayoutMode::MultiPanel);

    // Ctrl-w toggles to SinglePanel
    let ctrl_w = KeyEvent::new(
        KeyCode::Char('w'),
        KeyModifiers::control(),
    );
    let act = map_key_event_for_app(ctrl_w, &app);
    assert_eq!(act, Some(Action::ToggleLayoutMode));
    app.dispatch(act.unwrap());
    assert_eq!(app.layout_mode, LayoutMode::SinglePanel);

    // Ctrl-w toggles back to MultiPanel
    app.dispatch(Action::ToggleLayoutMode);
    assert_eq!(app.layout_mode, LayoutMode::MultiPanel);

    // Esc returns from SinglePanel when search query is empty and no modals open
    app.layout_mode = LayoutMode::SinglePanel;
    let esc = KeyEvent::new(
        KeyCode::Esc,
        KeyModifiers::none(),
    );
    let act = map_key_event_for_app(esc, &app);
    assert_eq!(act, Some(Action::ToggleLayoutMode));
    app.dispatch(act.unwrap());
    assert_eq!(app.layout_mode, LayoutMode::MultiPanel);
}

#[test]
fn test_paper_sorting_cycles_and_uuid_selection_preservation() {
    let col = CollectionItem::new(None, "All Papers", 4);
    let mut p1 = dummy_paper("Alpha", "Author C", 2020);
    p1.created_at = "2024-01-01T00:00:00Z".to_string();
    let mut p2 = dummy_paper("Beta", "Author A", 2022);
    p2.created_at = "2024-01-03T00:00:00Z".to_string();
    let mut p3 = dummy_paper("Gamma", "Author D", 2019);
    p3.created_at = "2024-01-02T00:00:00Z".to_string();
    let mut p4 = dummy_paper("Delta", "Author B", 2021);
    p4.created_at = "2024-01-04T00:00:00Z".to_string();

    let p2_id = p2.id;

    let mut map = KeyMap::new();
    map.insert(None, vec![p1, p2, p3, p4]);

    let mut app = App::with_data(vec![col], map, KeyMap::new());
    app.active_panel = ActivePanel::Papers;

    // Set initial sort to Added Desc
    app.sort_field = PaperSortField::Added;
    app.sort_direction = SortDirection::Desc;
    app.sort_current_papers();

    // Select Beta (p2_id)
    let p2_idx = app.papers.iter().position(|p| p.id == p2_id).unwrap();
    app.selected_paper = p2_idx;
    app.update_selection_from_indices();
    assert_eq!(app.selection.paper_id, Some(p2_id));

    // Cycle 1: Added (Desc) -> Year (Desc)
    let s_key = KeyEvent::new(
        KeyCode::Char('S'),
        KeyModifiers::none(),
    );
    let act = map_key_event_for_app(s_key, &app);
    assert_eq!(act, Some(Action::CyclePaperSort));
    app.dispatch(act.unwrap());

    assert_eq!(app.sort_field, PaperSortField::Year);
    assert_eq!(app.sort_direction, SortDirection::Desc);
    assert_eq!(app.sort_field.badge(app.sort_direction), "Year↓");
    // In Year Desc: 2022 (Beta), 2021 (Delta), 2020 (Alpha), 2019 (Gamma)
    assert_eq!(app.papers[0].id, p2_id);
    assert_eq!(app.selected_paper, 0);
    assert_eq!(app.selection.paper_id, Some(p2_id));

    // Cycle 2: Year (Desc) -> Title (Asc)
    app.dispatch(Action::CyclePaperSort);
    assert_eq!(app.sort_field, PaperSortField::Title);
    assert_eq!(app.sort_direction, SortDirection::Asc);
    assert_eq!(app.sort_field.badge(app.sort_direction), "Title↑");
    // In Title Asc: Alpha (0), Beta (1), Delta (2), Gamma (3)
    assert_eq!(app.papers[1].id, p2_id);
    assert_eq!(app.selected_paper, 1);
    assert_eq!(app.selection.paper_id, Some(p2_id));

    // Cycle 3: Title (Asc) -> Author (Asc)
    app.dispatch(Action::CyclePaperSort);
    assert_eq!(app.sort_field, PaperSortField::Author);
    assert_eq!(app.sort_direction, SortDirection::Asc);
    assert_eq!(app.sort_field.badge(app.sort_direction), "Author↑");
    // In Author Asc: Author A (Beta, idx 0), Author B (Delta, idx 1), Author C (Alpha, idx 2), Author D (Gamma, idx 3)
    assert_eq!(app.papers[0].id, p2_id);
    assert_eq!(app.selected_paper, 0);
    assert_eq!(app.selection.paper_id, Some(p2_id));

    // Cycle 4: Author (Asc) -> Added (Desc)
    app.dispatch(Action::CyclePaperSort);
    assert_eq!(app.sort_field, PaperSortField::Added);
    assert_eq!(app.sort_direction, SortDirection::Desc);
    assert_eq!(app.sort_field.badge(app.sort_direction), "Added↓");
    // Selection UUID still preserved
    assert_eq!(app.selection.paper_id, Some(p2_id));
    assert_eq!(app.papers[app.selected_paper].id, p2_id);
}

#[test]
fn test_breadcrumb_generation_and_indicators() {
    let id_root = Uuid::new_v4().as_u128();
    let id_child = Uuid::new_v4().as_u128();
    let id_grandchild = Uuid::new_v4().as_u128();

    let root_item = CollectionItem::with_hierarchy(Some(id_root), "Computer Science", 10, 0, None);
    let child_item =
        CollectionItem::with_hierarchy(Some(id_child), "Machine Learning", 6, 1, Some(id_root));
    let grandchild_item =
        CollectionItem::with_hierarchy(Some(id_grandchild), "Deep Learning", 3, 2, Some(id_child));

    let mut app = App::new();
    app.collections = vec![root_item, child_item, grandchild_item];
    app.update_breadcrumbs();

    assert_eq!(
        app.collection_breadcrumbs
            .get(&CollectionKey::Real(id_grandchild))
            .map(String::as_str),
        Some("Computer Science / Machine Learning / Deep Learning")
    );
    assert_eq!(
        app.collection_breadcrumbs
            .get(&CollectionKey::Real(id_child))
            .map(String::as_str),
        Some("Computer Science / Machine Learning")
    );
    assert_eq!(
        app.collection_breadcrumbs
            .get(&CollectionKey::Real(id_root))
            .map(String::as_str),
        Some("Computer Science")
    );
}

#[test]
fn test_esc_in_single_panel_search_cancels_search_cleanly() {
    let mut app = App::new();
    app.layout_mode = LayoutMode::SinglePanel;
    app.is_searching = true;
    app.search_query.clear();

    // Esc while searching in SinglePanel with empty query
    let esc = KeyEvent::new(
        KeyCode::Esc,
        KeyModifiers::none(),
    );
    let act = map_key_event_for_app(esc, &app);
    assert_eq!(act, Some(Action::SearchCancel));

    app.dispatch(act.unwrap());
    assert!(
        !app.is_searching,
        "is_searching must be false after SearchCancel"
    );
    assert_eq!(
        app.layout_mode,
        LayoutMode::SinglePanel,
        "layout_mode should remain SinglePanel on search cancel"
    );

    // Pressing Esc again while in normal mode SinglePanel toggles layout to MultiPanel
    let act2 = map_key_event_for_app(esc, &app);
    assert_eq!(act2, Some(Action::ToggleLayoutMode));
    app.dispatch(act2.unwrap());
    assert_eq!(app.layout_mode, LayoutMode::MultiPanel);
}

#[test]
fn test_navigating_collections_applies_active_sort() {
    let col1_id = Uuid::new_v4().as_u128();
    let col2_id = Uuid::new_v4().as_u128();
    let col1 = CollectionItem::new(Some(col1_id), "Col 1", 2);
    let col2 = CollectionItem::new(Some(col2_id), "Col 2", 3);

    let p1 = dummy_paper("Col1 Paper 2020", "Author A", 2020);
    let p2 = dummy_paper("Col1 Paper 2022", "Author B", 2022);

    let p3 = dummy_paper("Col2 Paper 2018", "Author C", 2018);
    let p4 = dummy_paper("Col2 Paper 2023", "Author D", 2023);
    let p5 = dummy_paper("Col2 Paper 2021", "Author E", 2021);

    let mut map = KeyMap::new();
    map.insert(Some(col1_id), vec![p1, p2]);
    map.insert(Some(col2_id), vec![p3, p4, p5]);

    let mut app = App::with_data(vec![col1, col2], map, KeyMap::new());
    app.active_panel = ActivePanel::Collections;
    app.sort_field = PaperSortField::Year;
    app.sort_direction = SortDirection::Desc;

    // Initially at collection 0
    assert_eq!(app.selected_collection, 0);

    // Navigate down to collection 1
    app.dispatch(Action::MoveDown);
    assert_eq!(app.selected_collection, 1);

    // Verify papers in collection 2 are sorted according to Year Desc: 2023, 2021, 2018
    assert_eq!(app.papers.len(), 3);
    assert_eq!(app.papers[0].year, Some(2023));
    assert_eq!(app.papers[1].year, Some(2021));
    assert_eq!(app.papers[2].year, Some(2018));
}

#[test]
fn test_cycle_sort_preserves_search_filter() {
    let col = CollectionItem::new(None, "All Papers", 4);
    let p1 = dummy_paper("Alpha ML", "Author C", 2020);
    let p2 = dummy_paper("Beta AI", "Author A", 2022);
    let p3 = dummy_paper("Gamma ML", "Author D", 2019);
    let p4 = dummy_paper("Delta Systems", "Author B", 2021);

    let mut map = KeyMap::new();
    map.insert(None, vec![p1, p2, p3, p4]);

    let mut app = App::with_data(vec![col], map, KeyMap::new());
    app.active_panel = ActivePanel::Papers;

    // Search for "ML"
    app.dispatch(Action::Search);
    for c in "ml".chars() {
        app.dispatch(Action::SearchInput(c));
    }
    app.dispatch(Action::SearchConfirm);

    assert_eq!(app.papers.len(), 2);
    assert_eq!(app.search_query, "ml");

    // Press S to cycle sort (Added Desc -> Year Desc)
    app.dispatch(Action::CyclePaperSort);
    assert_eq!(app.sort_field, PaperSortField::Year);
    assert_eq!(app.sort_direction, SortDirection::Desc);

    // The search filter must NOT be discarded! Still only 2 papers matching "ml"
    assert_eq!(app.papers.len(), 2);
    // Year Desc: Alpha (2020) then Gamma (2019)
    assert_eq!(app.papers[0].title.as_deref(), Some("Alpha ML"));
    assert_eq!(app.papers[1].title.as_deref(), Some("Gamma ML"));
}

#[test]
fn test_count_prefix_with_gg_chord() {
    let col = CollectionItem::new(None, "All Papers", 10);
    let papers: Vec<Paper> = (0..10)
        .map(|i| dummy_paper(&format!("Paper {i}"), "Author", 2000 + i))
        .collect();
    let mut map = KeyMap::new();
    map.insert(None, papers);

    let mut app = App::with_data(vec![col], map, KeyMap::new());
    app.active_panel = ActivePanel::Papers;
    assert_eq!(app.selected_paper, 0);

    // Type '5'
    let key_5 = KeyEvent::new(
        KeyCode::Char('5'),
        KeyModifiers::none(),
    );
    app.dispatch(map_key_event_for_app(key_5, &app).unwrap());
    assert_eq!(app.pending_count, Some(5));

    // Type first 'g'
    let key_g = KeyEvent::new(
        KeyCode::Char('g'),
        KeyModifiers::none(),
    );
    let act1 = map_key_event_for_app(key_g, &app);
    assert_eq!(act1, Some(Action::PendingChord('g')));
    app.dispatch(act1.unwrap());
    assert_eq!(app.pending_chord, Some('g'));
    assert_eq!(app.pending_count, Some(5));

    // Type second 'g' -> 5gg jumps to 5th item (1-based 5 => index 4)
    let act2 = map_key_event_for_app(key_g, &app);
    assert_eq!(act2, Some(Action::Motion(Motion::Absolute(5))));
    app.dispatch(act2.unwrap());
    assert_eq!(app.selected_paper, 4);
    assert_eq!(app.pending_chord, None);
    assert_eq!(app.pending_count, None);
}

#[test]
fn test_visual_mode_toggle_and_range_expansion() {
    let col = CollectionItem::new(None, "All Papers", 5);
    let papers: Vec<Paper> = (0..5)
        .map(|i| dummy_paper(&format!("Paper {i}"), "Author", 2020 + i))
        .collect();
    let mut map = KeyMap::new();
    map.insert(None, papers.clone());

    let mut app = App::with_data(vec![col], map, KeyMap::new());
    app.active_panel = ActivePanel::Papers;
    app.selected_paper = 1;

    // Press 'V' to toggle visual mode
    let key_v = KeyEvent::new(
        KeyCode::Char('V'),
        KeyModifiers::none(),
    );
    let act_v = map_key_event_for_app(key_v, &app);
    assert_eq!(act_v, Some(Action::VisualModeToggle));
    app.dispatch(act_v.unwrap());

    assert!(app.visual_mode);
    assert_eq!(app.visual_anchor, Some(1));
    assert_eq!(app.visual_selected_uuids.len(), 1);
    assert!(app.visual_selected_uuids.contains(&papers[1].id));
    assert_eq!(app.visual_selected_papers(), vec![papers[1].id]);

    // Move down 2 times using 'j'
    let key_j = KeyEvent::new(
        KeyCode::Char('j'),
        KeyModifiers::none(),
    );
    app.dispatch(map_key_event_for_app(key_j, &app).unwrap());
    assert_eq!(app.selected_paper, 2);
    assert_eq!(app.visual_selected_uuids.len(), 2);

    app.dispatch(map_key_event_for_app(key_j, &app).unwrap());
    assert_eq!(app.selected_paper, 3);
    assert_eq!(app.visual_selected_uuids.len(), 3);
    assert_eq!(
        app.visual_selected_papers(),
        vec![papers[1].id, papers[2].id, papers[3].id]
    );

    // Now move up above the anchor to paper 0
    let key_k = KeyEvent::new(
        KeyCode::Char('k'),
        KeyModifiers::none(),
    );
    app.dispatch(map_key_event_for_app(key_k, &app).unwrap()); // to 2
    app.dispatch(map_key_event_for_app(key_k, &app).unwrap()); // to 1
    app.dispatch(map_key_event_for_app(key_k, &app).unwrap()); // to 0
    assert_eq!(app.selected_paper, 0);
    // Range 0..=1 should now be included
    assert!(app.visual_selected_uuids.contains(&papers[0].id));
    assert!(app.visual_selected_uuids.contains(&papers[1].id));
    assert_eq!(
        app.visual_selected_papers(),
        vec![papers[0].id, papers[1].id, papers[2].id, papers[3].id]
            .into_iter()
            .filter(|id| app.visual_selected_uuids.contains(id))
            .collect::<Vec<_>>()
    );

    // Toggle off by pressing 'V' again
    let act_v2 = map_key_event_for_app(key_v, &app);
    assert_eq!(act_v2, Some(Action::VisualModeToggle));
    app.dispatch(act_v2.unwrap());
    assert!(!app.visual_mode);
    assert_eq!(app.visual_anchor, None);
    assert!(app.visual_selected_uuids.is_empty());
}

#[test]
fn test_visual_mode_space_toggle() {
    let col = CollectionItem::new(None, "All Papers", 4);
    let papers: Vec<Paper> = (0..4)
        .map(|i| dummy_paper(&format!("Paper {i}"), "Author", 2020 + i))
        .collect();
    let mut map = KeyMap::new();
    map.insert(None, papers.clone());

    let mut app = App::with_data(vec![col], map, KeyMap::new());
    app.active_panel = ActivePanel::Papers;
    app.selected_paper = 0;

    app.enter_visual_mode();
    assert!(app.visual_mode);

    // Move to paper 1
    app.apply_motion(Motion::Relative(1));
    assert_eq!(app.selected_paper, 1);
    assert_eq!(app.visual_selected_uuids.len(), 2);
    assert!(app.visual_selected_uuids.contains(&papers[1].id));

    // Press Space to toggle selection of paper 1
    let key_space = KeyEvent::new(
        KeyCode::Char(' '),
        KeyModifiers::none(),
    );
    let act_space = map_key_event_for_app(key_space, &app);
    assert_eq!(act_space, Some(Action::VisualModeToggleItem));
    app.dispatch(act_space.unwrap());

    // Paper 1 should now be deselected
    assert!(!app.visual_selected_uuids.contains(&papers[1].id));
    assert!(app.visual_selected_uuids.contains(&papers[0].id));
    assert_eq!(app.visual_selected_papers(), vec![papers[0].id]);

    // Press Space again to reselect paper 1
    app.dispatch(Action::VisualModeToggleItem);
    assert!(app.visual_selected_uuids.contains(&papers[1].id));
    assert_eq!(
        app.visual_selected_papers(),
        vec![papers[0].id, papers[1].id]
    );
}

#[test]
fn test_visual_mode_esc_cancel() {
    let col = CollectionItem::new(None, "All Papers", 3);
    let papers: Vec<Paper> = (0..3)
        .map(|i| dummy_paper(&format!("Paper {i}"), "Author", 2020 + i))
        .collect();
    let mut map = KeyMap::new();
    map.insert(None, papers.clone());

    let mut app = App::with_data(vec![col], map, KeyMap::new());
    app.active_panel = ActivePanel::Papers;
    app.selected_paper = 0;

    app.enter_visual_mode();
    app.apply_motion(Motion::Relative(1));
    assert!(app.visual_mode);
    assert_eq!(app.visual_selected_uuids.len(), 2);

    // Press Esc to cancel visual mode
    let key_esc = KeyEvent::new(
        KeyCode::Esc,
        KeyModifiers::none(),
    );
    let act_esc = map_key_event_for_app(key_esc, &app);
    assert_eq!(act_esc, Some(Action::VisualModeCancel));
    app.dispatch(act_esc.unwrap());

    assert!(!app.visual_mode);
    assert_eq!(app.visual_anchor, None);
    assert!(app.visual_selected_uuids.is_empty());
    // In normal mode, visual_selected_papers returns current paper
    assert_eq!(app.visual_selected_papers(), vec![papers[1].id]);
}

#[test]
fn test_visual_mode_panel_switch_clears() {
    let col = CollectionItem::new(None, "All Papers", 3);
    let papers: Vec<Paper> = (0..3)
        .map(|i| dummy_paper(&format!("Paper {i}"), "Author", 2020 + i))
        .collect();
    let mut map = KeyMap::new();
    map.insert(None, papers.clone());

    let mut app = App::with_data(vec![col], map, KeyMap::new());
    app.active_panel = ActivePanel::Papers;
    app.selected_paper = 0;

    app.enter_visual_mode();
    assert!(app.visual_mode);
    assert!(!app.visual_selected_uuids.is_empty());

    // Switch panel left (to Collections)
    app.dispatch(Action::PanelLeft);
    assert_eq!(app.active_panel, ActivePanel::Collections);
    assert!(!app.visual_mode);
    assert_eq!(app.visual_anchor, None);
    assert!(app.visual_selected_uuids.is_empty());

    // Switch back to Papers and re-enter
    app.dispatch(Action::PanelRight);
    assert_eq!(app.active_panel, ActivePanel::Papers);
    app.enter_visual_mode();
    assert!(app.visual_mode);

    // Switch panel right (to Details)
    app.dispatch(Action::PanelRight);
    assert_eq!(app.active_panel, ActivePanel::Details);
    assert!(!app.visual_mode);
    assert_eq!(app.visual_anchor, None);
    assert!(app.visual_selected_uuids.is_empty());
}

#[test]
fn test_visual_mode_enter_conditions_and_empty() {
    let mut empty_app = App::new();
    assert_eq!(empty_app.active_panel, ActivePanel::Collections);

    // In Collections panel: enter_visual_mode should not activate
    empty_app.enter_visual_mode();
    assert!(!empty_app.visual_mode);

    // Empty papers list in Papers panel: should not activate
    empty_app.active_panel = ActivePanel::Papers;
    empty_app.enter_visual_mode();
    assert!(!empty_app.visual_mode);
    assert!(empty_app.visual_selected_papers().is_empty());
}

#[test]
fn test_quick_open_jump_to_paper() {
    let mut app = App::new();
    let p1 = dummy_paper("Attention Is All You Need", "Vaswani", 2017);
    let p2 = dummy_paper("BERT: Pre-training", "Devlin", 2018);
    let p3 = dummy_paper("Deep Residual Learning", "He", 2015);

    let all_col = CollectionItem::new(None, "All Papers", 3);
    app.add_collection(all_col, vec![p1.clone(), p2.clone(), p3.clone()]);

    assert_eq!(app.selected_paper, 0);

    // Open Quick Open
    app.dispatch(Action::QuickOpenModalOpen);
    assert!(app.active_picker.is_some());
    assert_eq!(app.picker_context, Some(PickerContext::QuickOpen));

    // Type "bert" to filter
    for c in ['b', 'e', 'r', 't'] {
        app.dispatch(Action::PickerInput(c));
    }

    let picker = app.active_picker.as_ref().unwrap();
    assert_eq!(picker.visible_indices.len(), 1);
    assert_eq!(picker.selected_item().unwrap().id, p2.id);

    // Confirm selection
    app.dispatch(Action::PickerConfirm);
    assert!(app.active_picker.is_none());
    assert_eq!(app.picker_context, None);
    assert_eq!(app.active_panel, ActivePanel::Papers);
    assert_eq!(app.current_paper().unwrap().id, p2.id);
    assert_eq!(app.selected_paper, 1);
}

#[test]
fn test_quick_open_jump_to_collection() {
    let mut app = App::new();
    let col1 = CollectionItem::new(None, "All Papers", 2);
    let c2_id = Uuid::now_v7().as_u128();
    let col2 = CollectionItem::new(Some(c2_id), "Machine Learning", 2);

    let p1 = dummy_paper("Paper 1", "Author", 2020);
    let p2 = dummy_paper("Paper 2", "Author", 2021);

    app.add_collection(col1, vec![p1.clone(), p2.clone()]);
    app.add_collection(col2, vec![p1.clone(), p2.clone()]);

    assert_eq!(app.selected_collection, 0);

    // Open Quick Open
    app.open_quick_open();
    assert!(app.active_picker.is_some());

    // Filter "Machine"
    for c in ['m', 'a', 'c', 'h'] {
        app.dispatch(Action::PickerInput(c));
    }

    // Confirm selection
    app.dispatch(Action::PickerConfirm);
    assert!(app.active_picker.is_none());
    assert_eq!(app.active_panel, ActivePanel::Papers);
    assert_eq!(app.selected_collection, 1);
    assert_eq!(app.current_collection().unwrap().name, "Machine Learning");
}

#[test]
fn test_initial_focus_is_papers() {
    let app = App::new();
    assert_eq!(app.active_panel, ActivePanel::Collections);
}

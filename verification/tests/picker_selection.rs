use papyrus_tui::app::App;
use papyrus_tui::collections::{IdSet, KeyMap};
use papyrus_tui::paper::Paper;
use papyrus_tui::picker::{GenericPicker, PickerItem};
use papyrus_tui::selection::{CollectionItem, CollectionKey, SelectionState};
use uuid::Uuid;

fn sample_items() -> Vec<PickerItem> {
    vec![
        PickerItem::new(1, "Machine Learning").with_category("Theory"),
        PickerItem::new(2, "Deep Learning")
            .with_subtitle("Foundations")
            .with_category("Machine Learning"),
        PickerItem::new(3, "Smach"),
        PickerItem::new(4, "Quantum Mechanics"),
    ]
}

fn dummy_paper(title: &str) -> Paper {
    Paper {
        id: Uuid::now_v7().as_u128(),
        file_path: format!("/path/{title}.pdf"),
        content_hash: format!("hash_{title}"),
        title: Some(title.to_string()),
        authors: None,
        year: None,
        journal: None,
        doi: None,
        abstract_text: None,
        text_path: None,
        annotated_pdf_path: None,
        toc_embedded_at: None,
        created_at: "2024-01-01T00:00:00Z".to_string(),
        updated_at: "2024-01-01T00:00:00Z".to_string(),
    }
}


#[test]
fn test_picker_empty_query_returns_all() {
    let items = sample_items();
    let mut picker = GenericPicker::new("Select Topic", items.clone(), false);

    assert_eq!(picker.visible_indices, vec![0, 1, 2, 3]);
    assert_eq!(picker.selected, 0);
    assert_eq!(picker.selected_item(), Some(&items[0]));

    // Whitespace only query should also return all items in original order
    picker.set_query("   ");
    assert_eq!(picker.visible_indices, vec![0, 1, 2, 3]);
    assert_eq!(picker.selected, 0);
}

#[test]
fn test_picker_fuzzy_matching_and_ranking() {
    let items = sample_items();
    let mut picker = GenericPicker::new("Search", items.clone(), false);

    // "mach":
    // Item 0: Title starts with "Mach" (exact prefix match -> highest score)
    // Item 1: Category starts with "Mach" (word boundary match in category)
    // Item 2: Title contains "mach" ("Smach", mid-word exact substring)
    // Item 3: "Quantum Mechanics" ("Mech" has 'e', not 'a', so not a match for "mach")
    picker.set_query("mach");
    assert_eq!(picker.visible_indices, vec![0, 1, 2]);
    assert_eq!(picker.selected_item().unwrap().title, "Machine Learning");

    // Push and pop char verification
    picker.set_query("ma");
    picker.push_query_char('c');
    picker.push_query_char('h');
    assert_eq!(picker.visible_indices, vec![0, 1, 2]);
    picker.pop_query_char(); // back to "mac"
    assert_eq!(picker.query, "mac");
    // All 4 match for "mac": prefix (0) > category prefix (1) > substring (2) > scattered subsequence (3)
    assert_eq!(picker.visible_indices, vec![0, 1, 2, 3]);

    // Acronym / word-initial subsequence match "dl" -> "Deep Learning"
    picker.set_query("dl");
    assert_eq!(picker.visible_indices, vec![1]);
    assert_eq!(picker.selected_item().unwrap().title, "Deep Learning");

    // Match subtitle "found" -> "Foundations"
    picker.set_query("found");
    assert_eq!(picker.visible_indices, vec![1]);

    // Non-matching query
    picker.set_query("nonexistent_term_xyz");
    assert!(picker.visible_indices.is_empty());
    assert_eq!(picker.selected_item(), None);
}

#[test]
fn test_picker_navigation_and_clamping() {
    let items = sample_items();
    let mut picker = GenericPicker::new("Nav", items.clone(), false);

    assert_eq!(picker.selected, 0);

    picker.move_cursor(1);
    assert_eq!(picker.selected, 1);

    picker.move_cursor(2);
    assert_eq!(picker.selected, 3);

    // Clamping at end
    picker.move_cursor(10);
    assert_eq!(picker.selected, 3);

    // Move backwards
    picker.move_cursor(-2);
    assert_eq!(picker.selected, 1);

    // Clamping at beginning
    picker.move_cursor(-10);
    assert_eq!(picker.selected, 0);

    // Move to first and last
    picker.move_to_last();
    assert_eq!(picker.selected, 3);
    picker.move_to_first();
    assert_eq!(picker.selected, 0);

    // While at index 3, filter to fewer items -> should clamp within new visible_indices
    picker.move_to_last();
    assert_eq!(picker.selected, 3);
    picker.set_query("dl"); // only 1 visible item (index 0 in visible_indices)
    assert_eq!(picker.visible_indices.len(), 1);
    assert_eq!(picker.selected, 0);

    // Filter to 0 items -> selected clamped to 0
    picker.set_query("empty_filter_match");
    assert_eq!(picker.selected, 0);
    assert_eq!(picker.selected_item(), None);
}

#[test]
fn test_picker_multi_select_toggle() {
    let items = sample_items();

    // Single-select mode: toggle_selected does nothing
    let mut single_picker = GenericPicker::new("Single", items.clone(), false);
    single_picker.toggle_selected();
    assert!(single_picker.checked_items().is_empty());

    // Multi-select mode: toggling adds and removes
    let mut multi_picker = GenericPicker::new("Multi", items.clone(), true);
    assert!(multi_picker.checked_items().is_empty());

    multi_picker.toggle_selected();
    assert_eq!(multi_picker.checked_items().len(), 1);
    assert!(multi_picker.checked_items().contains(&items[0].id));

    // Toggle again removes it
    multi_picker.toggle_selected();
    assert!(multi_picker.checked_items().is_empty());

    // Test with_checked builder
    let mut prechecked = IdSet::new();
    prechecked.insert(items[2].id);
    let mut multi_picker2 =
        GenericPicker::new("Multi2", items.clone(), true).with_checked(prechecked);
    assert_eq!(multi_picker2.checked_items().len(), 1);
    assert!(multi_picker2.checked_items().contains(&items[2].id));

    // Move to item 1 and toggle it
    multi_picker2.move_cursor(1);
    multi_picker2.toggle_selected();
    assert_eq!(multi_picker2.checked_items().len(), 2);
    assert!(multi_picker2.checked_items().contains(&items[1].id));
    assert!(multi_picker2.checked_items().contains(&items[2].id));
}

#[test]
fn test_collection_key_as_uuid() {
    assert_eq!(CollectionKey::All.as_uuid(), None);
    assert_eq!(CollectionKey::RecentlyAdded.as_uuid(), None);
    assert_eq!(CollectionKey::Unfiled.as_uuid(), None);
    assert_eq!(CollectionKey::Untagged.as_uuid(), None);

    let id = Uuid::new_v4().as_u128();
    assert_eq!(CollectionKey::Real(id).as_uuid(), Some(id));
}

#[test]
fn test_selection_state_default() {
    let state = SelectionState::default();
    assert_eq!(state.collection, CollectionKey::All);
    assert_eq!(state.paper_id, None);
    assert_eq!(state.toc_id, None);
}

#[test]
fn test_collection_item_keys() {

    let all_item = CollectionItem::new(None, "All Papers", 10);
    assert_eq!(all_item.key, CollectionKey::All);
    assert_eq!(all_item.id, None);

    let uid = Uuid::new_v4().as_u128();
    let real_item = CollectionItem::new(Some(uid), "Real Col", 5);
    assert_eq!(real_item.key, CollectionKey::Real(uid));
    assert_eq!(real_item.id, Some(uid));

    let unfiled_item = CollectionItem::from_key(CollectionKey::Unfiled, "Unfiled", 2);
    assert_eq!(unfiled_item.key, CollectionKey::Unfiled);
    assert_eq!(unfiled_item.id, None);
}

#[test]
fn test_selection_update_and_restore_reorder() {

    let col_id = Uuid::new_v4().as_u128();
    let p1 = dummy_paper("Paper 1");
    let p2 = dummy_paper("Paper 2");
    let p3 = dummy_paper("Paper 3");

    let p2_id = p2.id;

    let col_item = CollectionItem::new(Some(col_id), "Col 1", 3);
    let mut papers_by_col = KeyMap::new();
    papers_by_col.insert(Some(col_id), vec![p1.clone(), p2.clone(), p3.clone()]);

    let mut app = App::with_data(vec![col_item], papers_by_col, KeyMap::new());
    assert_eq!(app.papers.len(), 3);

    // Select paper 2 (index 1)
    app.selected_paper = 1;
    app.update_selection_from_indices();
    assert_eq!(app.selection.paper_id, Some(p2_id));

    // Now simulate reordering: [p2, p3, p1] in papers_by_collection
    app.papers_by_collection
        .insert(Some(col_id), vec![p2, p3, p1]);

    // Call restore_selection_by_uuid
    app.restore_selection_by_uuid();

    // Selected paper should now be index 0, still matching p2_id!
    assert_eq!(app.selected_paper, 0);
    assert_eq!(app.selection.paper_id, Some(p2_id));
}

use papyrus_tui::action::Action;
use papyrus_tui::app::{App, PickerContext};
use papyrus_tui::collections::KeyMap;
use papyrus_tui::keymap::map_key_event_for_app;
use papyrus_tui::keys::{KeyCode, KeyEvent, KeyModifiers};
use papyrus_tui::navigation::Motion;
use papyrus_tui::paper::Paper;
use papyrus_tui::panel::ActivePanel;
use papyrus_tui::selection::CollectionItem;
use uuid::Uuid;

fn dummy_paper(title: &str, authors: &str, year: i64) -> Paper {
    Paper {
        id: Uuid::now_v7().as_u128(),
        file_path: format!("/path/{title}.pdf"),
        content_hash: format!("hash_{title}"),
        title: Some(title.to_string()),
        authors: Some(authors.to_string()),
        year: Some(year),
        journal: None,
        doi: None,
        abstract_text: Some(format!("Abstract of {title}")),
        text_path: None,
        annotated_pdf_path: None,
        toc_embedded_at: None,
        created_at: "2024-01-01T00:00:00Z".to_string(),
        updated_at: "2024-01-01T00:00:00Z".to_string(),
    }
}

/// A library held in memory: "All Papers" lists every paper, and each named
/// collection lists the papers given for it.
fn library(papers: &[Paper], collections: &[(u128, &str, Vec<Paper>)]) -> App {
    let mut cols = vec![CollectionItem::new(None, "All Papers", papers.len())];
    let mut lists = KeyMap::new();
    lists.insert(None, papers.to_vec());
    for (id, name, members) in collections {
        cols.push(CollectionItem::new(Some(*id), name, members.len()));
        lists.insert(Some(*id), members.clone());
    }
    App::with_data(cols, lists, KeyMap::new())
}

fn member_ids(app: &App, collection: u128) -> Vec<u128> {
    app.papers_by_collection
        .get(&Some(collection))
        .map(|v| v.iter().map(|p| p.id).collect())
        .unwrap_or_default()
}

fn picker_position(app: &App, id: u128) -> usize {
    let picker = app.active_picker.as_ref().unwrap();
    picker
        .visible_indices
        .iter()
        .position(|&idx| picker.items[idx].id == id)
        .unwrap()
}

#[test]
fn test_collection_membership_picker_single_paper() {
    let c1 = Uuid::now_v7().as_u128();
    let c2 = Uuid::now_v7().as_u128();
    let p1 = dummy_paper("Paper One", "Author", 2022);
    let mut app = library(
        &[p1.clone()],
        &[(c1, "Collection 1", vec![p1.clone()]), (c2, "Collection 2", vec![])],
    );
    app.active_panel = ActivePanel::Papers;
    app.selected_paper = 0;

    app.dispatch(Action::CollectionMembershipModalOpen);
    assert!(app.active_picker.is_some());
    assert_eq!(
        app.picker_context,
        Some(PickerContext::CollectionMembership { target_papers: vec![p1.id] })
    );
    let picker = app.active_picker.as_ref().unwrap();
    assert!(picker.checked.contains(&c1));
    assert!(!picker.checked.contains(&c2));

    let c1_pos = picker_position(&app, c1);
    let c2_pos = picker_position(&app, c2);
    app.active_picker.as_mut().unwrap().selected = c1_pos;
    app.dispatch(Action::PickerToggleItem);
    app.active_picker.as_mut().unwrap().selected = c2_pos;
    app.dispatch(Action::PickerToggleItem);

    app.dispatch(Action::PickerConfirm);
    assert!(app.active_picker.is_none());

    assert!(!member_ids(&app, c1).contains(&p1.id));
    assert!(member_ids(&app, c2).contains(&p1.id));
}

#[test]
fn test_collection_membership_picker_batch_papers() {
    let c1 = Uuid::now_v7().as_u128();
    let c2 = Uuid::now_v7().as_u128();
    let p1 = dummy_paper("Paper A", "Author", 2022);
    let p2 = dummy_paper("Paper B", "Author", 2023);
    let mut app = library(
        &[p1.clone(), p2.clone()],
        &[(c1, "Col A", vec![p1.clone(), p2.clone()]), (c2, "Col B", vec![])],
    );
    app.active_panel = ActivePanel::Papers;
    app.selected_paper = 0;

    app.enter_visual_mode();
    app.apply_motion(Motion::Relative(1));
    assert_eq!(app.visual_selected_papers().len(), 2);

    app.dispatch(Action::CollectionMembershipModalOpen);
    let picker = app.active_picker.as_ref().unwrap();
    assert!(picker.checked.contains(&c1));
    assert!(!picker.checked.contains(&c2));

    let c2_pos = picker_position(&app, c2);
    app.active_picker.as_mut().unwrap().selected = c2_pos;
    app.dispatch(Action::PickerToggleItem);

    app.dispatch(Action::PickerConfirm);
    assert!(app.active_picker.is_none());
    assert!(!app.visual_mode);

    for pid in [p1.id, p2.id] {
        assert!(member_ids(&app, c1).contains(&pid));
        assert!(member_ids(&app, c2).contains(&pid));
    }
}

#[test]
fn test_tag_picker_single_and_batch() {
    let p1 = dummy_paper("Paper T1", "Author", 2022);
    let p2 = dummy_paper("Paper T2", "Author", 2023);
    let mut app = library(&[p1.clone(), p2.clone()], &[]);
    app.tags_by_paper.insert(p1.id, vec!["initial".to_string()]);
    app.active_panel = ActivePanel::Papers;
    app.selected_paper = 0;

    app.dispatch(Action::TagModalOpen);
    assert!(app.active_picker.is_some());
    assert_eq!(
        app.picker_context,
        Some(PickerContext::TagManagement { target_papers: vec![p1.id] })
    );

    for c in ['n', 'e', 'w', 't', 'a', 'g'] {
        app.dispatch(Action::PickerInput(c));
    }
    app.dispatch(Action::PickerConfirm);
    assert!(app.active_picker.is_none());

    let p1_tags = app.tags_by_paper.get(&p1.id).unwrap();
    assert!(p1_tags.contains(&"initial".to_string()));
    assert!(p1_tags.contains(&"newtag".to_string()));

    app.enter_visual_mode();
    app.apply_motion(Motion::Relative(1));
    assert_eq!(app.visual_selected_papers().len(), 2);

    app.dispatch(Action::TagModalOpen);
    for c in ['c', 'o', 'm', 'm', 'o', 'n'] {
        app.dispatch(Action::PickerInput(c));
    }
    app.dispatch(Action::PickerConfirm);

    for pid in [p1.id, p2.id] {
        let tags = app.tags_by_paper.get(&pid).unwrap();
        assert!(tags.contains(&"common".to_string()));
    }
}

#[test]
fn test_batch_delete_in_visual_mode() {
    let p1 = dummy_paper("Paper D1", "Author", 2022);
    let p2 = dummy_paper("Paper D2", "Author", 2023);
    let p3 = dummy_paper("Paper D3", "Author", 2024);
    let mut app = library(&[p1.clone(), p2.clone(), p3.clone()], &[]);
    app.active_panel = ActivePanel::Papers;
    app.selected_paper = 0;

    app.enter_visual_mode();
    app.apply_motion(Motion::Relative(1));
    assert_eq!(app.visual_selected_papers(), vec![p1.id, p2.id]);

    app.dispatch(Action::BatchDeleteConfirm);
    assert!(!app.visual_mode);

    let all: Vec<u128> = app
        .papers_by_collection
        .get(&None)
        .unwrap()
        .iter()
        .map(|p| p.id)
        .collect();
    assert_eq!(all, vec![p3.id]);
    assert_eq!(app.papers.len(), 1);
    assert_eq!(app.papers[0].id, p3.id);
}

#[test]
fn test_remove_paper_from_collection_preserves_db_record() {
    let col = Uuid::now_v7().as_u128();
    let p1 = dummy_paper("Attention Is All You Need", "Vaswani et al.", 2017);
    let p2 = dummy_paper("BERT", "Devlin et al.", 2018);
    let mut app = library(
        &[p1.clone(), p2.clone()],
        &[(col, "Machine Learning", vec![p1.clone(), p2.clone()])],
    );
    let ml_idx = app.collections.iter().position(|c| c.id == Some(col)).unwrap();

    app.selected_collection = ml_idx;
    app.sync_current_selection();
    assert_eq!(app.papers.len(), 2);

    app.active_panel = ActivePanel::Papers;
    let p1_pos = app.papers.iter().position(|p| p.id == p1.id).unwrap();
    app.selected_paper = p1_pos;
    app.update_selection_from_indices();

    app.dispatch(Action::RemoveFromCollection);

    assert_eq!(app.papers.len(), 1);
    assert_eq!(app.papers[0].id, p2.id);

    // The paper itself is kept: "All Papers" still lists both.
    app.selected_collection = 0;
    app.sync_current_selection();
    assert_eq!(app.papers.len(), 2);
}

#[test]
fn test_remove_paper_from_all_papers_shows_hint() {
    let p1 = dummy_paper("Attention Is All You Need", "Vaswani et al.", 2017);
    let mut app = library(&[p1.clone()], &[]);
    app.selected_collection = 0;
    app.sync_current_selection();
    app.active_panel = ActivePanel::Papers;
    app.selected_paper = 0;

    app.dispatch(Action::RemoveFromCollection);

    assert_eq!(app.papers.len(), 1);
    assert_eq!(
        app.status_message.as_deref(),
        Some("Cannot remove from 'All Papers'; press 'D' to delete from database")
    );
}

#[test]
fn test_batch_remove_papers_from_collection() {
    let col = Uuid::now_v7().as_u128();
    let p1 = dummy_paper("Paper 1", "Author 1", 2021);
    let p2 = dummy_paper("Paper 2", "Author 2", 2022);
    let p3 = dummy_paper("Paper 3", "Author 3", 2023);
    let all = vec![p1.clone(), p2.clone(), p3.clone()];
    let mut app = library(&all, &[(col, "Deep Learning", all.clone())]);
    let dl_idx = app.collections.iter().position(|c| c.id == Some(col)).unwrap();

    app.selected_collection = dl_idx;
    app.sync_current_selection();
    assert_eq!(app.papers.len(), 3);

    app.active_panel = ActivePanel::Papers;
    app.selected_paper = 0;

    app.enter_visual_mode();
    app.apply_motion(Motion::Relative(1));
    assert_eq!(app.visual_selected_papers().len(), 2);

    app.dispatch(Action::BatchRemoveFromCollection);
    assert!(!app.visual_mode);

    assert_eq!(app.papers.len(), 1);
    assert_eq!(app.papers[0].id, p3.id);

    app.selected_collection = 0;
    app.sync_current_selection();
    assert_eq!(app.papers.len(), 3);
}

#[test]
fn test_permanent_delete_paper_with_capital_d() {
    let col = Uuid::now_v7().as_u128();
    let p1 = dummy_paper("Paper To Erase", "Author", 2020);
    let mut app = library(&[p1.clone()], &[(col, "Test Col", vec![p1.clone()])]);
    let col_idx = app.collections.iter().position(|c| c.id == Some(col)).unwrap();

    app.selected_collection = col_idx;
    app.sync_current_selection();
    app.active_panel = ActivePanel::Papers;
    app.selected_paper = 0;

    let key_event = KeyEvent::new(KeyCode::Char('D'), KeyModifiers::none());
    let action = map_key_event_for_app(key_event, &app);
    assert_eq!(action, Some(Action::DeleteConfirmOpen));

    app.dispatch(Action::DeleteConfirmOpen);
    assert!(app.is_confirming_delete);

    app.dispatch(Action::DeleteConfirmExecute);
    assert!(!app.is_confirming_delete);

    assert_eq!(app.papers.len(), 0);

    app.selected_collection = 0;
    app.sync_current_selection();
    assert_eq!(app.papers.len(), 0);
}

#[test]
fn test_app_create_collection_with_db() {
    let mut app = library(&[], &[]);

    let initial_count = app.collections.len();

    app.dispatch(Action::CreateCollectionModalOpen);
    for c in "Deep Learning".chars() {
        app.dispatch(Action::CreateCollectionModalInput(c));
    }
    app.dispatch(Action::CreateCollectionModalConfirm);

    assert!(!app.is_creating_collection);
    assert_eq!(app.collections.len(), initial_count + 1);
    assert!(app.collections.iter().any(|c| c.name == "Deep Learning"));
    assert_eq!(app.collections[app.selected_collection].name, "Deep Learning");
    assert_eq!(
        app.status_message.as_deref(),
        Some("Created collection 'Deep Learning'")
    );
    assert!(app.needs_clear);
}

#[test]
fn test_paper_tags_lifecycle_and_db() {
    let p = dummy_paper("Deep Learning Book", "Goodfellow", 2016);
    let mut app = library(&[p.clone()], &[]);
    assert_eq!(app.papers.len(), 1);

    app.dispatch(Action::EditTagsModalOpen);
    assert!(app.is_editing_tags);

    for c in "ai, math, deep-learning".chars() {
        app.dispatch(Action::EditTagsModalInput(c));
    }
    assert_eq!(app.tags_input_buffer, "ai, math, deep-learning");

    app.dispatch(Action::EditTagsModalConfirm);
    assert!(!app.is_editing_tags);

    let tags = app.tags_by_paper.get(&p.id).unwrap();
    assert_eq!(
        tags,
        &vec!["ai".to_string(), "math".to_string(), "deep-learning".to_string()]
    );
}

#[test]
fn test_deletion_of_collection_and_paper() {
    let temporary = Uuid::now_v7().as_u128();
    let p = dummy_paper("Paper To Delete", "Author", 2020);
    let mut app = library(&[p.clone()], &[(temporary, "Temporary", vec![])]);

    app.selected_collection = 1;
    app.active_panel = ActivePanel::Collections;

    app.dispatch(Action::DeleteConfirmOpen);
    assert!(app.is_confirming_delete);
    assert!(app.delete_target_description.contains("Temporary"));

    app.dispatch(Action::DeleteConfirmExecute);
    assert!(!app.is_confirming_delete);

    assert!(app.collections.iter().all(|c| c.name != "Temporary"));

    app.selected_collection = 0;
    app.sync_current_selection();
    assert_eq!(app.papers.len(), 1);

    app.active_panel = ActivePanel::Papers;
    app.selected_paper = 0;

    app.dispatch(Action::DeleteConfirmOpen);
    assert!(app.is_confirming_delete);
    assert!(app.delete_target_description.contains("Paper To Delete"));

    app.dispatch(Action::DeleteConfirmExecute);
    assert!(!app.is_confirming_delete);
    assert_eq!(app.papers.len(), 0);
}

#[test]
fn test_subcollection_creation_and_tree_hierarchy() {
    let mut app = library(&[], &[]);

    app.dispatch(Action::CreateCollectionModalOpen);
    for c in "Computer Science".chars() {
        app.dispatch(Action::CreateCollectionModalInput(c));
    }
    app.dispatch(Action::CreateCollectionModalConfirm);

    let cs_idx = app.collections.iter().position(|c| c.name == "Computer Science").unwrap();
    assert_eq!(app.collections[cs_idx].depth, 0);
    let cs_id = app.collections[cs_idx].id.unwrap();

    app.selected_collection = cs_idx;
    app.dispatch(Action::CreateSubcollectionModalOpen);
    assert_eq!(app.create_collection_parent_id, Some(cs_id));
    assert!(app.is_creating_collection);

    for c in "Artificial Intelligence".chars() {
        app.dispatch(Action::CreateCollectionModalInput(c));
    }
    app.dispatch(Action::CreateCollectionModalConfirm);

    let ai_idx = app
        .collections
        .iter()
        .position(|c| c.name == "Artificial Intelligence")
        .unwrap();
    assert_eq!(app.collections[ai_idx].depth, 1);
    assert_eq!(app.collections[ai_idx].parent_id, Some(cs_id));

    assert_eq!(ai_idx, cs_idx + 1);
}

#[test]
fn test_collection_rename_lifecycle_and_persistence() {
    let mut app = library(&[], &[]);

    app.selected_collection = 0;
    app.dispatch(Action::RenameCollectionModalOpen);
    assert!(!app.is_renaming_collection);
    assert_eq!(
        app.status_message.as_deref(),
        Some("Cannot rename 'All Papers' virtual collection")
    );

    app.dispatch(Action::CreateCollectionModalOpen);
    for c in "Drafts".chars() {
        app.dispatch(Action::CreateCollectionModalInput(c));
    }
    app.dispatch(Action::CreateCollectionModalConfirm);

    let drafts_idx = app.collections.iter().position(|c| c.name == "Drafts").unwrap();
    app.selected_collection = drafts_idx;

    app.dispatch(Action::RenameCollectionModalOpen);
    assert!(app.is_renaming_collection);
    assert_eq!(app.rename_collection_buffer, "Drafts");

    app.rename_collection_buffer.clear();
    for c in "Archived Papers".chars() {
        app.dispatch(Action::RenameCollectionModalInput(c));
    }
    app.dispatch(Action::RenameCollectionModalConfirm);

    assert!(!app.is_renaming_collection);
    assert!(app.collections.iter().any(|c| c.name == "Archived Papers"));
    assert!(!app.collections.iter().any(|c| c.name == "Drafts"));
}

use papyrus_tui::app::App;
use papyrus_tui::display::{
    Overlay, centered_start, collections_title, papers_title, collection_line, details_scroll, details_toc_line, fullscreen_toc_line,
    fullscreen_toc_scroll, paper_details, paper_row, toc_levels, toc_position,
};
use papyrus_tui::paper::{Paper, TocEntry, TocSource};
use papyrus_tui::panel::ActivePanel;
use papyrus_tui::selection::CollectionItem;

fn entry(id: u128, parent_id: Option<u128>, title: &str, page_number: u32, source: TocSource) -> TocEntry {
    TocEntry {
        id,
        paper_id: 1,
        parent_id,
        title: title.to_string(),
        page_number,
        order_index: 0,
        source,
        created_at: "2024-01-01T00:00:00Z".to_string(),
        updated_at: "2024-01-01T00:00:00Z".to_string(),
    }
}

fn bare_paper() -> Paper {
    Paper {
        id: 7,
        file_path: "/library/a.pdf".to_string(),
        content_hash: "abc123".to_string(),
        title: None,
        authors: None,
        year: None,
        journal: Some("Nature".to_string()),
        doi: None,
        abstract_text: None,
        text_path: None,
        annotated_pdf_path: None,
        toc_embedded_at: None,
        created_at: "2024-01-01T00:00:00Z".to_string(),
        updated_at: "2024-01-01T00:00:00Z".to_string(),
    }
}

#[test]
fn collection_rows_show_tree_branches_and_counts() {
    let mut sub = CollectionItem::new(Some(5), "Sub", 3);
    sub.depth = 2;
    assert_eq!(collection_line(&sub, true), ">   └─ Sub (3)");
    let root = CollectionItem::new(None, "All Papers", 12);
    assert_eq!(collection_line(&root, false), "  All Papers (12)");
    let mut child = CollectionItem::new(Some(6), "Child", 0);
    child.depth = 1;
    assert_eq!(collection_line(&child, false), "  └─ Child (0)");
}

#[test]
fn paper_rows_fill_in_missing_fields_and_badge_tags() {
    let mut p = bare_paper();
    let tags = vec!["a".to_string(), "b".to_string()];
    let (title, authors, year) = paper_row(&p, Some(&tags), false, None);
    assert_eq!(title, "  [Untitled] [a, b]");
    assert_eq!(authors, "-");
    assert_eq!(year, "-");
    p.title = Some("Attention".to_string());
    p.authors = Some("Vaswani".to_string());
    p.year = Some(-12);
    let empty: Vec<String> = Vec::new();
    let (title, authors, year) = paper_row(&p, Some(&empty), true, None);
    assert_eq!(title, "> Attention");
    assert_eq!(authors, "Vaswani");
    assert_eq!(year, "-12");
    let (title, _, _) = paper_row(&p, None, false, None);
    assert_eq!(title, "  Attention");
}

#[test]
fn details_list_every_field_in_order() {
    let mut p = bare_paper();
    p.year = Some(2017);
    let values = paper_details(&p, &vec!["ml".to_string(), "nlp".to_string()]);
    assert_eq!(
        values,
        vec!["[Untitled]", "-", "2017", "Nature", "-", "abc123", "/library/a.pdf", "-", "ml, nlp"]
    );
    let values = paper_details(&p, &Vec::new());
    assert_eq!(values[8], "-");
}

#[test]
fn toc_levels_follow_parents() {
    let entries = vec![
        entry(1, None, "Intro", 1, TocSource::Manual),
        entry(2, Some(1), "Background", 2, TocSource::Manual),
        entry(3, Some(2), "Detail", 3, TocSource::Manual),
        entry(4, Some(99), "Orphan", 4, TocSource::Manual),
        entry(5, None, "End", 5, TocSource::Manual),
    ];
    assert_eq!(toc_levels(&entries), vec![0, 1, 2, 1, 0]);
    assert_eq!(toc_levels(&Vec::new()), Vec::<usize>::new());
}

#[test]
fn toc_lines_carry_indent_page_and_source() {
    let e = entry(1, None, "Intro", 3, TocSource::Manual);
    assert_eq!(details_toc_line(&e, 1, true), ">   - Intro (p. 3) [manual]");
    assert_eq!(details_toc_line(&e, 0, false), "  - Intro (p. 3) [manual]");
    let f = entry(2, None, "Methods", 12, TocSource::PdfOutline);
    assert_eq!(fullscreen_toc_line(&f, 1, true), "▶     Methods  (p. 12) [pdf]");
    assert_eq!(fullscreen_toc_line(&f, 0, false), "  Methods  (p. 12) [pdf]");
}

#[test]
fn details_scroll_keeps_the_selected_entry_in_view() {
    // 8 visible lines; the selected entry is line 14.
    assert_eq!(details_scroll(15, 4, 3, 10, true), 8);
    assert_eq!(details_scroll(15, 4, 3, 10, false), 0);
    assert_eq!(details_scroll(15, 0, 0, 10, true), 0);
    assert_eq!(details_scroll(12, 4, 0, 30, true), 0);
    assert_eq!(details_scroll(5, 4, 3, 1, true), 6);
}

#[test]
fn fullscreen_scroll_follows_the_selection() {
    assert_eq!(fullscreen_toc_scroll(10, 0, 5), 6);
    assert_eq!(fullscreen_toc_scroll(2, 5, 5), 2);
    assert_eq!(fullscreen_toc_scroll(6, 5, 5), 5);
    assert_eq!(fullscreen_toc_scroll(3, 0, 0), 4);
    assert_eq!(toc_position(0, 0), 0);
    assert_eq!(toc_position(2, 5), 3);
}

#[test]
fn modals_are_centred() {
    assert_eq!(centered_start(100, 40), 30);
    assert_eq!(centered_start(101, 40), 30);
    assert_eq!(centered_start(10, 40), 0);
}

#[test]
fn status_bar_puts_messages_before_modes_and_modes_before_panels() {
    let mut app = App::new();
    app.active_panel = ActivePanel::Papers;
    assert!(app.status_line().starts_with(" [Papers] j/k: Nav"));
    app.search_query = "attn".to_string();
    app.papers = vec![bare_paper(), bare_paper()];
    assert_eq!(
        app.status_line(),
        " Filtered: 'attn' (2 papers) | Esc: Clear filter | /: Edit search | Tab: Switch panel | ?: Help | q: Quit"
    );
    app.is_editing_tags = true;
    app.is_showing_help = true;
    assert_eq!(app.status_line(), " Help Mode | Esc / q / ?: Close Help");
    app.status_message = Some("Saved".to_string());
    assert_eq!(app.status_line(), " Saved | Tab: Switch panel | ?: Help | q: Quit");
}

#[test]
fn search_bar_names_the_scoped_collection() {
    let mut app = App::new();
    app.collections = Vec::new();
    assert_eq!(app.search_scope_name(), "All Papers");
    app.collections = vec![
        CollectionItem::new(None, "All Papers", 0),
        CollectionItem::new(Some(3), "Reading", 0),
    ];
    app.search_collection_index = 1;
    assert_eq!(app.search_scope_name(), "Reading");
    app.search_collection_index = 9;
    assert_eq!(app.search_scope_name(), "Reading");
}

#[test]
fn one_overlay_hides_the_next() {
    let mut app = App::new();
    assert_eq!(app.overlay(), Overlay::Nothing);
    app.is_showing_help = true;
    assert_eq!(app.overlay(), Overlay::Help);
    app.is_editing_tags = true;
    assert_eq!(app.overlay(), Overlay::EditTags);
    app.is_creating_collection = true;
    assert_eq!(app.overlay(), Overlay::CreateCollection);
}

#[test]
fn visual_mode_marks_rows_and_titles() {
    let mut p = bare_paper();
    p.title = Some("Attention Is All You Need".to_string());
    let (title, _, _) = paper_row(&p, None, true, Some(true));
    assert_eq!(title, "> [x] Attention Is All You Need");
    let (title, _, _) = paper_row(&p, None, false, Some(false));
    assert_eq!(title, "  [ ] Attention Is All You Need");
    assert_eq!(papers_title(true, 1), "Papers -- VISUAL (1 selected) --");
    assert_eq!(papers_title(false, 3), "Papers");
}

#[test]
fn collections_title_counts_from_one() {
    assert_eq!(collections_title(0, 3), "Collections · 1/3");
    assert_eq!(collections_title(2, 3), "Collections · 3/3");
    assert_eq!(collections_title(0, 0), "Collections · 0/0");
}

#[test]
fn annotated_copy_is_only_outdated_when_it_exists() {
    let mut app = App::new();
    assert!(!app.is_current_paper_annotated_outdated(true));
    let mut p = bare_paper();
    app.papers = vec![p.clone()];
    app.selected_paper = 0;
    assert!(!app.is_current_paper_annotated_outdated(true));
    p.annotated_pdf_path = Some("/library/a.annotated.pdf".to_string());
    app.papers = vec![p.clone()];
    assert!(!app.is_current_paper_annotated_outdated(true));
    p.toc_embedded_at = Some("2024-02-01T00:00:00Z".to_string());
    app.papers = vec![p];
    assert!(app.is_current_paper_annotated_outdated(true));
    assert!(!app.is_current_paper_annotated_outdated(false));
}

use papyrus_tui::paper::Paper;
use papyrus_tui::sorting::{sort_papers, PaperSortField, SortDirection};

fn paper(id: u128, title: Option<&str>, year: Option<i64>, path: &str) -> Paper {
    Paper {
        id,
        file_path: path.to_string(),
        content_hash: format!("h{id}"),
        title: title.map(|t| t.to_string()),
        authors: None,
        year,
        journal: None,
        doi: None,
        abstract_text: None,
        text_path: None,
        annotated_pdf_path: None,
        toc_embedded_at: None,
        created_at: "2024-01-01T00:00:00Z".to_string(),
        updated_at: "2024-01-01T00:00:00Z".to_string(),
    }
}

fn paths(v: &[Paper]) -> Vec<&str> {
    v.iter().map(|p| p.file_path.as_str()).collect()
}

#[test]
fn titles_sort_case_insensitively_with_ids_breaking_ties() {
    let mut v = vec![
        paper(3, Some("beta"), None, "b3"),
        paper(1, Some("Alpha"), None, "a1"),
        paper(2, Some("BETA"), None, "b2"),
        paper(4, None, None, "none"),
    ];
    sort_papers(&mut v, PaperSortField::Title, SortDirection::Asc);
    assert_eq!(paths(&v), vec!["none", "a1", "b2", "b3"]);
    sort_papers(&mut v, PaperSortField::Title, SortDirection::Desc);
    assert_eq!(paths(&v), vec!["b2", "b3", "a1", "none"]);
}

#[test]
fn years_put_unknown_last_either_way() {
    let mut v = vec![
        paper(1, None, None, "n"),
        paper(2, None, Some(2020), "y2020"),
        paper(3, None, Some(1999), "y1999"),
    ];
    sort_papers(&mut v, PaperSortField::Year, SortDirection::Asc);
    assert_eq!(paths(&v), vec!["y1999", "y2020", "n"]);
    sort_papers(&mut v, PaperSortField::Year, SortDirection::Desc);
    assert_eq!(paths(&v), vec!["y2020", "y1999", "n"]);
}

#[test]
fn papers_that_compare_equal_keep_their_order() {
    let mut v = vec![
        paper(7, Some("Same"), None, "first"),
        paper(5, Some("Other"), None, "other"),
        paper(7, Some("same"), None, "second"),
        paper(7, Some("SAME"), None, "third"),
    ];
    sort_papers(&mut v, PaperSortField::Title, SortDirection::Asc);
    assert_eq!(paths(&v), vec!["other", "first", "second", "third"]);
}

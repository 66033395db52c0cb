use papyrus_tui::autocomplete::{build_path, complete_from_listing};

fn listing(entries: &[(&str, bool)]) -> Option<Vec<(String, bool)>> {
    Some(entries.iter().map(|(n, d)| (n.to_string(), *d)).collect())
}

#[test]
fn build_path_replaces_or_appends_the_partial_name() {
    assert_eq!(build_path("dir/", "", "a.pdf", false), "dir/a.pdf");
    assert_eq!(build_path("/r/my_d", "my_d", "my_documents", true), "/r/my_documents/");
    assert_eq!(build_path("/r/sub/", "", "inner", true), "/r/sub/inner/");
    assert_eq!(build_path("/r/x", "zz", "y", false), "/r/xy");
}

#[test]
fn single_matches_complete_files_and_directories() {
    let entries = listing(&[("my_documents", true), ("my_paper.pdf", false)]);
    assert_eq!(
        complete_from_listing("/root/my_d", false, "my_d", entries.clone()),
        Some("/root/my_documents/".to_string())
    );
    assert_eq!(
        complete_from_listing("/root/my_p", false, "my_p", entries),
        Some("/root/my_paper.pdf".to_string())
    );
}

#[test]
fn several_matches_complete_to_their_common_prefix() {
    let entries = listing(&[
        ("paper_ai_1.pdf", false),
        ("paper_ai_2.pdf", false),
        ("paper_math.pdf", false),
    ]);
    assert_eq!(
        complete_from_listing("/root/paper_a", false, "paper_a", entries.clone()),
        Some("/root/paper_ai_".to_string())
    );
    assert_eq!(complete_from_listing("/root/paper_", false, "paper_", entries), None);
}

#[test]
fn a_directory_gets_its_trailing_slash_first() {
    assert_eq!(
        complete_from_listing("/root/subfolder", true, "subfolder", None),
        Some("/root/subfolder/".to_string())
    );
}

#[test]
fn inside_a_directory_the_only_entry_is_appended() {
    let entries = listing(&[("only.pdf", false), (".hidden", false)]);
    assert_eq!(
        complete_from_listing("/root/sub/", true, "", entries),
        Some("/root/sub/only.pdf".to_string())
    );
}

#[test]
fn hidden_entries_need_a_dot_and_nothing_matches_gives_none() {
    let entries = listing(&[(".config", true), ("Notes.txt", false)]);
    assert_eq!(
        complete_from_listing("/h/.c", false, ".c", entries.clone()),
        Some("/h/.config/".to_string())
    );
    assert_eq!(
        complete_from_listing("/h/no", false, "no", entries.clone()),
        Some("/h/Notes.txt".to_string())
    );
    assert_eq!(complete_from_listing("/h/x", false, "x", entries), None);
    assert_eq!(complete_from_listing("/h/x", false, "x", None), None);
    assert_eq!(complete_from_listing("", false, "", None), None);
}

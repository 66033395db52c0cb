use papyrus_tui::app_pick::quick_collection_id_exec;
use papyrus_tui::fuzzy::{char_eq_ci_exec, is_word_boundary_exec, score_subsequence};
use papyrus_tui::selection::CollectionItem;
use papyrus_tui::sorting::lower_key_exec;
use uuid::Uuid;

fn chars(s: &str) -> Vec<char> {
    s.chars().collect()
}

#[test]
fn case_folding_reaches_beyond_ascii() {
    assert!(char_eq_ci_exec('É', 'é'));
    assert!(char_eq_ci_exec('a', 'A'));
    assert!(!char_eq_ci_exec('a', 'b'));
    assert!(score_subsequence(&chars("Élan vital"), &chars("élan")).is_some());
    assert_eq!(lower_key_exec("ÄBC Straße"), chars("äbc straße"));
}

#[test]
fn word_boundaries_follow_white_space_punctuation_and_case() {
    assert!(is_word_boundary_exec(None, 'x'));
    assert!(is_word_boundary_exec(Some(' '), 'b'));
    assert!(is_word_boundary_exec(Some('\u{3000}'), 'b'));
    assert!(is_word_boundary_exec(Some('-'), 'b'));
    assert!(is_word_boundary_exec(Some('o'), 'B'));
    assert!(!is_word_boundary_exec(Some('o'), 'b'));
    assert!(!is_word_boundary_exec(Some('O'), 'B'));
}

#[test]
fn real_collections_get_ids_from_their_debug_text() {
    let id = Uuid::now_v7();
    let mut item = CollectionItem::new(Some(id.as_u128()), "Reading", 0);
    assert_eq!(quick_collection_id_exec(&item), id.as_u128());
    item.id = None;
    let expected = Uuid::new_v5(&Uuid::NAMESPACE_OID, format!("col:Real({id})").as_bytes()).as_u128();
    assert_eq!(quick_collection_id_exec(&item), expected);
}

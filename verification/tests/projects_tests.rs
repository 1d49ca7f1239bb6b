use travis_sudo::projects::{add_labels_and_sort, label_for, lex_le_str};

#[test]
fn labels_are_relative_to_the_scan_root() {
    assert_eq!(label_for("/scan/a/b", "/scan"), "a/b");
    assert_eq!(label_for("/scan/repo", "/scan"), "repo");
}

#[test]
fn the_root_itself_gets_the_empty_label() {
    assert_eq!(label_for("/scan", "/scan"), "");
    assert_eq!(label_for("", ""), "");
}

#[test]
fn a_root_ending_in_the_separator_supplies_it_itself() {
    assert_eq!(label_for("/r/a", "/"), "r/a");
    assert_eq!(label_for("/scan/repo", "/scan/"), "repo");
}

#[test]
fn paths_outside_the_root_keep_their_full_path_as_label() {
    assert_eq!(label_for("/scanner/a", "/scan"), "/scanner/a");
    assert_eq!(label_for("/other/a", "/scan"), "/other/a");
    assert_eq!(label_for("/sc", "/scan"), "/sc");
}

#[test]
fn list_is_sorted_by_label() {
    let paths = vec![
        "/scan/bb".to_string(),
        "/scan/aa".to_string(),
        "/scan/ab".to_string(),
    ];
    let list = add_labels_and_sort(&paths, "/scan");
    let labels: Vec<&str> = list.iter().map(|p| p.label.as_str()).collect();
    assert_eq!(labels, vec!["aa", "ab", "bb"]);
    let sorted_paths: Vec<&str> = list.iter().map(|p| p.path.as_str()).collect();
    assert_eq!(sorted_paths, vec!["/scan/aa", "/scan/ab", "/scan/bb"]);
}

#[test]
fn duplicate_paths_are_kept() {
    let paths = vec!["/scan/a".to_string(), "/scan/a".to_string()];
    let list = add_labels_and_sort(&paths, "/scan");
    assert_eq!(list.len(), 2);
    assert_eq!(list[0].label, "a");
    assert_eq!(list[1].label, "a");
}

#[test]
fn empty_input_yields_empty_list() {
    let list = add_labels_and_sort(&Vec::new(), "/scan");
    assert!(list.is_empty());
}

#[test]
fn label_order_is_lexicographic() {
    assert!(lex_le_str("a", "b"));
    assert!(!lex_le_str("b", "a"));
    assert!(lex_le_str("a", "a"));
    assert!(lex_le_str("a", "ab"));
    assert!(!lex_le_str("ab", "a"));
    assert!(lex_le_str("", "x"));
    assert!(lex_le_str("a/b", "ab"));
}

use shell::parent;
use shell::path::{resolve_dir, resolve_file};

#[test]
fn parent_of_root_is_root() {
    assert_eq!(parent(""), "");
}

#[test]
fn parent_of_bare_separator_is_itself() {
    assert_eq!(parent("/"), "/");
}

#[test]
fn parent_of_top_level_directory_is_root() {
    assert_eq!(parent("a/"), "");
    assert_eq!(parent("a"), "");
}

#[test]
fn parent_of_nested_directory_keeps_the_separator() {
    assert_eq!(parent("a/b/"), "a/");
    assert_eq!(parent("a/b"), "a/");
    assert_eq!(parent("a/b/c/"), "a/b/");
}

#[test]
fn parent_twice_of_two_levels_is_root() {
    assert_eq!(parent(parent("a/b/")), "");
}

#[test]
fn parent_strips_one_trailing_separator_only() {
    assert_eq!(parent("a//"), "a/");
}

#[test]
fn parent_cuts_behind_a_leading_separator() {
    assert_eq!(parent("/a/"), "/");
}

#[test]
fn parent_counts_characters_not_bytes() {
    assert_eq!(parent("é/ü/"), "é/");
    assert_eq!(parent("日本/語"), "日本/");
}

#[test]
fn resolve_dir_closes_the_path_with_a_separator() {
    assert_eq!(resolve_dir("", "dir1"), "dir1/");
    assert_eq!(resolve_dir("", "dir1/"), "dir1/");
    assert_eq!(resolve_dir("dir1/", "inner"), "dir1/inner/");
    assert_eq!(resolve_dir("dir1/", ""), "dir1/");
    assert_eq!(resolve_dir("", ""), "/");
}

#[test]
fn resolve_file_adds_nothing() {
    assert_eq!(resolve_file("", "file1.txt"), "file1.txt");
    assert_eq!(resolve_file("dir1/", "file2.txt"), "dir1/file2.txt");
    assert_eq!(resolve_file("dir1/", "inner/"), "dir1/inner/");
    assert_eq!(resolve_file("", ""), "");
}

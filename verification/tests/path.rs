use file_compressor::path::{ends_in_file_name, is_same_path, normalize};

fn text(path: &str) -> String {
    normalize(path).into_iter().collect()
}

#[test]
fn normal_form_of_relative_paths() {
    assert_eq!(text("a"), "./a");
    assert_eq!(text("a/b"), "./a/b");
    assert_eq!(text("a//b"), "./a/b");
    assert_eq!(text("a/b/"), "./a/b");
    assert_eq!(text("./a/./b/."), "./a/b");
    assert_eq!(text("notes.txt.gz"), "./notes.txt.gz");
}

#[test]
fn normal_form_of_absolute_paths() {
    assert_eq!(text("/a"), "/a");
    assert_eq!(text("//a///b//"), "/a/b");
    assert_eq!(text("/./a"), "/a");
    assert_eq!(text("/"), "/");
    assert_eq!(text("///"), "/");
}

#[test]
fn normal_form_of_paths_without_components() {
    assert_eq!(text(""), ".");
    assert_eq!(text("."), ".");
    assert_eq!(text("./"), ".");
    assert_eq!(text("././."), ".");
}

#[test]
fn normal_form_keeps_what_only_the_file_system_could_resolve() {
    assert_eq!(text("a/../b"), "./a/../b");
    assert_eq!(text(".."), "./..");
    assert_eq!(text("..."), "./...");
    assert_eq!(text(".a"), "./.a");
    assert_eq!(text("a."), "./a.");
    assert_eq!(text("a\\b"), "./a\\b");
}

#[test]
fn normal_form_counts_characters_not_bytes() {
    assert_eq!(text("r\u{e9}sum\u{e9}//\u{65e5}\u{672c}/"), "./r\u{e9}sum\u{e9}/\u{65e5}\u{672c}");
}

#[test]
fn normal_form_is_its_own_normal_form() {
    for path in ["a//b/", "/x/./y", "", "/", "./a", "a/../b", "//"] {
        let once = text(path);
        assert_eq!(text(&once), once);
    }
}

#[test]
fn same_path_compares_normal_forms() {
    assert!(is_same_path("a/b", "a//b"));
    assert!(is_same_path("a/b/", "./a/b"));
    assert!(is_same_path("/a", "//a/"));
    assert!(is_same_path("x", "x"));
    assert!(!is_same_path("/a", "a"));
    assert!(!is_same_path("a", "b"));
    assert!(!is_same_path("a/b", "a/c"));
    assert!(!is_same_path("a/b", "a/b/c"));
    assert!(!is_same_path("a", "A"));
    assert!(!is_same_path("a/../b", "b"));
}

#[test]
fn a_file_name_ends_the_path() {
    assert!(ends_in_file_name("notes.txt"));
    assert!(ends_in_file_name("dir/notes"));
    assert!(ends_in_file_name("."));
    assert!(!ends_in_file_name(""));
    assert!(!ends_in_file_name("dir/"));
    assert!(!ends_in_file_name("/"));
}

use pls::paths::{
    get_dir_from_path, join_path, remove_backslash, remove_backslash_start, remove_slash,
    remove_slash_start, remove_tilde, Platform,
};

#[test]
fn remove_slash_trims_all_trailing() {
    assert_eq!(remove_slash("a/b//"), "a/b");
    assert_eq!(remove_slash("abc"), "abc");
    assert_eq!(remove_slash("///"), "");
    assert_eq!(remove_slash(""), "");
}

#[test]
fn remove_slash_round_trip() {
    let p = "some/dir";
    assert_eq!(remove_slash(&format!("{}/", p)), p);
}

#[test]
fn remove_backslash_round_trip() {
    let p = "some\\dir";
    assert_eq!(remove_backslash(&format!("{}\\", p)), p);
}

#[test]
fn remove_tilde_round_trip() {
    let p = "/home/user";
    assert_eq!(remove_tilde(&format!("~{}", p)), p);
}

#[test]
fn remove_start_variants() {
    assert_eq!(remove_slash_start("//a/b"), "a/b");
    assert_eq!(remove_backslash_start("\\\\a"), "a");
    assert_eq!(remove_tilde("~~x"), "x");
    assert_eq!(remove_slash_start("a/"), "a/");
}

#[test]
fn parent_of_nested_path() {
    assert_eq!(get_dir_from_path("a/b/c", Platform::Posix), "a/b");
    assert_eq!(get_dir_from_path("/tmp/x", Platform::Posix), "/tmp");
}

#[test]
fn parent_of_bare_name_is_dot() {
    assert_eq!(get_dir_from_path("somefile.zip", Platform::Posix), ".");
    assert_eq!(get_dir_from_path("", Platform::Posix), ".");
}

#[test]
fn parent_of_root_child_keeps_root() {
    assert_eq!(get_dir_from_path("/x", Platform::Posix), "/");
}

#[test]
fn parent_respects_platform_separators() {
    assert_eq!(get_dir_from_path("a\\b", Platform::Windows), "a");
    assert_eq!(get_dir_from_path("a\\b", Platform::Posix), ".");
    assert_eq!(get_dir_from_path("a\\b/c", Platform::Windows), "a\\b");
}

#[test]
fn join_adds_separator_when_needed() {
    assert_eq!(join_path("a", "b", Platform::Posix), "a/b");
    assert_eq!(join_path("a/", "b", Platform::Posix), "a/b");
    assert_eq!(join_path("a", "b", Platform::Windows), "a\\b");
    assert_eq!(join_path("a\\", "b", Platform::Windows), "a\\b");
    assert_eq!(join_path("", "b", Platform::Posix), "/b");
}

use asset_sync::paths::{safe_components, split_segments};

fn names(list: &[&str]) -> Vec<String> {
    list.iter().map(|s| s.to_string()).collect()
}

#[test]
fn split_keeps_empty_pieces() {
    assert_eq!(split_segments("a/b.bin"), names(&["a", "b.bin"]));
    assert_eq!(split_segments(""), names(&[""]));
    assert_eq!(split_segments("/"), names(&["", ""]));
    assert_eq!(split_segments("a//b/"), names(&["a", "", "b", ""]));
    assert_eq!(split_segments("plain"), names(&["plain"]));
}

#[test]
fn split_counts_characters_not_bytes() {
    assert_eq!(split_segments("données/é.bin"), names(&["données", "é.bin"]));
}

#[test]
fn plain_destination_resolves_to_its_pieces() {
    assert_eq!(safe_components("a/b.bin"), Some(names(&["a", "b.bin"])));
    assert_eq!(safe_components("file"), Some(names(&["file"])));
}

#[test]
fn blank_pieces_are_skipped() {
    assert_eq!(safe_components("./a//b/./c"), Some(names(&["a", "b", "c"])));
    assert_eq!(safe_components("a/b/"), Some(names(&["a", "b"])));
}

#[test]
fn parent_pieces_leave_the_innermost_directory() {
    assert_eq!(safe_components("a/../b"), Some(names(&["b"])));
    assert_eq!(safe_components("a/b/../../c/d"), Some(names(&["c", "d"])));
}

#[test]
fn climbing_above_the_root_is_refused() {
    assert_eq!(safe_components("../../escape.bin"), None);
    assert_eq!(safe_components("../../etc/passwd"), None);
    assert_eq!(safe_components("a/../../b"), None);
    assert_eq!(safe_components(".."), None);
}

#[test]
fn climbing_back_in_does_not_help() {
    assert_eq!(safe_components("../root/a"), None);
}

#[test]
fn absolute_destination_is_refused() {
    assert_eq!(safe_components("/etc/passwd"), None);
    assert_eq!(safe_components("/"), None);
}

#[test]
fn destination_that_names_the_root_is_refused() {
    assert_eq!(safe_components(""), None);
    assert_eq!(safe_components("."), None);
    assert_eq!(safe_components("a/.."), None);
}

#[test]
fn dots_inside_names_are_plain() {
    assert_eq!(safe_components("..a/b..") , Some(names(&["..a", "b.."])));
    assert_eq!(safe_components("..."), Some(names(&["..."])));
}

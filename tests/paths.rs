use recursive_copy::paths::{file_name, is_within, join, parent, resolve_link};

fn b(s: &str) -> Vec<u8> {
    s.as_bytes().to_vec()
}

#[test]
fn join_puts_one_separator_between() {
    assert_eq!(join(&b("a"), &b("b")), b("a/b"));
    assert_eq!(join(&b("a/"), &b("b")), b("a/b"));
    assert_eq!(join(&b("/t/dst"), &b("src")), b("/t/dst/src"));
}

#[test]
fn join_with_absolute_or_empty() {
    assert_eq!(join(&b("a"), &b("/b")), b("/b"));
    assert_eq!(join(&b(""), &b("b")), b("b"));
    assert_eq!(join(&b("a"), &b("")), b("a/"));
}

#[test]
fn file_name_takes_last_component() {
    assert_eq!(file_name(&b("/x/y")), b("y"));
    assert_eq!(file_name(&b("/x/y//")), b("y"));
    assert_eq!(file_name(&b("f.txt")), b("f.txt"));
    assert_eq!(file_name(&b("/")), b(""));
}

#[test]
fn file_name_of_dot_names_is_empty() {
    assert_eq!(file_name(&b("/x/..")), b(""));
    assert_eq!(file_name(&b(".")), b(""));
    assert_eq!(file_name(&b("/x/.y")), b(".y"));
}

#[test]
fn parent_drops_last_component() {
    assert_eq!(parent(&b("/a")), b("/"));
    assert_eq!(parent(&b("a/b//c")), b("a/b"));
    assert_eq!(parent(&b("a")), b(""));
    assert_eq!(parent(&b("/t/src/link/")), b("/t/src"));
}

#[test]
fn resolve_link_relative_and_absolute() {
    assert_eq!(resolve_link(&b("/t/src/link_to_root"), &b("root.txt")), b("/t/src/root.txt"));
    assert_eq!(resolve_link(&b("/t/src/l"), &b("subdir/nested")), b("/t/src/subdir/nested"));
    assert_eq!(resolve_link(&b("/t/src/l"), &b("/etc/passwd")), b("/etc/passwd"));
    assert_eq!(resolve_link(&b("l"), &b("x")), b("x"));
}

#[test]
fn within_respects_component_boundaries() {
    assert!(is_within(&b("/t/src"), &b("/t/src")));
    assert!(is_within(&b("/t/src"), &b("/t/src/a/b")));
    assert!(!is_within(&b("/t/src"), &b("/t/srcx/a")));
    assert!(!is_within(&b("/t/src"), &b("/t")));
    assert!(!is_within(&b("/t/src"), &b("/etc/passwd")));
    assert!(is_within(&b("/"), &b("/etc")));
}

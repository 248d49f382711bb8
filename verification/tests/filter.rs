use dispatch_core::Entry;
use dispatch_core::filter_result;
use dispatch_core::strip_dot_slash;

fn file_entry(path: &str) -> Entry {
    Entry::Found { path: String::from(path), is_file: Some(true) }
}

#[test]
fn strip_removes_leading_dot_slash() {
    assert_eq!(strip_dot_slash(String::from("./a.rs")), "a.rs");
}

#[test]
fn strip_keeps_plain_path() {
    assert_eq!(strip_dot_slash(String::from("src/a.rs")), "src/a.rs");
}

#[test]
fn strip_removes_the_prefix_only_once() {
    assert_eq!(strip_dot_slash(String::from("././a")), "./a");
}

#[test]
fn strip_keeps_bare_dot() {
    assert_eq!(strip_dot_slash(String::from(".")), ".");
}

#[test]
fn strip_of_bare_prefix_leaves_nothing() {
    assert_eq!(strip_dot_slash(String::from("./")), "");
}

#[test]
fn filter_discards_discovery_error() {
    let e = Entry::Error(String::from("permission denied"));
    assert_eq!(filter_result(e), None);
}

#[test]
fn filter_discards_non_regular_file() {
    let dir = Entry::Found { path: String::from("./src"), is_file: Some(false) };
    assert_eq!(filter_result(dir), None);
}

#[test]
fn filter_discards_entry_without_file_type() {
    let odd = Entry::Found { path: String::from("<stdin>"), is_file: None };
    assert_eq!(filter_result(odd), None);
}

#[test]
fn filter_normalizes_surviving_path() {
    let r = filter_result(file_entry("./src/lib.rs"));
    assert_eq!(r, Some(String::from("src/lib.rs")));
}

#[test]
fn filter_keeps_unprefixed_path_unchanged() {
    let r = filter_result(file_entry("src/lib.rs"));
    assert_eq!(r, Some(String::from("src/lib.rs")));
}

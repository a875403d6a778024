use bindeps_simple::path::{join, parent};

#[test]
fn join_puts_one_separator_between() {
    assert_eq!(join("/tmp/out", "demo"), "/tmp/out/demo");
    assert_eq!(join("/tmp/out/", "demo"), "/tmp/out/demo");
    assert_eq!(join("out", "bin"), "out/bin");
    assert_eq!(join("/", "bin"), "/bin");
}

#[test]
fn join_with_an_empty_side() {
    assert_eq!(join("", "demo"), "demo");
    assert_eq!(join("/tmp/out", ""), "/tmp/out/");
    assert_eq!(join("", ""), "");
}

#[test]
fn join_lets_an_absolute_part_stand_alone() {
    assert_eq!(join("/tmp/out", "/opt/demo"), "/opt/demo");
}

#[test]
fn parent_is_what_stands_before_the_last_separator() {
    assert_eq!(parent("/a/b/Cargo.toml"), Some("/a/b".to_string()));
    assert_eq!(parent("a/Cargo.toml"), Some("a".to_string()));
    assert_eq!(parent("/Cargo.toml"), Some("/".to_string()));
    assert_eq!(parent("Cargo.toml"), Some(String::new()));
    assert_eq!(parent("/a/é/Cargo.toml"), Some("/a/é".to_string()));
}

#[test]
fn parent_of_no_file_is_none() {
    assert_eq!(parent(""), None);
    assert_eq!(parent("/"), None);
    assert_eq!(parent("/a/b/"), None);
}

use folder_agent::path::FsPath;

#[test]
fn leading_current_directory_counts_as_a_component() {
    assert!(!FsPath::parse("./a").same_as(&FsPath::parse("a")));
    assert_eq!(FsPath::parse("./a").display(), "./a");
    assert_eq!(FsPath::parse(".").display(), ".");
    assert_eq!(FsPath::parse("./a").component_count(), 2);
    assert!(FsPath::parse("./a").starts_with(&FsPath::parse(".")));
    assert!(!FsPath::parse("a").starts_with(&FsPath::parse(".")));
}

#[test]
fn inner_current_directory_and_doubled_separators_are_dropped() {
    assert!(FsPath::parse("a/./b").same_as(&FsPath::parse("a/b")));
    assert!(FsPath::parse("/tmp//x").same_as(&FsPath::parse("/tmp/x")));
    assert!(FsPath::parse("/./x").same_as(&FsPath::parse("/x")));
    assert!(FsPath::parse("././a").same_as(&FsPath::parse("./a")));
}

#[test]
fn joining_onto_the_current_directory() {
    assert_eq!(FsPath::parse(".").join_str("Documents").display(), "./Documents");
    assert_eq!(FsPath::parse("x").join_str("./a").display(), "x/a");
    assert_eq!(FsPath::empty().join_str("./a").display(), "./a");
    assert_eq!(FsPath::parse("./a").parent().unwrap().display(), ".");
    assert_eq!(FsPath::parse(".").file_name(), None);
    assert_eq!(FsPath::parse("./a.txt").file_name(), Some("a.txt".to_string()));
}

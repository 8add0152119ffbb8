use photosort::paths::{file_name_of, parent_of};

#[test]
fn test_file_name_of_plain_paths() {
    assert_eq!(file_name_of("my/current/path.jpg"), Some("path.jpg".to_string()));
    assert_eq!(file_name_of("name.jpg"), Some("name.jpg".to_string()));
    assert_eq!(file_name_of("a/b/"), Some("b".to_string()));
    assert_eq!(file_name_of("/root.png"), Some("root.png".to_string()));
}

#[test]
fn test_file_name_of_degenerate_paths() {
    assert_eq!(file_name_of(""), None);
    assert_eq!(file_name_of("/"), None);
    assert_eq!(file_name_of("///"), None);
    assert_eq!(file_name_of(".."), None);
    assert_eq!(file_name_of("a/.."), None);
    assert_eq!(file_name_of("."), None);
}

#[test]
fn test_parent_of_plain_paths() {
    assert_eq!(
        parent_of("DEST/2008/05/30/x.jpg"),
        Some("DEST/2008/05/30".to_string())
    );
    assert_eq!(parent_of("x.jpg"), Some("".to_string()));
    assert_eq!(parent_of("/x"), Some("/".to_string()));
    assert_eq!(parent_of("a//b"), Some("a".to_string()));
    assert_eq!(parent_of("a/b/"), Some("a".to_string()));
}

#[test]
fn test_parent_of_degenerate_paths() {
    assert_eq!(parent_of(""), None);
    assert_eq!(parent_of("/"), None);
    assert_eq!(parent_of("//"), None);
}

use dtriage::security::{
    destination_outside, validate_destination_path, validate_path_within_base, PathError,
};

#[test]
fn test_path_validation_within_base() {
    let base = "/downloads";
    let test_path = "/downloads/test/file.pdf";

    let result = validate_path_within_base(test_path, base);
    assert!(result.is_ok());
}

#[test]
fn test_path_validation_outside_base() {
    let base = "/downloads";
    let test_path = "/etc/passwd";

    let result = validate_path_within_base(test_path, base);
    assert!(result.is_err());
}

#[test]
fn test_path_validation_with_traversal() {
    let base = "/downloads";
    let test_path = "/downloads/../etc/passwd";

    let result = validate_path_within_base(test_path, base);
    assert!(result.is_err());
}

#[test]
fn accepted_path_is_returned_unchanged() {
    let result = validate_path_within_base("/downloads/a/b.txt", "/downloads");
    assert_eq!(result.unwrap(), "/downloads/a/b.txt");
}

#[test]
fn outside_base_error_names_path_and_base() {
    match validate_path_within_base("/etc/passwd", "/downloads") {
        Err(e @ PathError::OutsideBase { .. }) => {
            assert_eq!(
                e.message(),
                "Path '/etc/passwd' is outside the allowed base directory '/downloads'"
            );
        }
        other => panic!("unexpected {:?}", other),
    }
}

#[test]
fn traversal_error_names_path() {
    match validate_path_within_base("/downloads/../etc/passwd", "/downloads") {
        Err(e @ PathError::Traversal { .. }) => {
            assert_eq!(
                e.message(),
                "Path '/downloads/../etc/passwd' contains path traversal which is not allowed"
            );
        }
        other => panic!("unexpected {:?}", other),
    }
}

#[test]
fn dots_before_the_base_end_do_not_count() {
    // The base itself may hold "..": only the part after it is checked.
    assert!(validate_path_within_base("/a/../b/file", "/a/../b").is_ok());
    // A single dot after the base is fine, two in a row are not.
    assert!(validate_path_within_base("/downloads/x.y.z", "/downloads").is_ok());
    assert!(validate_path_within_base("/downloads/x..z", "/downloads").is_err());
}

#[test]
fn dot_free_suffixes_are_accepted() {
    for suffix in ["/a", "/a/b/c", "//", "/zzz/y"] {
        let path = format!("/downloads{}", suffix);
        assert!(validate_path_within_base(&path, "/downloads").is_ok());
    }
}

#[test]
fn destination_check_looks_at_the_source_only() {
    assert!(validate_destination_path("/downloads/f.pdf", "/elsewhere/f.pdf", "/downloads").is_ok());
    assert!(validate_destination_path("/tmp/f.pdf", "/downloads/f.pdf", "/downloads").is_err());
    assert!(matches!(
        validate_destination_path("/downloads/../f.pdf", "/downloads/f.pdf", "/downloads"),
        Err(PathError::Traversal { .. })
    ));
}

#[test]
fn base_must_match_whole_components() {
    assert!(matches!(
        validate_path_within_base("/downloads2/f.pdf", "/downloads"),
        Err(PathError::OutsideBase { .. })
    ));
    assert!(matches!(
        validate_path_within_base("/downloadsfile.pdf", "/downloads"),
        Err(PathError::OutsideBase { .. })
    ));
    assert!(validate_path_within_base("/downloads", "/downloads").is_ok());
    assert!(validate_path_within_base("/downloads/f.pdf", "/downloads/").is_ok());
    assert!(validate_path_within_base("relative/f.pdf", "").is_ok());
    assert!(validate_destination_path("/downloads2/f.pdf", "/downloads/f.pdf", "/downloads").is_err());
}

#[test]
fn destination_outside_downloads_is_flagged() {
    assert!(!destination_outside("/downloads/Documents/f.pdf", "/downloads"));
    assert!(!destination_outside("/downloads", "/downloads"));
    assert!(destination_outside("/archive/f.pdf", "/downloads"));
    assert!(destination_outside("/downloads2/f.pdf", "/downloads"));
    assert!(!destination_outside("/downloads/f.pdf", "/downloads/"));
}

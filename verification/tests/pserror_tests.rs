use photosort::pserror::{PsError, PsErrorKind};

#[test]
fn test_create_error() {
    let error = PsError::new(
        PsErrorKind::FileNotSupported,
        "File not supported".to_string(),
    );
    let expected = PsError {
        kind: PsErrorKind::FileNotSupported,
        msg: "File not supported".to_string(),
    };
    assert_eq!(error, expected);
}

#[test]
fn test_error_kinds_are_distinct() {
    assert_ne!(PsErrorKind::IoError, PsErrorKind::FormatError);
    assert_ne!(PsErrorKind::NoExif, PsErrorKind::NoDateField);
    assert_ne!(PsErrorKind::Unknown, PsErrorKind::FileNotSupported);
}

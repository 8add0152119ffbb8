use photosort::discovery::{
    discover_file, extract_picture_exif, filter_supported_files, get_ffmpeg_date,
    is_supported_file, is_zip_file, process_raw_files, stream_creation_time, ContainerMeta,
    MediaFile,
};
use photosort::pserror::PsErrorKind;
use photosort::relocate::update_photo_new_path;
use photosort::timestamp::Timestamp;

/// A minimal little-endian TIFF whose Exif block holds one DateTimeOriginal
/// tag with the given 19-character value.
fn tiff_with_datetime(s: &str) -> Vec<u8> {
    assert_eq!(s.len(), 19);
    let mut v: Vec<u8> = Vec::new();
    v.extend_from_slice(b"II\x2A\x00");
    v.extend_from_slice(&8u32.to_le_bytes());
    // IFD0: one entry, the Exif IFD pointer.
    v.extend_from_slice(&1u16.to_le_bytes());
    v.extend_from_slice(&0x8769u16.to_le_bytes());
    v.extend_from_slice(&4u16.to_le_bytes());
    v.extend_from_slice(&1u32.to_le_bytes());
    v.extend_from_slice(&26u32.to_le_bytes());
    v.extend_from_slice(&0u32.to_le_bytes());
    // Exif IFD: one entry, DateTimeOriginal as a 20-byte ASCII value.
    v.extend_from_slice(&1u16.to_le_bytes());
    v.extend_from_slice(&0x9003u16.to_le_bytes());
    v.extend_from_slice(&2u16.to_le_bytes());
    v.extend_from_slice(&20u32.to_le_bytes());
    v.extend_from_slice(&44u32.to_le_bytes());
    v.extend_from_slice(&0u32.to_le_bytes());
    v.extend_from_slice(s.as_bytes());
    v.push(0);
    v
}

/// A minimal TIFF that parses but carries no date tag at all.
fn tiff_without_datetime() -> Vec<u8> {
    let mut v: Vec<u8> = Vec::new();
    v.extend_from_slice(b"II\x2A\x00");
    v.extend_from_slice(&8u32.to_le_bytes());
    // IFD0: one entry, ImageWidth = 1.
    v.extend_from_slice(&1u16.to_le_bytes());
    v.extend_from_slice(&0x0100u16.to_le_bytes());
    v.extend_from_slice(&3u16.to_le_bytes());
    v.extend_from_slice(&1u32.to_le_bytes());
    v.extend_from_slice(&1u32.to_le_bytes());
    v.extend_from_slice(&0u32.to_le_bytes());
    v
}

fn empty_meta() -> ContainerMeta {
    ContainerMeta {
        creation_time: None,
        stream_creation_times: Vec::new(),
    }
}

#[test]
fn test_is_supported_file_allow_list() {
    assert!(is_supported_file("filename.jpg"));
    assert!(is_supported_file("filename.jpeg"));
    assert!(is_supported_file("filename.png"));
    assert!(is_supported_file("filename.gif"));
    assert!(is_supported_file("filename.mp4"));
    assert!(is_supported_file("filename.mov"));
    assert!(is_supported_file("filename.mp"));
    assert!(!is_supported_file("filename.doc"));
    assert!(!is_supported_file("filename.txt"));
    assert!(!is_supported_file(""));
}

#[test]
fn test_is_supported_file_is_case_insensitive() {
    assert_eq!(is_supported_file("A.JPG"), is_supported_file("a.jpg"));
    assert!(is_supported_file("A.JPG"));
    assert!(is_supported_file("HOLIDAY.Mov"));
    assert!(is_supported_file("clip.MP4"));
}

#[test]
fn test_is_zip_file_cases() {
    assert!(is_zip_file("archive.zip"));
    assert!(is_zip_file("ARCHIVE.ZIP"));
    assert!(!is_zip_file("archive.tar"));
    assert!(!is_zip_file("zip"));
}

#[test]
fn test_filter_supported_files_keeps_media_and_archives() {
    let files = vec![
        "a.jpg".to_string(),
        "notes.txt".to_string(),
        "b.ZIP".to_string(),
        "c.mov".to_string(),
        "README".to_string(),
    ];
    let kept = filter_supported_files(&files);
    assert_eq!(
        kept,
        vec!["a.jpg".to_string(), "b.ZIP".to_string(), "c.mov".to_string()]
    );
}

#[test]
fn test_tag_metadata_wins_over_container_metadata() {
    // A parseable tag date and a different, valid container date: the tag
    // date must win.
    let data = tiff_with_datetime("2021:01:02 03:04:05");
    let meta = ContainerMeta {
        creation_time: Some("1999-12-31T23:59:59Z".to_string()),
        stream_creation_times: Vec::new(),
    };
    let photo = discover_file("some/dir/pic.jpg", &data, &meta).unwrap();
    assert_eq!(photo.date().unwrap(), Timestamp::new(2021, 1, 2, 3, 4, 5));
}

#[test]
fn test_malformed_tag_fails_fast_despite_valid_container_date() {
    let data = tiff_with_datetime("not a real datetime");
    let meta = ContainerMeta {
        creation_time: Some("1999-12-31T23:59:59Z".to_string()),
        stream_creation_times: Vec::new(),
    };
    let err = discover_file("some/dir/pic.jpg", &data, &meta).unwrap_err();
    assert_eq!(err.kind, PsErrorKind::FormatError);
}

#[test]
fn test_absent_tag_falls_back_to_container_date() {
    let data = tiff_without_datetime();
    let meta = ContainerMeta {
        creation_time: Some("2011-11-05T02:51:16.000000Z".to_string()),
        stream_creation_times: Vec::new(),
    };
    let photo = discover_file("clip.mp4", &data, &meta).unwrap();
    assert_eq!(photo.date().unwrap(), Timestamp::new(2011, 11, 5, 2, 51, 16));
    assert_eq!(photo.path().as_ref().unwrap(), "clip.mp4");
}

#[test]
fn test_unreadable_container_falls_back_to_container_date() {
    let data = vec![0u8, 1, 2, 3];
    let meta = ContainerMeta {
        creation_time: Some("2011-11-05T02:51:16Z".to_string()),
        stream_creation_times: Vec::new(),
    };
    let photo = discover_file("clip.mp4", &data, &meta).unwrap();
    assert_eq!(photo.date().unwrap(), Timestamp::new(2011, 11, 5, 2, 51, 16));
}

#[test]
fn test_stream_metadata_is_third_in_the_chain() {
    let data = vec![0u8; 8];
    let meta = ContainerMeta {
        creation_time: None,
        stream_creation_times: vec![
            None,
            Some("2011-11-05T02:51:16Z".to_string()),
            Some("2001-01-01T00:00:00Z".to_string()),
        ],
    };
    let photo = discover_file("clip.mp4", &data, &meta).unwrap();
    // The first stream that carries the key wins, in declared order.
    assert_eq!(photo.date().unwrap(), Timestamp::new(2011, 11, 5, 2, 51, 16));
}

#[test]
fn test_no_date_in_any_source() {
    let data = vec![0u8; 8];
    let err = discover_file("clip.mp4", &data, &empty_meta()).unwrap_err();
    assert_eq!(err.kind, PsErrorKind::NoDateField);
}

#[test]
fn test_discover_rejects_path_without_file_name() {
    let data = tiff_with_datetime("2021:01:02 03:04:05");
    let err = discover_file("", &data, &empty_meta()).unwrap_err();
    assert_eq!(err.kind, PsErrorKind::IoError);
}

#[test]
fn test_extract_picture_exif_reports_missing_tag_as_no_exif() {
    let data = tiff_without_datetime();
    let err = extract_picture_exif(&data, "pic.jpg").unwrap_err();
    assert_eq!(err.kind, PsErrorKind::NoExif);
}

#[test]
fn test_extract_picture_exif_reads_real_tag() {
    let data = tiff_with_datetime("2008:05:30 15:56:01");
    let photo = extract_picture_exif(&data, "pic.jpg").unwrap();
    assert_eq!(photo.date().unwrap(), Timestamp::new(2008, 5, 30, 15, 56, 1));
    assert_eq!(photo.path().as_ref().unwrap(), "pic.jpg");
}

#[test]
fn test_get_ffmpeg_date() {
    // The container's own creation time wins over any stream's.
    let meta = ContainerMeta {
        creation_time: Some("2011-11-05T02:51:16.000000Z".to_string()),
        stream_creation_times: vec![Some("1999-01-01T00:00:00Z".to_string())],
    };
    let t = get_ffmpeg_date(&meta).unwrap();
    assert_eq!(t, Timestamp::new(2011, 11, 5, 2, 51, 16));
}

#[test]
fn test_get_ffmpeg_date_malformed_container_value() {
    let meta = ContainerMeta {
        creation_time: Some("yesterday".to_string()),
        stream_creation_times: vec![Some("2011-11-05T02:51:16Z".to_string())],
    };
    let err = get_ffmpeg_date(&meta).unwrap_err();
    assert_eq!(err.kind, PsErrorKind::FormatError);
}

#[test]
fn test_stream_creation_time_exhausted() {
    let meta = ContainerMeta {
        creation_time: None,
        stream_creation_times: vec![None, None],
    };
    let err = stream_creation_time(&meta).unwrap_err();
    assert_eq!(err.kind, PsErrorKind::NoDateField);
}

#[test]
fn test_process_raw_files() {
    // Successes are kept in order; per-item failures are dropped without
    // aborting the batch.
    let files = vec![
        MediaFile {
            path: "a/first.jpg".to_string(),
            data: tiff_with_datetime("2021:01:02 03:04:05"),
            meta: empty_meta(),
        },
        MediaFile {
            path: "a/broken.jpg".to_string(),
            data: vec![9u8; 4],
            meta: empty_meta(),
        },
        MediaFile {
            path: "a/second.mp4".to_string(),
            data: vec![0u8; 4],
            meta: ContainerMeta {
                creation_time: Some("2011-11-05T02:51:16Z".to_string()),
                stream_creation_times: Vec::new(),
            },
        },
    ];
    let photos = process_raw_files(&files);
    assert_eq!(photos.len(), 2);
    assert_eq!(photos[0].path().as_ref().unwrap(), "a/first.jpg");
    assert_eq!(photos[0].date().unwrap(), Timestamp::new(2021, 1, 2, 3, 4, 5));
    assert_eq!(photos[1].path().as_ref().unwrap(), "a/second.mp4");
    assert_eq!(photos[1].date().unwrap(), Timestamp::new(2011, 11, 5, 2, 51, 16));
}

#[test]
fn test_end_to_end_copy_scenario_at_the_plan_level() {
    // One JPEG dated 2008-05-30T15:56:01, copy mode, destination root DEST:
    // the destination must be DEST/2008/05/30/<original-name>.jpg and the
    // planned operation a byte-for-byte copy from the untouched source.
    let data = tiff_with_datetime("2008:05:30 15:56:01");
    let mut photo = discover_file("source/Canon_40D.jpg", &data, &empty_meta()).unwrap();
    update_photo_new_path("DEST", &mut photo, None);
    assert_eq!(
        photo.new_path().as_ref().unwrap(),
        "DEST/2008/05/30/Canon_40D.jpg"
    );
    let plan = photosort::relocate::move_photo(&photo, false, false).unwrap();
    assert_eq!(plan.ensure_dir, Some("DEST/2008/05/30".to_string()));
    match plan.op.unwrap() {
        photosort::relocate::FileOp::CopyFile { from, to } => {
            assert_eq!(from, "source/Canon_40D.jpg");
            assert_eq!(to, "DEST/2008/05/30/Canon_40D.jpg");
        }
        photosort::relocate::FileOp::MoveFile { .. } => panic!("copy mode must plan a copy"),
    }
}

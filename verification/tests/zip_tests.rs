use photosort::config::Config;
use photosort::discovery::ContainerMeta;
use photosort::pserror::PsErrorKind;
use photosort::relocate::FileOp;
use photosort::timestamp::Timestamp;
use photosort::zipfiles::{plan_zip_entry, process_zip_entries, ZipEntryInput};

fn config(destination: &str, dry_run: bool, copy: bool) -> Config {
    Config {
        source: "in.zip".to_string(),
        destination: destination.to_string(),
        logfile: None,
        dry_run,
        copy,
    }
}

fn dated_entry(name: &str, temp: &str, date: &str) -> ZipEntryInput {
    ZipEntryInput {
        name: name.to_string(),
        temp_path: temp.to_string(),
        data: vec![0u8; 4],
        meta: ContainerMeta {
            creation_time: Some(date.to_string()),
            stream_creation_times: Vec::new(),
        },
    }
}

fn corrupt_entry(name: &str, temp: &str) -> ZipEntryInput {
    ZipEntryInput {
        name: name.to_string(),
        temp_path: temp.to_string(),
        data: vec![9u8; 4],
        meta: ContainerMeta {
            creation_time: None,
            stream_creation_times: Vec::new(),
        },
    }
}

#[test]
fn test_archive_processing_is_failure_isolated() {
    // Ten supported entries, one of them corrupt: nine are accepted, the
    // scan is never aborted.
    let mut entries: Vec<ZipEntryInput> = Vec::new();
    for i in 0..9 {
        entries.push(dated_entry(
            &format!("album/pic{}.jpg", i),
            &format!("/tmp-extract/e{}", i),
            "2011-11-05T02:51:16Z",
        ));
    }
    entries.insert(4, corrupt_entry("album/broken.jpg", "/tmp-extract/bad"));
    assert_eq!(entries.len(), 10);

    let cfg = config("OUT", false, true);
    let (results, count) = process_zip_entries(&cfg, &entries);
    assert_eq!(count, 9);
    assert_eq!(results.len(), 10);
    assert!(results[4].is_err());
    for (i, r) in results.iter().enumerate() {
        if i != 4 {
            assert!(r.is_ok());
        }
    }
}

#[test]
fn test_zip_entry_uses_archive_relative_name_and_moves_from_temp() {
    let cfg = config("OUT", false, true);
    let entry = dated_entry("album/holiday.jpg", "/tmp-extract/t1", "2011-11-05T02:51:16Z");
    let (photo, plan) = plan_zip_entry(&cfg, &entry).unwrap();
    assert_eq!(photo.date().unwrap(), Timestamp::new(2011, 11, 5, 2, 51, 16));
    // The photo's source is the transient extraction path; the destination
    // carries the archive-relative file name.
    assert_eq!(photo.path().as_ref().unwrap(), "/tmp-extract/t1");
    assert_eq!(
        photo.new_path().as_ref().unwrap(),
        "OUT/2011/11/05/holiday.jpg"
    );
    // Archive entries always move out of the temp location, even in copy
    // mode.
    match plan.op.unwrap() {
        FileOp::MoveFile { from, to } => {
            assert_eq!(from, "/tmp-extract/t1");
            assert_eq!(to, "OUT/2011/11/05/holiday.jpg");
        }
        FileOp::CopyFile { .. } => panic!("archive entries must move out of the temp location"),
    }
    assert_eq!(plan.ensure_dir, Some("OUT/2011/11/05".to_string()));
}

#[test]
fn test_zip_skips_directory_entries() {
    let cfg = config("OUT", false, false);
    let entry = dated_entry("album/", "/tmp-extract/t2", "2011-11-05T02:51:16Z");
    let err = plan_zip_entry(&cfg, &entry).unwrap_err();
    assert_eq!(err.kind, PsErrorKind::FileNotSupported);
}

#[test]
fn test_zip_skips_unsupported_entries() {
    let cfg = config("OUT", false, false);
    let entry = dated_entry("album/readme.txt", "/tmp-extract/t3", "2011-11-05T02:51:16Z");
    let err = plan_zip_entry(&cfg, &entry).unwrap_err();
    assert_eq!(err.kind, PsErrorKind::FileNotSupported);
}

#[test]
fn test_zip_corrupt_entry_reports_its_failure() {
    let cfg = config("OUT", false, false);
    let err = plan_zip_entry(&cfg, &corrupt_entry("a/b.jpg", "/tmp-extract/t4")).unwrap_err();
    assert_eq!(err.kind, PsErrorKind::NoDateField);
}

#[test]
fn test_zip_dry_run_plans_no_mutation() {
    let cfg = config("OUT", true, false);
    let entry = dated_entry("album/holiday.jpg", "/tmp-extract/t5", "2011-11-05T02:51:16Z");
    let (_, plan) = plan_zip_entry(&cfg, &entry).unwrap();
    assert_eq!(plan.ensure_dir, None);
    assert_eq!(plan.op, None);
}

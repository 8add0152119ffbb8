use photosort::photo::{Photo, PhotoBuilder};
use photosort::timestamp::Timestamp;

#[test]
fn test_with_os_path() {
    let path = "/path/to/file";
    let pb = PhotoBuilder::new();
    let photo = pb.with_os_path(path).build();

    assert_eq!(photo.path().as_ref().unwrap().as_str(), path);
}

#[test]
fn test_photo_new_is_empty() {
    let photo = Photo::new();
    assert_eq!(photo.date(), None);
    assert_eq!(*photo.path(), None);
    assert_eq!(*photo.new_path(), None);
}

#[test]
fn test_photo_from_sets_path_and_date() {
    let ts = Timestamp::new(2008, 5, 30, 15, 56, 1);
    let photo = Photo::from("a/b.jpg".to_string(), ts);
    assert_eq!(photo.date(), Some(ts));
    assert_eq!(photo.path().as_ref().unwrap(), "a/b.jpg");
    assert_eq!(*photo.new_path(), None);
}

#[test]
fn test_builder_chain_builds_full_photo() {
    let ts = Timestamp::new(2021, 3, 6, 16, 47, 13);
    let photo = PhotoBuilder::new()
        .with_path("my/current/path.jpg".to_string())
        .with_date(ts)
        .with_new_path("OUT/2021/03/06/path.jpg".to_string())
        .build();
    assert_eq!(photo.date(), Some(ts));
    assert_eq!(photo.path().as_ref().unwrap(), "my/current/path.jpg");
    assert_eq!(photo.new_path().as_ref().unwrap(), "OUT/2021/03/06/path.jpg");
}

//! Discovery: deciding which names are candidate media files, and resolving
//! a capture date through the ordered fallback chain — embedded tag
//! metadata first, then container-level metadata, then per-stream metadata.

use crate::dates::{exif_dt_valid, exif_dt_value, parse_exif_datetime, parse_rfc3339,
    rfc3339_valid, rfc3339_value};
use crate::paths::{file_name_of, file_name_spec};
use crate::photo::Photo;
use crate::pserror::{PsError, PsErrorKind};
use crate::strutil::{ends_with_ci, ends_with_ignore_case, lower_code};
use crate::timestamp::Timestamp;
use vstd::prelude::*;
use vstd::string::StringExecFns;

verus! {

broadcast use vstd::string::group_string_axioms;

/// A name is a candidate media file when its suffix, folded to ASCII lower
/// case, is one of the allow-list entries.
pub open spec fn is_supported_name(s: Seq<char>) -> bool {
    ||| ends_with_ci(s, seq!['j', 'p', 'g'])
    ||| ends_with_ci(s, seq!['j', 'p', 'e', 'g'])
    ||| ends_with_ci(s, seq!['p', 'n', 'g'])
    ||| ends_with_ci(s, seq!['g', 'i', 'f'])
    ||| ends_with_ci(s, seq!['m', 'p', '4'])
    ||| ends_with_ci(s, seq!['m', 'o', 'v'])
    ||| ends_with_ci(s, seq!['m', 'p'])
}

/// A name ending in `.zip` (any case) is an archive.
pub open spec fn is_zip_name(s: Seq<char>) -> bool {
    ends_with_ci(s, seq!['.', 'z', 'i', 'p'])
}

/// The suffix allow-list, as configuration data rather than control flow.
pub fn supported_extensions() -> (v: Vec<&'static str>)
    ensures
        v@.len() == 7,
        v@[0]@ == seq!['j', 'p', 'g'],
        v@[1]@ == seq!['j', 'p', 'e', 'g'],
        v@[2]@ == seq!['p', 'n', 'g'],
        v@[3]@ == seq!['g', 'i', 'f'],
        v@[4]@ == seq!['m', 'p', '4'],
        v@[5]@ == seq!['m', 'o', 'v'],
        v@[6]@ == seq!['m', 'p'],
{
    proof {
        reveal_strlit("jpg");
        reveal_strlit("jpeg");
        reveal_strlit("png");
        reveal_strlit("gif");
        reveal_strlit("mp4");
        reveal_strlit("mov");
        reveal_strlit("mp");
        assert(("jpg")@ =~= seq!['j', 'p', 'g']);
        assert(("jpeg")@ =~= seq!['j', 'p', 'e', 'g']);
        assert(("png")@ =~= seq!['p', 'n', 'g']);
        assert(("gif")@ =~= seq!['g', 'i', 'f']);
        assert(("mp4")@ =~= seq!['m', 'p', '4']);
        assert(("mov")@ =~= seq!['m', 'o', 'v']);
        assert(("mp")@ =~= seq!['m', 'p']);
    }
    let mut v: Vec<&'static str> = Vec::new();
    v.push("jpg");
    v.push("jpeg");
    v.push("png");
    v.push("gif");
    v.push("mp4");
    v.push("mov");
    v.push("mp");
    v
}

/// Case-insensitive suffix match of a file name against the allow-list.
pub fn is_supported_file(file_name: &str) -> (r: bool)
    ensures
        r == is_supported_name(file_name@),
{
    let exts = supported_extensions();
    let mut r = false;
    let mut i: usize = 0;
    while i < exts.len()
        invariant
            i <= exts@.len(),
            exts@.len() == 7,
            r == exists|j: int| 0 <= j < i && ends_with_ci(file_name@, #[trigger] exts@[j]@),
        decreases exts@.len() - i,
    {
        if ends_with_ignore_case(file_name, exts[i]) {
            r = true;
            proof {
                assert(ends_with_ci(file_name@, exts@[i as int]@));
            }
        }
        i += 1;
    }
    proof {
        if r {
            let j = choose|j: int| 0 <= j < 7 && ends_with_ci(file_name@, #[trigger] exts@[j]@);
            assert(is_supported_name(file_name@));
        }
        if is_supported_name(file_name@) {
            assert(exists|j: int| 0 <= j < 7 && ends_with_ci(file_name@, #[trigger] exts@[j]@))
                by {
                if ends_with_ci(file_name@, seq!['j', 'p', 'g']) {
                    assert(ends_with_ci(file_name@, exts@[0]@));
                } else if ends_with_ci(file_name@, seq!['j', 'p', 'e', 'g']) {
                    assert(ends_with_ci(file_name@, exts@[1]@));
                } else if ends_with_ci(file_name@, seq!['p', 'n', 'g']) {
                    assert(ends_with_ci(file_name@, exts@[2]@));
                } else if ends_with_ci(file_name@, seq!['g', 'i', 'f']) {
                    assert(ends_with_ci(file_name@, exts@[3]@));
                } else if ends_with_ci(file_name@, seq!['m', 'p', '4']) {
                    assert(ends_with_ci(file_name@, exts@[4]@));
                } else if ends_with_ci(file_name@, seq!['m', 'o', 'v']) {
                    assert(ends_with_ci(file_name@, exts@[5]@));
                } else {
                    assert(ends_with_ci(file_name@, exts@[6]@));
                }
            }
        }
    }
    r
}

/// Case-insensitive test for a `.zip` archive name.
pub fn is_zip_file(file_name: &str) -> (r: bool)
    ensures
        r == is_zip_name(file_name@),
{
    proof {
        reveal_strlit(".zip");
        assert((".zip")@ =~= seq!['.', 'z', 'i', 'p']);
    }
    ends_with_ignore_case(file_name, ".zip")
}

/// Classification only looks at characters through their folded codes, so
/// two names that fold alike (`A.JPG`, `a.jpg`) classify identically.
pub proof fn lemma_classifier_case_insensitive(a: Seq<char>, b: Seq<char>)
    requires
        a.len() == b.len(),
        forall|i: int| 0 <= i < a.len() ==> lower_code(a[i]) == lower_code(b[i]),
    ensures
        is_supported_name(a) == is_supported_name(b),
{
}

/// A name is kept by directory discovery when it is a supported media file
/// or an archive.
pub open spec fn keep_name(s: Seq<char>) -> bool {
    is_supported_name(s) || is_zip_name(s)
}

/// The names of `files` that discovery keeps, in order.
pub open spec fn filter_names(files: Seq<String>) -> Seq<String>
    decreases files.len(),
{
    if files.len() == 0 {
        Seq::empty()
    } else {
        let rest = filter_names(files.drop_last());
        if keep_name(files.last()@) {
            rest.push(files.last())
        } else {
            rest
        }
    }
}

/// The compute half of directory listing: of the enumerated names, keeps
/// those that are supported media files or archives.
pub fn filter_supported_files(files: &Vec<String>) -> (r: Vec<String>)
    ensures
        r@ == filter_names(files@),
{
    let mut r: Vec<String> = Vec::new();
    let mut i: usize = 0;
    while i < files.len()
        invariant
            i <= files@.len(),
            r@ == filter_names(files@.take(i as int)),
        decreases files@.len() - i,
    {
        if is_supported_file(files[i].as_str()) || is_zip_file(files[i].as_str()) {
            r.push(files[i].clone());
        }
        proof {
            assert(files@.take(i as int + 1).drop_last() =~= files@.take(i as int));
            assert(files@.take(i as int + 1).last() == files@[i as int]);
        }
        i += 1;
    }
    proof {
        assert(files@.take(files@.len() as int) =~= files@);
    }
    r
}

/// What reading the embedded tag metadata of an image yields: the container
/// was unreadable, the date tag was absent, or the tag's rendered date
/// string.
#[derive(Debug, Clone, PartialEq)]
pub enum TagOutcome {
    Unreadable,
    Absent,
    Present(String),
}

impl View for TagOutcome {
    type V = Option<Option<Seq<char>>>;

    open spec fn view(&self) -> Option<Option<Seq<char>>> {
        match self {
            TagOutcome::Unreadable => None,
            TagOutcome::Absent => Some(None),
            TagOutcome::Present(s) => Some(Some(s@)),
        }
    }
}

/// The date-taken tag a byte sequence holds, read as an image container:
/// `None` when the container is unreadable, `Some(None)` when it parses but
/// carries no date-taken tag, and `Some(Some(text))` for the tag's rendered
/// text. A function of the bytes alone.
pub uninterp spec fn exif_datetime_of(data: Seq<u8>) -> Option<Option<Seq<char>>>;

/// Relies on exif::Reader::read_from_container, Exif::get_field and
/// Field::display_value: which rendered date-taken tag an image holds is a
/// function of its bytes alone.
#[verifier::external_body]
fn read_exif_tag(data: &Vec<u8>) -> (r: TagOutcome)
    ensures
        r@ == exif_datetime_of(data@),
{
    let mut cur = std::io::Cursor::new(data.as_slice());
    match exif::Reader::new().read_from_container(&mut cur) {
        Err(_) => TagOutcome::Unreadable,
        Ok(ex) => match ex.get_field(exif::Tag::DateTimeOriginal, exif::In::PRIMARY) {
            None => TagOutcome::Absent,
            Some(f) => TagOutcome::Present(f.display_value().with_unit(&ex).to_string()),
        },
    }
}

/// The container-level and per-stream metadata of a media file, as plain
/// values: the creation-time entry of the container's metadata map, and each
/// stream's, in declared stream order.
#[derive(Debug, Clone, PartialEq)]
pub struct ContainerMeta {
    pub creation_time: Option<String>,
    pub stream_creation_times: Vec<Option<String>>,
}

impl ContainerMeta {
    pub open spec fn ct(self) -> Option<Seq<char>> {
        match self.creation_time {
            Some(s) => Some(s@),
            None => None,
        }
    }

    pub open spec fn streams(self) -> Seq<Option<Seq<char>>> {
        Seq::new(
            self.stream_creation_times@.len(),
            |i: int|
                match self.stream_creation_times@[i] {
                    Some(s) => Some(s@),
                    None => None,
                },
        )
    }
}

/// The first stream, in declared order, that carries a creation-time value.
pub open spec fn first_stream_time(streams: Seq<Option<Seq<char>>>) -> Option<Seq<char>>
    decreases streams.len(),
{
    if streams.len() == 0 {
        None
    } else {
        match streams[0] {
            Some(s) => Some(s),
            None => first_stream_time(streams.drop_first()),
        }
    }
}

/// Date resolution from container metadata alone: the container's
/// creation-time entry if it has one, else the first stream's; a present but
/// malformed value is a format error, and no value at all means no date.
pub open spec fn container_date_spec(
    ct: Option<Seq<char>>,
    streams: Seq<Option<Seq<char>>>,
) -> Result<Timestamp, PsErrorKind> {
    match ct {
        Some(s) => if rfc3339_valid(s) {
            Ok(rfc3339_value(s))
        } else {
            Err(PsErrorKind::FormatError)
        },
        None => match first_stream_time(streams) {
            Some(s) => if rfc3339_valid(s) {
                Ok(rfc3339_value(s))
            } else {
                Err(PsErrorKind::FormatError)
            },
            None => Err(PsErrorKind::NoDateField),
        },
    }
}

/// The full fallback chain. Tag metadata has fixed priority: a parseable tag
/// date wins outright, a present but malformed one fails fast with
/// `FormatError`, and only an absent tag (or an unreadable container) falls
/// through to container and stream metadata, whose own failures surface as
/// `NoDateField`.
pub open spec fn resolve_date_spec(
    tag: Option<Option<Seq<char>>>,
    ct: Option<Seq<char>>,
    streams: Seq<Option<Seq<char>>>,
) -> Result<Timestamp, PsErrorKind> {
    match tag {
        Some(Some(s)) => if exif_dt_valid(s) {
            Ok(exif_dt_value(s))
        } else {
            Err(PsErrorKind::FormatError)
        },
        _ => match container_date_spec(ct, streams) {
            Ok(t) => Ok(t),
            Err(_) => Err(PsErrorKind::NoDateField),
        },
    }
}

/// Fallback ordering: when the tag metadata holds a parseable date, the
/// resolution is that date; container metadata — even a different, valid
/// date — is never consulted.
pub proof fn lemma_tag_date_wins(
    tag: Seq<char>,
    ct: Option<Seq<char>>,
    streams: Seq<Option<Seq<char>>>,
)
    requires
        exif_dt_valid(tag),
    ensures
        resolve_date_spec(Some(Some(tag)), ct, streams) == Ok::<Timestamp, PsErrorKind>(
            exif_dt_value(tag),
        ),
{
}

/// A present but malformed tag date is a hard failure: resolution yields
/// `FormatError` even when container or stream metadata would supply a valid
/// date.
pub proof fn lemma_malformed_tag_fails_fast(
    tag: Seq<char>,
    ct: Option<Seq<char>>,
    streams: Seq<Option<Seq<char>>>,
)
    requires
        !exif_dt_valid(tag),
    ensures
        resolve_date_spec(Some(Some(tag)), ct, streams) == Err::<Timestamp, PsErrorKind>(
            PsErrorKind::FormatError,
        ),
{
}

/// Mirrors the tag-metadata outcome into a `Photo` or a typed error: a
/// parseable tag date makes a dated photo at `photo_path`; a malformed one is
/// a `FormatError`; an absent tag is `NoExif`; an unreadable container is a
/// `FormatError`.
pub fn match_exif(tag: &TagOutcome, photo_path: &str) -> (r: Result<Photo, PsError>)
    ensures
        match tag@ {
            None => r is Err && r->Err_0.kind == PsErrorKind::FormatError,
            Some(None) => r is Err && r->Err_0.kind == PsErrorKind::NoExif,
            Some(Some(s)) => if exif_dt_valid(s) {
                &&& r is Ok
                &&& r->Ok_0.date == Some(exif_dt_value(s))
                &&& r->Ok_0.path is Some && r->Ok_0.path->0@ == photo_path@
                &&& r->Ok_0.new_path is None
            } else {
                r is Err && r->Err_0.kind == PsErrorKind::FormatError
            },
        },
{
    match tag {
        TagOutcome::Unreadable => Err(
            PsError::new(
                PsErrorKind::FormatError,
                String::from_str("Error reading EXIF: ").concat(photo_path),
            ),
        ),
        TagOutcome::Absent => Err(
            PsError::new(
                PsErrorKind::NoExif,
                String::from_str("No exif field for ").concat(photo_path),
            ),
        ),
        TagOutcome::Present(s) => match parse_exif_datetime(s.as_str()) {
            Some(t) => Ok(Photo::from(String::from_str(photo_path), t)),
            None => Err(
                PsError::new(
                    PsErrorKind::FormatError,
                    String::from_str("Couldn't parse date ").concat(s.as_str()),
                ),
            ),
        },
    }
}

/// Reads the embedded tag metadata of the image bytes and resolves it
/// against `path`, as `match_exif` describes.
pub fn extract_picture_exif(data: &Vec<u8>, path: &str) -> (r: Result<Photo, PsError>)
    ensures
        match exif_datetime_of(data@) {
            None => r is Err && r->Err_0.kind == PsErrorKind::FormatError,
            Some(None) => r is Err && r->Err_0.kind == PsErrorKind::NoExif,
            Some(Some(s)) => if exif_dt_valid(s) {
                &&& r is Ok
                &&& r->Ok_0.date == Some(exif_dt_value(s))
                &&& r->Ok_0.path is Some && r->Ok_0.path->0@ == path@
                &&& r->Ok_0.new_path is None
            } else {
                r is Err && r->Err_0.kind == PsErrorKind::FormatError
            },
        },
{
    let tag = read_exif_tag(data);
    match_exif(&tag, path)
}

/// Parses an RFC 3339 creation-time value; callers must hand it a valid one.
pub fn extract_ndt(creation_time: &str) -> (t: Timestamp)
    requires
        rfc3339_valid(creation_time@),
    ensures
        t == rfc3339_value(creation_time@),
        t.wf(),
{
    parse_rfc3339(creation_time).unwrap()
}

/// Walks the streams in declared order and takes the first creation-time
/// value; a malformed value there is a `FormatError`, none at all is
/// `NoDateField`.
pub fn stream_creation_time(meta: &ContainerMeta) -> (r: Result<Timestamp, PsError>)
    ensures
        match first_stream_time(meta.streams()) {
            Some(s) => if rfc3339_valid(s) {
                r is Ok && r->Ok_0 == rfc3339_value(s) && r->Ok_0.wf()
            } else {
                r is Err && r->Err_0.kind == PsErrorKind::FormatError
            },
            None => r is Err && r->Err_0.kind == PsErrorKind::NoDateField,
        },
{
    let n = meta.stream_creation_times.len();
    proof {
        assert(meta.streams().skip(0) =~= meta.streams());
    }
    let mut i: usize = 0;
    while i < n
        invariant
            i <= n,
            n == meta.stream_creation_times@.len(),
            first_stream_time(meta.streams()) == first_stream_time(meta.streams().skip(i as int)),
            forall|j: int| 0 <= j < i ==> meta.streams()[j] is None,
        decreases n - i,
    {
        match &meta.stream_creation_times[i] {
            Some(s) => {
                proof {
                    assert(meta.streams().skip(i as int)[0] == meta.streams()[i as int]);
                    assert(first_stream_time(meta.streams().skip(i as int)) == Some(s@));
                }
                return match parse_rfc3339(s.as_str()) {
                    Some(t) => Ok(t),
                    None => Err(
                        PsError::new(
                            PsErrorKind::FormatError,
                            String::from_str("Couldn't parse date ").concat(s.as_str()),
                        ),
                    ),
                };
            },
            None => {
                proof {
                    assert(meta.streams().skip(i as int)[0] == meta.streams()[i as int]);
                    assert(meta.streams().skip(i as int).drop_first() =~= meta.streams().skip(
                        i as int + 1,
                    ));
                }
            },
        }
        i += 1;
    }
    proof {
        assert(meta.streams().skip(n as int).len() == 0);
    }
    Err(
        PsError::new(
            PsErrorKind::NoDateField,
            String::from_str("Cannot extract date/time from file"),
        ),
    )
}

/// Container-then-streams date lookup over the gathered metadata, as
/// `container_date_spec` describes.
pub fn get_ffmpeg_date(meta: &ContainerMeta) -> (r: Result<Timestamp, PsError>)
    ensures
        match container_date_spec(meta.ct(), meta.streams()) {
            Ok(t) => r is Ok && r->Ok_0 == t && t.wf(),
            Err(k) => r is Err && r->Err_0.kind == k,
        },
{
    match &meta.creation_time {
        Some(s) => match parse_rfc3339(s.as_str()) {
            Some(t) => Ok(t),
            None => Err(
                PsError::new(
                    PsErrorKind::FormatError,
                    String::from_str("Couldn't parse date ").concat(s.as_str()),
                ),
            ),
        },
        None => stream_creation_time(meta),
    }
}

/// The date a file resolves to, or the kind of failure: no usable file name
/// is an `IoError`; otherwise the fallback chain decides.
pub open spec fn discover_spec(
    path: Seq<char>,
    tag: Option<Option<Seq<char>>>,
    ct: Option<Seq<char>>,
    streams: Seq<Option<Seq<char>>>,
) -> Result<Timestamp, PsErrorKind> {
    if file_name_spec(path) is None {
        Err(PsErrorKind::IoError)
    } else {
        resolve_date_spec(tag, ct, streams)
    }
}

/// Resolves one file into a dated `Photo`, reading its tag metadata from the
/// bytes and falling back to the gathered container metadata.
pub fn discover_file(path: &str, data: &Vec<u8>, meta: &ContainerMeta) -> (r: Result<
    Photo,
    PsError,
>)
    ensures
        match discover_spec(path@, exif_datetime_of(data@), meta.ct(), meta.streams()) {
            Ok(t) => {
                &&& r is Ok
                &&& r->Ok_0.date == Some(t) && t.wf()
                &&& r->Ok_0.path is Some && r->Ok_0.path->0@ == path@
                &&& r->Ok_0.new_path is None
            },
            Err(k) => r is Err && r->Err_0.kind == k,
        },
{
    match file_name_of(path) {
        None => {
            return Err(
                PsError::new(PsErrorKind::IoError, String::from_str("file_name is empty")),
            );
        },
        Some(_) => {},
    }
    let tag = read_exif_tag(data);
    match tag {
        TagOutcome::Present(s) => match parse_exif_datetime(s.as_str()) {
            Some(t) => Ok(Photo::from(String::from_str(path), t)),
            None => Err(
                PsError::new(
                    PsErrorKind::FormatError,
                    String::from_str("Couldn't parse date ").concat(s.as_str()),
                ),
            ),
        },
        _ => match get_ffmpeg_date(meta) {
            Ok(t) => Ok(Photo::from(String::from_str(path), t)),
            Err(_e) => Err(
                PsError::new(
                    PsErrorKind::NoDateField,
                    String::from_str("No EXIF of any kind in ").concat(path),
                ),
            ),
        },
    }
}

/// One file handed to batch discovery: its path, its raw bytes, and the
/// container metadata gathered for it.
#[derive(Debug, Clone, PartialEq)]
pub struct MediaFile {
    pub path: String,
    pub data: Vec<u8>,
    pub meta: ContainerMeta,
}

impl MediaFile {
    /// What discovery resolves for this file.
    pub open spec fn discover_result(self) -> Result<Timestamp, PsErrorKind> {
        discover_spec(self.path@, exif_datetime_of(self.data@), self.meta.ct(), self.meta.streams())
    }
}

/// The (path, date) pairs of the files whose discovery succeeds, in order.
pub open spec fn successful_discoveries(files: Seq<MediaFile>) -> Seq<(Seq<char>, Timestamp)>
    decreases files.len(),
{
    if files.len() == 0 {
        Seq::empty()
    } else {
        let rest = successful_discoveries(files.drop_last());
        match files.last().discover_result() {
            Ok(t) => rest.push((files.last().path@, t)),
            Err(_) => rest,
        }
    }
}

/// Runs discovery over every file, keeping the successes in order; per-item
/// failures are dropped, never aborting the batch.
pub fn process_raw_files(files: &Vec<MediaFile>) -> (photos: Vec<Photo>)
    ensures
        photos@.len() == successful_discoveries(files@).len(),
        forall|k: int|
            0 <= k < photos@.len() ==> {
                &&& (#[trigger] photos@[k]).date == Some(successful_discoveries(files@)[k].1)
                &&& photos@[k].path is Some
                &&& photos@[k].path->0@ == successful_discoveries(files@)[k].0
                &&& photos@[k].new_path is None
            },
{
    let mut photos: Vec<Photo> = Vec::new();
    let mut i: usize = 0;
    while i < files.len()
        invariant
            i <= files@.len(),
            photos@.len() == successful_discoveries(files@.take(i as int)).len(),
            forall|k: int|
                0 <= k < photos@.len() ==> {
                    &&& (#[trigger] photos@[k]).date == Some(
                        successful_discoveries(files@.take(i as int))[k].1,
                    )
                    &&& photos@[k].path is Some
                    &&& photos@[k].path->0@ == successful_discoveries(files@.take(i as int))[k].0
                    &&& photos@[k].new_path is None
                },
        decreases files@.len() - i,
    {
        let f = &files[i];
        let result = discover_file(f.path.as_str(), &f.data, &f.meta);
        match result {
            Ok(photo) => {
                photos.push(photo);
            },
            Err(_err) => {},
        }
        proof {
            assert(files@.take(i as int + 1).drop_last() =~= files@.take(i as int));
            assert(files@.take(i as int + 1).last() == files@[i as int]);
        }
        i += 1;
    }
    proof {
        assert(files@.take(files@.len() as int) =~= files@);
    }
    photos
}

} // verus!

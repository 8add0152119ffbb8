//! Destination-path synthesis and relocation planning. Planning is pure: it
//! decides which directory must exist and which single file operation (an
//! atomic rename, or a byte-for-byte copy) is to run; executing the plan
//! against a filesystem is left to the caller.

use crate::paths::{file_name_spec, file_name_of, parent_of, parent_spec};
use crate::photo::Photo;
use crate::pserror::{PsError, PsErrorKind};
use crate::strutil::{four_digits, push_four_digits, push_two_digits, two_digits};
use crate::timestamp::Timestamp;
use vstd::pervasive::unreached;
use vstd::prelude::*;
use vstd::string::StrSliceExecFns;
use vstd::string::StringExecFns;

verus! {

broadcast use vstd::string::group_string_axioms;

/// The destination path `{root}/{YYYY}/{MM}/{DD}/{name}`: four-digit year,
/// two-digit zero-padded month and day.
pub open spec fn synthesized_path(root: Seq<char>, ts: Timestamp, name: Seq<char>) -> Seq<char> {
    root + seq!['/'] + four_digits(ts.year as int) + seq!['/'] + two_digits(ts.month as int)
        + seq!['/'] + two_digits(ts.day as int) + seq!['/'] + name
}

/// Pure, deterministic destination-path synthesis: the result is exactly
/// `{dest_root}/{YYYY}/{MM}/{DD}/{file_name}`.
pub fn synthesize_path(dest_root: &str, ts: &Timestamp, file_name: &str) -> (r: String)
    requires
        ts.wf(),
    ensures
        r@ == synthesized_path(dest_root@, *ts, file_name@),
{
    proof {
        reveal_strlit("/");
        assert(("/")@ =~= seq!['/']);
    }
    let mut out = String::from_str(dest_root);
    out.append("/");
    push_four_digits(&mut out, ts.year);
    out.append("/");
    push_two_digits(&mut out, ts.month);
    out.append("/");
    push_two_digits(&mut out, ts.day);
    out.append("/");
    out.append(file_name);
    proof {
        assert(out@ =~= synthesized_path(dest_root@, *ts, file_name@));
    }
    out
}

/// How one photo's destination relates to its state before the update: with
/// no usable file name it is untouched; otherwise the synthesized
/// destination is attached and nothing else changes.
pub open spec fn updated_photo_rel(dest: Seq<char>, before: Photo, after: Photo) -> bool {
    match file_name_spec(before.path->0@) {
        None => after == before,
        Some(n) => {
            &&& after.date == before.date
            &&& after.path == before.path
            &&& after.new_path is Some
            &&& after.new_path->0@ == synthesized_path(dest, before.date->0, n)
        },
    }
}

/// Attaches the synthesized destination to one photo. The file name is the
/// override when given, else the final component of the photo's source path;
/// a photo without a usable file name is left unchanged.
pub fn update_photo_new_path(dest_dir: &str, photo: &mut Photo, name_override: Option<&str>)
    requires
        old(photo).path is Some,
        old(photo).wf(),
        old(photo).date is Some ==> old(photo).date->0.wf(),
        (match name_override {
            Some(_) => true,
            None => file_name_spec(old(photo).path->0@) is Some,
        }) ==> old(photo).date is Some,
    ensures
        match name_override {
            Some(n) => {
                &&& final(photo).date == old(photo).date
                &&& final(photo).path == old(photo).path
                &&& final(photo).new_path is Some
                &&& final(photo).new_path->0@ == synthesized_path(
                    dest_dir@,
                    old(photo).date->0,
                    n@,
                )
            },
            None => updated_photo_rel(dest_dir@, *old(photo), *final(photo)),
        },
        final(photo).wf(),
{
    let name: Option<String> = match name_override {
        Some(n) => Some(String::from_str(n)),
        None => {
            let p = match &photo.path {
                Some(p) => p.clone(),
                None => unreached(),
            };
            file_name_of(p.as_str())
        },
    };
    match name {
        None => {},
        Some(n) => {
            let ts = match photo.date {
                Some(t) => t,
                None => unreached(),
            };
            let np = synthesize_path(dest_dir, &ts, n.as_str());
            photo.set_new_path(np);
        },
    }
}

/// Attaches destinations across a batch, one photo at a time, in order.
pub fn update_new_path(dest_dir: &String, photos: &mut Vec<Photo>)
    requires
        forall|i: int|
            0 <= i < old(photos)@.len() ==> {
                &&& (#[trigger] old(photos)@[i]).path is Some
                &&& old(photos)@[i].wf()
                &&& (old(photos)@[i].date is Some ==> old(photos)@[i].date->0.wf())
                &&& (file_name_spec(old(photos)@[i].path->0@) is Some ==> old(photos)@[i].date
                    is Some)
            },
    ensures
        final(photos)@.len() == old(photos)@.len(),
        forall|i: int|
            0 <= i < old(photos)@.len() ==> updated_photo_rel(
                dest_dir@,
                #[trigger] old(photos)@[i],
                final(photos)@[i],
            ),
{
    let n = photos.len();
    let mut i: usize = 0;
    while i < n
        invariant
            i <= n,
            n == photos@.len(),
            photos@.len() == old(photos)@.len(),
            forall|j: int|
                0 <= j < n ==> {
                    &&& (#[trigger] old(photos)@[j]).path is Some
                    &&& old(photos)@[j].wf()
                    &&& (old(photos)@[j].date is Some ==> old(photos)@[j].date->0.wf())
                    &&& (file_name_spec(old(photos)@[j].path->0@) is Some ==> old(photos)@[j].date
                        is Some)
                },
            forall|j: int| i <= j < n ==> photos@[j] == old(photos)@[j],
            forall|j: int|
                0 <= j < i ==> updated_photo_rel(
                    dest_dir@,
                    #[trigger] old(photos)@[j],
                    photos@[j],
                ),
        decreases n - i,
    {
        proof {
            assert(photos@[i as int] == old(photos)@[i as int]);
            assert((old(photos)@[i as int]).path is Some);
        }
        update_photo_new_path(dest_dir.as_str(), &mut photos[i], None);
        i += 1;
    }
}

/// The one file operation a relocation performs.
#[derive(Debug, Clone, PartialEq)]
pub enum FileOp {
    MoveFile { from: String, to: String },
    CopyFile { from: String, to: String },
}

impl FileOp {
    pub open spec fn is_move(self) -> bool {
        self matches FileOp::MoveFile { .. }
    }

    pub open spec fn from_spec(self) -> Seq<char> {
        match self {
            FileOp::MoveFile { from, .. } => from@,
            FileOp::CopyFile { from, .. } => from@,
        }
    }

    pub open spec fn to_spec(self) -> Seq<char> {
        match self {
            FileOp::MoveFile { to, .. } => to@,
            FileOp::CopyFile { to, .. } => to@,
        }
    }
}

/// What a relocation asks of the filesystem: a directory that must exist
/// (created with its ancestors, idempotently — already existing is success),
/// then at most one file operation.
#[derive(Debug, Clone, PartialEq)]
pub struct RelocationPlan {
    pub ensure_dir: Option<String>,
    pub op: Option<FileOp>,
}

impl RelocationPlan {
    /// A plan that touches the filesystem at all.
    pub open spec fn mutates(self) -> bool {
        self.ensure_dir is Some || self.op is Some
    }
}

/// Plans one relocation. The destination must have a parent path, else the
/// relocation fails with `IoError`; a dry run plans no mutation at all; a
/// real run ensures the parent directory and then either an atomic rename
/// (`move_file`) or a byte-for-byte copy.
pub fn move_photo(photo: &Photo, move_file: bool, dry_run: bool) -> (r: Result<
    RelocationPlan,
    PsError,
>)
    requires
        photo.path is Some,
        photo.new_path is Some,
    ensures
        match parent_spec(photo.new_path->0@) {
            None => r is Err && r->Err_0.kind == PsErrorKind::IoError,
            Some(dir) => {
                &&& r is Ok
                &&& (dry_run ==> !r->Ok_0.mutates())
                &&& (!dry_run ==> {
                    &&& r->Ok_0.ensure_dir is Some
                    &&& r->Ok_0.ensure_dir->0@ == dir
                    &&& r->Ok_0.op is Some
                    &&& r->Ok_0.op->0.is_move() == move_file
                    &&& r->Ok_0.op->0.from_spec() == photo.path->0@
                    &&& r->Ok_0.op->0.to_spec() == photo.new_path->0@
                })
            },
        },
{
    let new_path = match &photo.new_path {
        Some(p) => p.clone(),
        None => unreached(),
    };
    match parent_of(new_path.as_str()) {
        None => Err(
            PsError::new(
                PsErrorKind::IoError,
                String::from_str("No parent directory for ").concat(new_path.as_str()),
            ),
        ),
        Some(dir) => {
            if dry_run {
                Ok(RelocationPlan { ensure_dir: None, op: None })
            } else {
                let from = match &photo.path {
                    Some(p) => p.clone(),
                    None => unreached(),
                };
                let op = if move_file {
                    FileOp::MoveFile { from, to: new_path }
                } else {
                    FileOp::CopyFile { from, to: new_path }
                };
                Ok(RelocationPlan { ensure_dir: Some(dir), op: Some(op) })
            }
        },
    }
}

} // verus!

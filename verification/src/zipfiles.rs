//! Archive processing, the decision half: which entries of an archive are
//! taken, the date each resolves to, and the relocation each is owed. An
//! entry always moves out of its transient extraction location, whatever
//! copy/move mode the run asked for; one bad entry never aborts the batch.

use crate::config::Config;
use crate::discovery::{discover_file, discover_spec, exif_datetime_of, is_supported_file,
    is_supported_name, ContainerMeta};
use crate::paths::{file_name_of, file_name_spec, parent_spec};
use crate::photo::Photo;
use crate::pserror::{PsError, PsErrorKind};
use crate::relocate::{move_photo, synthesized_path, update_photo_new_path, RelocationPlan};
use crate::timestamp::Timestamp;
use vstd::prelude::*;
use vstd::string::StrSliceExecFns;
use vstd::string::StringExecFns;

verus! {

broadcast use vstd::string::group_string_axioms;

/// One archive entry handed to planning: its archive-relative name, the
/// transient path its bytes were extracted to, those bytes, and the
/// container metadata gathered for the extracted file.
#[derive(Debug, Clone, PartialEq)]
pub struct ZipEntryInput {
    pub name: String,
    pub temp_path: String,
    pub data: Vec<u8>,
    pub meta: ContainerMeta,
}

/// Whether an entry is processed, and the date it resolves to: directory
/// entries and unsupported names are skipped as `FileNotSupported`; then
/// date discovery runs against the extracted file; an entry name without a
/// file component cannot be placed and is an `IoError`.
pub open spec fn zip_entry_verdict(
    name: Seq<char>,
    temp_path: Seq<char>,
    tag: Option<Option<Seq<char>>>,
    ct: Option<Seq<char>>,
    streams: Seq<Option<Seq<char>>>,
) -> Result<Timestamp, PsErrorKind> {
    if name.len() > 0 && name[name.len() - 1] == '/' {
        Err(PsErrorKind::FileNotSupported)
    } else if !is_supported_name(name) {
        Err(PsErrorKind::FileNotSupported)
    } else {
        match discover_spec(temp_path, tag, ct, streams) {
            Err(k) => Err(k),
            Ok(t) => if file_name_spec(name) is None {
                Err(PsErrorKind::IoError)
            } else {
                Ok(t)
            },
        }
    }
}

/// How the result of planning one archive entry relates to the entry: the
/// verdict's error kind on failure; on success, a photo dated and pathed at
/// the extraction site with the synthesized destination attached (named
/// after the archive-relative entry, not the transient file), and a plan
/// that moves it there — or no mutation at all on a dry run.
pub open spec fn zip_entry_result_rel(
    dest: Seq<char>,
    dry_run: bool,
    entry: ZipEntryInput,
    r: Result<(Photo, RelocationPlan), PsError>,
) -> bool {
    let verdict = zip_entry_verdict(
        entry.name@,
        entry.temp_path@,
        exif_datetime_of(entry.data@),
        entry.meta.ct(),
        entry.meta.streams(),
    );
    match verdict {
        Err(k) => r is Err && r->Err_0.kind == k,
        Ok(t) => {
            let np = synthesized_path(dest, t, file_name_spec(entry.name@)->0);
            match parent_spec(np) {
                None => r is Err && r->Err_0.kind == PsErrorKind::IoError,
                Some(dir) => {
                    &&& r is Ok
                    &&& r->Ok_0.0.date == Some(t)
                    &&& r->Ok_0.0.path is Some && r->Ok_0.0.path->0@ == entry.temp_path@
                    &&& r->Ok_0.0.new_path is Some && r->Ok_0.0.new_path->0@ == np
                    &&& (dry_run ==> !r->Ok_0.1.mutates())
                    &&& (!dry_run ==> {
                        &&& r->Ok_0.1.ensure_dir is Some && r->Ok_0.1.ensure_dir->0@ == dir
                        &&& r->Ok_0.1.op is Some
                        &&& r->Ok_0.1.op->0.is_move()
                        &&& r->Ok_0.1.op->0.from_spec() == entry.temp_path@
                        &&& r->Ok_0.1.op->0.to_spec() == np
                    })
                },
            }
        },
    }
}

/// Plans one archive entry against the destination root and dry-run flag of
/// `cfg`, as `zip_entry_result_rel` describes.
pub fn plan_zip_entry(cfg: &Config, entry: &ZipEntryInput) -> (r: Result<
    (Photo, RelocationPlan),
    PsError,
>)
    ensures
        zip_entry_result_rel(cfg.destination@, cfg.dry_run, *entry, r),
{
    let name_len = entry.name.as_str().unicode_len();
    let is_dir = if name_len > 0 {
        entry.name.as_str().get_char(name_len - 1) == '/'
    } else {
        false
    };
    if is_dir || !is_supported_file(entry.name.as_str()) {
        return Err(
            PsError::new(
                PsErrorKind::FileNotSupported,
                String::from_str("File not supported: ").concat(entry.name.as_str()),
            ),
        );
    }
    let mut photo = match discover_file(entry.temp_path.as_str(), &entry.data, &entry.meta) {
        Ok(p) => p,
        Err(e) => {
            return Err(e);
        },
    };
    let arch_name = match file_name_of(entry.name.as_str()) {
        Some(n) => n,
        None => {
            return Err(
                PsError::new(
                    PsErrorKind::IoError,
                    String::from_str("no file name in archive entry ").concat(
                        entry.name.as_str(),
                    ),
                ),
            );
        },
    };
    update_photo_new_path(cfg.destination.as_str(), &mut photo, Some(arch_name.as_str()));
    let plan = match move_photo(&photo, true, cfg.dry_run) {
        Ok(pl) => pl,
        Err(e) => {
            return Err(e);
        },
    };
    Ok((photo, plan))
}

/// An entry that planning accepts.
pub open spec fn zip_entry_accepted(dest: Seq<char>, entry: ZipEntryInput) -> bool {
    match zip_entry_verdict(
        entry.name@,
        entry.temp_path@,
        exif_datetime_of(entry.data@),
        entry.meta.ct(),
        entry.meta.streams(),
    ) {
        Err(_) => false,
        Ok(t) => parent_spec(synthesized_path(dest, t, file_name_spec(entry.name@)->0)) is Some,
    }
}

/// How many of the entries planning accepts.
pub open spec fn count_accepted(dest: Seq<char>, entries: Seq<ZipEntryInput>) -> int
    decreases entries.len(),
{
    if entries.len() == 0 {
        0
    } else {
        count_accepted(dest, entries.drop_last()) + if zip_entry_accepted(
            dest,
            entries.last(),
        ) {
            1int
        } else {
            0int
        }
    }
}

/// Plans every entry of an archive, in enumeration order. Failures are
/// isolated per entry: each yields its own error and the batch always runs
/// to the end, with the count telling how many entries were accepted.
pub fn process_zip_entries(cfg: &Config, entries: &Vec<ZipEntryInput>) -> (r: (
    Vec<Result<(Photo, RelocationPlan), PsError>>,
    u64,
))
    ensures
        r.0@.len() == entries@.len(),
        forall|i: int|
            0 <= i < entries@.len() ==> zip_entry_result_rel(
                cfg.destination@,
                cfg.dry_run,
                #[trigger] entries@[i],
                r.0@[i],
            ),
        r.1 == count_accepted(cfg.destination@, entries@),
{
    let mut results: Vec<Result<(Photo, RelocationPlan), PsError>> = Vec::new();
    let mut count: u64 = 0;
    let mut i: usize = 0;
    while i < entries.len()
        invariant
            i <= entries@.len(),
            results@.len() == i,
            forall|j: int|
                0 <= j < i ==> zip_entry_result_rel(
                    cfg.destination@,
                    cfg.dry_run,
                    #[trigger] entries@[j],
                    results@[j],
                ),
            count == count_accepted(cfg.destination@, entries@.take(i as int)),
            count <= i,
        decreases entries@.len() - i,
    {
        let res = plan_zip_entry(cfg, &entries[i]);
        let ok = res.is_ok();
        proof {
            if ok {
                assert(zip_entry_accepted(cfg.destination@, entries@[i as int]));
            } else {
                assert(!zip_entry_accepted(cfg.destination@, entries@[i as int]));
            }
            assert(entries@.take(i as int + 1).drop_last() =~= entries@.take(i as int));
            assert(entries@.take(i as int + 1).last() == entries@[i as int]);
        }
        results.push(res);
        if ok {
            count += 1;
        }
        i += 1;
    }
    proof {
        assert(entries@.take(entries@.len() as int) =~= entries@);
    }
    (results, count)
}

} // verus!

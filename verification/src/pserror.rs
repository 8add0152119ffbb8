use vstd::prelude::*;

verus! {

/// The failure taxonomy of the pipeline: every per-item failure is reported
/// under one of these kinds.
#[derive(Debug, PartialEq, Eq, Structural, Clone, Copy)]
pub enum PsErrorKind {
    Unknown,
    NoExif,
    FileNotSupported,
    IoError,
    FormatError,
    NoDateField,
}

/// A typed error: its kind, and a human-readable message.
#[derive(Debug, PartialEq, Eq, Clone)]
pub struct PsError {
    pub kind: PsErrorKind,
    pub msg: String,
}

impl PsError {
    pub fn new(kind: PsErrorKind, msg: String) -> (e: PsError)
        ensures
            e.kind == kind,
            e.msg@ == msg@,
    {
        PsError { kind, msg }
    }
}

} // verus!

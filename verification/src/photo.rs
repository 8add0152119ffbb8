use crate::timestamp::Timestamp;
use vstd::prelude::*;
use vstd::string::StringExecFns;

verus! {

/// One discovered media item. `new_path` (the synthesized destination) is
/// only ever attached once the capture date and the source path are known.
#[derive(Debug, Clone, PartialEq)]
pub struct Photo {
    pub date: Option<Timestamp>,
    pub path: Option<String>,
    pub new_path: Option<String>,
}

impl Photo {
    /// Invariant: a destination is only present on an item that already has a
    /// capture date and a source path.
    pub open spec fn wf(self) -> bool {
        self.new_path is Some ==> self.date is Some && self.path is Some
    }

    pub fn new() -> (p: Photo)
        ensures
            p.date is None,
            p.path is None,
            p.new_path is None,
            p.wf(),
    {
        Photo { date: None, path: None, new_path: None }
    }

    pub fn from(path: String, date: Timestamp) -> (p: Photo)
        ensures
            p.date == Some(date),
            p.path == Some(path),
            p.new_path is None,
            p.wf(),
    {
        Photo { date: Some(date), path: Some(path), new_path: None }
    }

    pub fn set_date(&mut self, date: Timestamp)
        ensures
            final(self).date == Some(date),
            final(self).path == old(self).path,
            final(self).new_path == old(self).new_path,
            old(self).wf() ==> final(self).wf(),
    {
        self.date = Some(date);
    }

    pub fn date(&self) -> (d: Option<Timestamp>)
        ensures
            d == self.date,
    {
        self.date
    }

    pub fn set_path(&mut self, path: String)
        ensures
            final(self).path == Some(path),
            final(self).date == old(self).date,
            final(self).new_path == old(self).new_path,
            old(self).wf() ==> final(self).wf(),
    {
        self.path = Some(path);
    }

    pub fn path(&self) -> (p: &Option<String>)
        ensures
            *p == self.path,
    {
        &self.path
    }

    /// Attaches the synthesized destination; per the data-model invariant the
    /// item must already carry a date and a source path.
    pub fn set_new_path(&mut self, new_path: String)
        requires
            old(self).date is Some,
            old(self).path is Some,
        ensures
            final(self).new_path == Some(new_path),
            final(self).date == old(self).date,
            final(self).path == old(self).path,
            final(self).wf(),
    {
        self.new_path = Some(new_path);
    }

    pub fn new_path(&self) -> (p: &Option<String>)
        ensures
            *p == self.new_path,
    {
        &self.new_path
    }
}

impl Default for Photo {
    fn default() -> (p: Photo)
        ensures
            p.date is None,
            p.path is None,
            p.new_path is None,
            p.wf(),
    {
        Photo { date: None, path: None, new_path: None }
    }
}

/// Builds a `Photo` step by step; the finished value is taken with `build`.
#[derive(Debug, PartialEq)]
pub struct PhotoBuilder {
    pub photo: Photo,
}

impl PhotoBuilder {
    pub fn new() -> (b: PhotoBuilder)
        ensures
            b.photo.date is None,
            b.photo.path is None,
            b.photo.new_path is None,
    {
        PhotoBuilder { photo: Photo { date: None, path: None, new_path: None } }
    }

    pub fn with_date(self, date: Timestamp) -> (b: PhotoBuilder)
        ensures
            b.photo.date == Some(date),
            b.photo.path == self.photo.path,
            b.photo.new_path == self.photo.new_path,
    {
        let mut b = self;
        b.photo.set_date(date);
        b
    }

    pub fn with_os_path(self, path: &str) -> (b: PhotoBuilder)
        ensures
            b.photo.path is Some && b.photo.path->0@ == path@,
            b.photo.date == self.photo.date,
            b.photo.new_path == self.photo.new_path,
    {
        let mut b = self;
        b.photo.set_path(String::from_str(path));
        b
    }

    pub fn with_path(self, path: String) -> (b: PhotoBuilder)
        ensures
            b.photo.path == Some(path),
            b.photo.date == self.photo.date,
            b.photo.new_path == self.photo.new_path,
    {
        let mut b = self;
        b.photo.set_path(path);
        b
    }

    pub fn with_new_path(self, new_path: String) -> (b: PhotoBuilder)
        requires
            self.photo.date is Some,
            self.photo.path is Some,
        ensures
            b.photo.new_path == Some(new_path),
            b.photo.date == self.photo.date,
            b.photo.path == self.photo.path,
            b.photo.wf(),
    {
        let mut b = self;
        b.photo.set_new_path(new_path);
        b
    }

    pub fn build(&self) -> (p: Photo)
        ensures
            p == self.photo,
    {
        let date = self.photo.date;
        let path = match &self.photo.path {
            Some(s) => Some(s.clone()),
            None => None,
        };
        let new_path = match &self.photo.new_path {
            Some(s) => Some(s.clone()),
            None => None,
        };
        let p = Photo { date, path, new_path };
        p
    }
}

} // verus!

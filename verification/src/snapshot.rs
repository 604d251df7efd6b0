//! What the library knows of the filesystem: for each path that was probed,
//! whether it exists, is a file, a directory or a symbolic link. A path that
//! was not probed counts as absent. The snapshot is taken by the caller.
use crate::path::{FsPath, PathView};
use vstd::prelude::*;

verus! {

/// The probe result for one path (`exists`, `is_file` and `is_dir` follow
/// symbolic links; `is_symlink` does not).
#[derive(Clone, Copy, Debug, PartialEq, Eq)]
pub struct PathStatus {
    pub exists: bool,
    pub is_file: bool,
    pub is_dir: bool,
    pub is_symlink: bool,
}

/// The status of a path that is not there.
pub open spec fn absent_status() -> PathStatus {
    PathStatus { exists: false, is_file: false, is_dir: false, is_symlink: false }
}

/// One probed path.
#[derive(Clone, Debug, PartialEq, Eq)]
pub struct SnapshotEntry {
    pub path: FsPath,
    pub status: PathStatus,
}

/// The probed paths, in the order they were recorded.
#[derive(Clone, Debug, PartialEq, Eq)]
pub struct FsSnapshot {
    pub entries: Vec<SnapshotEntry>,
}

/// The mathematical value of a snapshot: its entries in order.
pub type FsView = Seq<(PathView, PathStatus)>;

impl View for FsSnapshot {
    type V = FsView;

    open spec fn view(&self) -> FsView {
        self.entries@.map_values(|e: SnapshotEntry| (e.path@, e.status))
    }
}

/// The status recorded for `p`: that of its first entry, or absent.
pub open spec fn status_in(es: FsView, p: PathView) -> PathStatus
    decreases es.len(),
{
    if es.len() == 0 {
        absent_status()
    } else if es[0].0 == p {
        es[0].1
    } else {
        status_in(es.drop_first(), p)
    }
}

pub open spec fn exists_in(es: FsView, p: PathView) -> bool {
    status_in(es, p).exists
}

pub open spec fn is_file_in(es: FsView, p: PathView) -> bool {
    status_in(es, p).is_file
}

pub open spec fn is_dir_in(es: FsView, p: PathView) -> bool {
    status_in(es, p).is_dir
}

pub open spec fn is_symlink_in(es: FsView, p: PathView) -> bool {
    status_in(es, p).is_symlink
}

impl PathStatus {
    /// The status of a path that is not there.
    pub fn absent() -> (r: PathStatus)
        ensures
            r == absent_status(),
    {
        PathStatus { exists: false, is_file: false, is_dir: false, is_symlink: false }
    }

    /// An existing regular file.
    pub fn file() -> (r: PathStatus)
        ensures
            r == (PathStatus { exists: true, is_file: true, is_dir: false, is_symlink: false }),
    {
        PathStatus { exists: true, is_file: true, is_dir: false, is_symlink: false }
    }

    /// An existing directory.
    pub fn dir() -> (r: PathStatus)
        ensures
            r == (PathStatus { exists: true, is_file: false, is_dir: true, is_symlink: false }),
    {
        PathStatus { exists: true, is_file: false, is_dir: true, is_symlink: false }
    }
}

impl FsSnapshot {
    /// A snapshot in which nothing was probed.
    pub fn new() -> (r: FsSnapshot)
        ensures
            r@ == Seq::<(PathView, PathStatus)>::empty(),
    {
        let r = FsSnapshot { entries: Vec::new() };
        assert(r@ =~= Seq::<(PathView, PathStatus)>::empty());
        r
    }

    /// Records the status of one more path (an earlier entry for the same path wins).
    pub fn record(&mut self, path: FsPath, status: PathStatus)
        ensures
            final(self)@ == old(self)@.push((path@, status)),
    {
        let ghost before = self@;
        self.entries.push(SnapshotEntry { path, status });
        assert(self@ =~= before.push((path@, status)));
    }

    /// The status recorded for `p`.
    pub fn status(&self, p: &FsPath) -> (r: PathStatus)
        ensures
            r == status_in(self@, p@),
    {
        let n = self.entries.len();
        let mut i: usize = 0;
        assert(self@.skip(0) =~= self@);
        while i < n
            invariant
                n == self.entries@.len(),
                n == self@.len(),
                i <= n,
                status_in(self@, p@) == status_in(self@.skip(i as int), p@),
            decreases n - i,
        {
            let ghost rest = self@.skip(i as int);
            assert(rest[0] == self@[i as int]);
            assert(rest.drop_first() =~= self@.skip(i + 1));
            if self.entries[i].path.same_as(p) {
                return self.entries[i].status;
            }
            i = i + 1;
        }
        assert(self@.skip(n as int).len() == 0);
        PathStatus::absent()
    }

    pub fn is_present(&self, p: &FsPath) -> (b: bool)
        ensures
            b == exists_in(self@, p@),
    {
        self.status(p).exists
    }

    pub fn is_file(&self, p: &FsPath) -> (b: bool)
        ensures
            b == is_file_in(self@, p@),
    {
        self.status(p).is_file
    }

    pub fn is_dir(&self, p: &FsPath) -> (b: bool)
        ensures
            b == is_dir_in(self@, p@),
    {
        self.status(p).is_dir
    }

    pub fn is_symlink(&self, p: &FsPath) -> (b: bool)
        ensures
            b == is_symlink_in(self@, p@),
    {
        self.status(p).is_symlink
    }
}

} // verus!

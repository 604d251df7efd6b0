//! Guarding one operation against changes between planning and execution:
//! what the operation's paths looked like (existence, size and modification
//! time) is captured, captured again just before the operation runs, and any
//! difference stops it. The probing itself is done by the caller.
use crate::executor::{parent_to_create, FsAction, IoOutcome};
use crate::path::{display_spec, FsPath, PathView};
use crate::plan::{op_type_spec, FileSystemOperation, OpView};
use crate::snapshot::{exists_in, FsSnapshot, FsView};
use crate::text::{cat, cat3, owned};
use vstd::prelude::*;

verus! {

/// Size and modification time (whole seconds since the Unix epoch) of a path:
/// cheap change detection, not an identity of the content.
#[derive(Clone, Copy, Debug, PartialEq, Eq, Structural)]
pub struct FileMetadata {
    pub size: u64,
    pub mtime_secs: u64,
}

/// The metadata read for each probed path; a path whose metadata could not be
/// read (missing, or without a usable modification time) is not listed.
#[derive(Clone, Debug, PartialEq, Eq)]
pub struct MetadataProbe {
    pub entries: Vec<(FsPath, FileMetadata)>,
}

impl View for MetadataProbe {
    type V = Seq<(PathView, FileMetadata)>;

    open spec fn view(&self) -> Seq<(PathView, FileMetadata)> {
        self.entries@.map_values(|e: (FsPath, FileMetadata)| (e.0@, e.1))
    }
}

/// The metadata listed first for `p`.
pub open spec fn metadata_in(es: Seq<(PathView, FileMetadata)>, p: PathView) -> Option<FileMetadata>
    decreases es.len(),
{
    if es.len() == 0 {
        None
    } else if es[0].0 == p {
        Some(es[0].1)
    } else {
        metadata_in(es.drop_first(), p)
    }
}

impl MetadataProbe {
    /// No metadata read.
    pub fn new() -> (r: MetadataProbe)
        ensures
            r@ == Seq::<(PathView, FileMetadata)>::empty(),
    {
        let r = MetadataProbe { entries: Vec::new() };
        assert(r@ =~= Seq::<(PathView, FileMetadata)>::empty());
        r
    }

    /// Records the metadata read for `path`.
    pub fn record(&mut self, path: FsPath, meta: FileMetadata)
        ensures
            final(self)@ == old(self)@.push((path@, meta)),
    {
        let ghost before = self@;
        let ghost pv = path@;
        self.entries.push((path, meta));
        assert(self@ =~= before.push((pv, meta)));
    }
}

impl FileMetadata {
    /// The metadata read for `path`, if it could be read.
    pub fn capture(path: &FsPath, probe: &MetadataProbe) -> (r: Option<FileMetadata>)
        ensures
            r == metadata_in(probe@, path@),
    {
        let ghost v = probe@;
        let mut i: usize = 0;
        assert(v.skip(0) =~= v);
        while i < probe.entries.len()
            invariant
                i <= probe.entries@.len(),
                v == probe@,
                metadata_in(v, path@) == metadata_in(v.skip(i as int), path@),
            decreases probe.entries@.len() - i,
        {
            assert(v.skip(i as int)[0] == (probe.entries@[i as int].0@, probe.entries@[i as int].1));
            assert(v.skip(i as int).drop_first() =~= v.skip(i + 1));
            if probe.entries[i].0.same_as(path) {
                return Some(probe.entries[i].1);
            }
            i = i + 1;
        }
        None
    }
}

/// What an operation expects of its paths: whether the source (for a move or
/// a delete) and the destination (for a move or a directory creation) existed,
/// and their metadata.
#[derive(Clone, Copy, Debug, PartialEq, Eq, Structural)]
pub struct Precondition {
    pub source_existed: bool,
    pub source_metadata: Option<FileMetadata>,
    pub dest_existed: bool,
    pub dest_metadata: Option<FileMetadata>,
}

/// The path an operation reads from and the one it writes, when it has them.
pub open spec fn guarded_paths(op: OpView) -> (Option<PathView>, Option<PathView>) {
    match op {
        OpView::Move { source, dest } => (Some(source), Some(dest)),
        OpView::CreateDir { path } => (None, Some(path)),
        OpView::Delete { path, .. } => (Some(path), None),
    }
}

/// The precondition of an operation as the probes show it.
pub open spec fn capture_spec(op: OpView, fs: FsView, meta: Seq<(PathView, FileMetadata)>) -> Precondition {
    let (s, d) = guarded_paths(op);
    Precondition {
        source_existed: match s {
            Some(p) => exists_in(fs, p),
            None => false,
        },
        source_metadata: match s {
            Some(p) => metadata_in(meta, p),
            None => None,
        },
        dest_existed: match d {
            Some(p) => exists_in(fs, p),
            None => false,
        },
        dest_metadata: match d {
            Some(p) => metadata_in(meta, p),
            None => None,
        },
    }
}

/// A path is as it was: if it existed it still does with readable, equal
/// metadata; if it did not, it still does not.
pub open spec fn path_unchanged(existed: bool, metadata: Option<FileMetadata>, p: PathView, fs: FsView, meta: Seq<(PathView, FileMetadata)>) -> bool {
    if existed {
        exists_in(fs, p) && metadata_in(meta, p) is Some && metadata_in(meta, p) == metadata
    } else {
        !exists_in(fs, p)
    }
}

/// The operation's paths are as the precondition records them.
pub open spec fn unchanged_spec(pre: Precondition, op: OpView, fs: FsView, meta: Seq<(PathView, FileMetadata)>) -> bool {
    let (s, d) = guarded_paths(op);
    &&& match s {
        Some(p) => path_unchanged(pre.source_existed, pre.source_metadata, p, fs, meta),
        None => true,
    }
    &&& match d {
        Some(p) => path_unchanged(pre.dest_existed, pre.dest_metadata, p, fs, meta),
        None => true,
    }
}

fn paths_of(op: &FileSystemOperation) -> (r: (Option<&FsPath>, Option<&FsPath>))
    ensures
        (match r.0 {
            Some(p) => Some(p@),
            None => None,
        }, match r.1 {
            Some(p) => Some(p@),
            None => None,
        }) == guarded_paths(op@),
{
    match op {
        FileSystemOperation::Move { source, dest } => (Some(source), Some(dest)),
        FileSystemOperation::CreateDir { path } => (None, Some(path)),
        FileSystemOperation::Delete { path, .. } => (Some(path), None),
    }
}

fn path_unchanged_exec(existed: bool, metadata: Option<FileMetadata>, p: &FsPath, fs: &FsSnapshot, meta: &MetadataProbe) -> (b: bool)
    ensures
        b == path_unchanged(existed, metadata, p@, fs@, meta@),
{
    let now_exists = fs.is_present(p);
    let now_meta = FileMetadata::capture(p, meta);
    if existed {
        if !now_exists {
            return false;
        }
        match now_meta {
            None => false,
            Some(m) => match metadata {
                Some(old) => m == old,
                None => false,
            },
        }
    } else {
        !now_exists
    }
}

impl Precondition {
    /// What the operation's paths look like now.
    pub fn capture(op: &FileSystemOperation, fs: &FsSnapshot, meta: &MetadataProbe) -> (r: Precondition)
        ensures
            r == capture_spec(op@, fs@, meta@),
    {
        let (s, d) = paths_of(op);
        let source_existed = match s {
            Some(p) => fs.is_present(p),
            None => false,
        };
        let source_metadata = match s {
            Some(p) => FileMetadata::capture(p, meta),
            None => None,
        };
        let dest_existed = match d {
            Some(p) => fs.is_present(p),
            None => false,
        };
        let dest_metadata = match d {
            Some(p) => FileMetadata::capture(p, meta),
            None => None,
        };
        Precondition { source_existed, source_metadata, dest_existed, dest_metadata }
    }

    /// Whether the operation's paths are still as this precondition records them.
    pub fn check_unchanged(&self, op: &FileSystemOperation, fs: &FsSnapshot, meta: &MetadataProbe) -> (b: bool)
        ensures
            b == unchanged_spec(*self, op@, fs@, meta@),
    {
        let (s, d) = paths_of(op);
        match s {
            Some(p) => {
                if !path_unchanged_exec(self.source_existed, self.source_metadata, p, fs, meta) {
                    return false;
                }
            },
            None => {},
        }
        match d {
            Some(p) => {
                if !path_unchanged_exec(self.dest_existed, self.dest_metadata, p, fs, meta) {
                    return false;
                }
            },
            None => {},
        }
        true
    }
}

/// The outcome of a guarded operation.
#[derive(Clone, Debug, PartialEq, Eq)]
pub enum ExecutionResult {
    Success,
    Conflict(String),
    Failed(String),
}

pub enum ExecutionResultView {
    Success,
    Conflict(Seq<char>),
    Failed(Seq<char>),
}

impl View for ExecutionResult {
    type V = ExecutionResultView;

    open spec fn view(&self) -> ExecutionResultView {
        match self {
            ExecutionResult::Success => ExecutionResultView::Success,
            ExecutionResult::Conflict(m) => ExecutionResultView::Conflict(m@),
            ExecutionResult::Failed(m) => ExecutionResultView::Failed(m@),
        }
    }
}

impl ExecutionResult {
    pub fn is_success(&self) -> (b: bool)
        ensures
            b == (self@ is Success),
    {
        match self {
            ExecutionResult::Success => true,
            _ => false,
        }
    }

    pub fn is_conflict(&self) -> (b: bool)
        ensures
            b == (self@ is Conflict),
    {
        match self {
            ExecutionResult::Conflict(_) => true,
            _ => false,
        }
    }

    pub fn is_failed(&self) -> (b: bool)
        ensures
            b == (self@ is Failed),
    {
        match self {
            ExecutionResult::Failed(_) => true,
            _ => false,
        }
    }
}

/// What a guarded operation needs once its precondition still holds: a
/// result settled without touching the filesystem, or an action for the caller.
#[derive(Clone, Debug, PartialEq, Eq)]
pub enum GuardStep {
    Settled(ExecutionResult),
    Perform(FsAction),
}

pub open spec fn conflict_message(op: OpView) -> Seq<char> {
    "TOCTOU: Filesystem state changed between precondition capture and execution for "@ + op_type_spec(op)
        + " operation"@
}

/// How a guarded operation proceeds: a precondition that changed since it was
/// captured is a conflict; otherwise a move of a missing source or onto itself
/// fails, an existing directory counts as created, a missing delete target
/// fails, and the rest is carried out.
pub open spec fn guard_spec(stored: Precondition, current: Precondition, op: OpView, fs: FsView) -> Result<ExecutionResultView, FsAction> {
    if current != stored {
        Ok(ExecutionResultView::Conflict(conflict_message(op)))
    } else {
        match op {
            OpView::Move { source, dest } => if !exists_in(fs, source) {
                Ok(ExecutionResultView::Failed("Source not found: "@ + display_spec(source)))
            } else if source == dest {
                Ok(ExecutionResultView::Failed("Source equals destination"@))
            } else {
                Err(FsAction::Rename { create_parent: None })
            },
            OpView::CreateDir { path } => if exists_in(fs, path) {
                Ok(ExecutionResultView::Success)
            } else {
                Err(FsAction::CreateDirAll)
            },
            OpView::Delete { path, .. } => if !exists_in(fs, path) {
                Ok(ExecutionResultView::Failed("Delete target not found: "@ + display_spec(path)))
            } else {
                Err(FsAction::RemoveFile)
            },
        }
    }
}

/// The precondition captured afresh must equal the stored one before the
/// operation runs; then it proceeds as `guard_spec` says (for a move the
/// action names the destination's missing parent, if any).
pub fn guard_check(stored: &Precondition, current: &Precondition, op: &FileSystemOperation, fs: &FsSnapshot) -> (r: GuardStep)
    ensures
        match guard_spec(*stored, *current, op@, fs@) {
            Ok(res) => r is Settled && r->Settled_0@ == res,
            Err(action) => r is Perform && match op@ {
                OpView::Move { dest, .. } => r->Perform_0 is Rename && match parent_to_create(dest, fs@) {
                    Some(p) => r->Perform_0->create_parent is Some && r->Perform_0->create_parent->0@ == p,
                    None => r->Perform_0->create_parent is None,
                },
                _ => r->Perform_0 == action,
            },
        },
{
    if *current != *stored {
        let m = cat3(
            "TOCTOU: Filesystem state changed between precondition capture and execution for ",
            op.operation_type(),
            " operation",
        );
        return GuardStep::Settled(ExecutionResult::Conflict(m));
    }
    match op {
        FileSystemOperation::Move { source, dest } => {
            if !fs.is_present(source) {
                return GuardStep::Settled(ExecutionResult::Failed(cat("Source not found: ", source.display().as_str())));
            }
            if source.same_as(dest) {
                return GuardStep::Settled(ExecutionResult::Failed(owned("Source equals destination")));
            }
            let parent = match dest.parent() {
                Some(p) => p,
                None => dest.copy(),
            };
            if !fs.is_present(&parent) {
                GuardStep::Perform(FsAction::Rename { create_parent: Some(parent) })
            } else {
                GuardStep::Perform(FsAction::Rename { create_parent: None })
            }
        },
        FileSystemOperation::CreateDir { path } => {
            if fs.is_present(path) {
                return GuardStep::Settled(ExecutionResult::Success);
            }
            GuardStep::Perform(FsAction::CreateDirAll)
        },
        FileSystemOperation::Delete { path, .. } => {
            if !fs.is_present(path) {
                return GuardStep::Settled(
                    ExecutionResult::Failed(cat("Delete target not found: ", path.display().as_str())),
                );
            }
            GuardStep::Perform(FsAction::RemoveFile)
        },
    }
}

/// The result of a guarded action the caller carried out.
pub open spec fn guarded_outcome(op: OpView, io: IoOutcome) -> ExecutionResultView {
    match io {
        IoOutcome::Done => ExecutionResultView::Success,
        IoOutcome::ParentFailed(e) => ExecutionResultView::Failed("Failed to create parent: "@ + e@),
        IoOutcome::Failed(e) => match op {
            OpView::Move { .. } => ExecutionResultView::Failed("Rename failed: "@ + e@),
            OpView::CreateDir { .. } => ExecutionResultView::Failed("CreateDir failed: "@ + e@),
            OpView::Delete { .. } => ExecutionResultView::Failed("Delete failed: "@ + e@),
        },
    }
}

/// The result of a guarded action, from what carrying it out gave.
pub fn guard_conclude(op: &FileSystemOperation, io: &IoOutcome) -> (r: ExecutionResult)
    ensures
        r@ == guarded_outcome(op@, *io),
{
    match io {
        IoOutcome::Done => ExecutionResult::Success,
        IoOutcome::ParentFailed(e) => ExecutionResult::Failed(cat("Failed to create parent: ", e.as_str())),
        IoOutcome::Failed(e) => match op {
            FileSystemOperation::Move { .. } => ExecutionResult::Failed(cat("Rename failed: ", e.as_str())),
            FileSystemOperation::CreateDir { .. } => ExecutionResult::Failed(cat("CreateDir failed: ", e.as_str())),
            FileSystemOperation::Delete { .. } => ExecutionResult::Failed(cat("Delete failed: ", e.as_str())),
        },
    }
}

/// Capturing and then checking with nothing changed in between never reports
/// a change, provided the metadata of each of the operation's paths that
/// exists could be read (a path that exists without readable metadata always
/// counts as changed).
pub proof fn law_capture_then_check(op: OpView, fs: FsView, meta: Seq<(PathView, FileMetadata)>)
    requires
        guarded_paths(op).0 matches Some(p) ==> (exists_in(fs, p) ==> metadata_in(meta, p) is Some),
        guarded_paths(op).1 matches Some(p) ==> (exists_in(fs, p) ==> metadata_in(meta, p) is Some),
    ensures
        unchanged_spec(capture_spec(op, fs, meta), op, fs, meta),
{
}


/// A precondition that drifted is never acted on: when the precondition
/// captured just before running differs from the stored one, the guard
/// settles on a conflict naming the operation and asks for no filesystem work.
pub proof fn law_drift_never_executes(stored: Precondition, current: Precondition, op: OpView, fs: FsView)
    requires
        current != stored,
    ensures
        guard_spec(stored, current, op, fs) == Ok::<ExecutionResultView, FsAction>(
            ExecutionResultView::Conflict(conflict_message(op)),
        ),
{
}

/// A path that appeared or disappeared since capture is always noticed: if
/// the operation's source or destination exists now but did not then, or
/// the other way round, the check reports a change.
pub proof fn law_existence_change_detected(
    op: OpView,
    before: FsView,
    now: FsView,
    meta_before: Seq<(PathView, FileMetadata)>,
    meta_now: Seq<(PathView, FileMetadata)>,
)
    requires
        (guarded_paths(op).0 matches Some(p) && exists_in(before, p) != exists_in(now, p)) || (guarded_paths(
            op,
        ).1 matches Some(p) && exists_in(before, p) != exists_in(now, p)),
    ensures
        !unchanged_spec(capture_spec(op, before, meta_before), op, now, meta_now),
{
}

} // verus!

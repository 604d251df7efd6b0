//! Carrying out a validated plan: when it may run, what each operation does
//! given the filesystem, how an observed outcome becomes a log entry, the log
//! and its counts, and the inverse of each logged operation for undo.
use crate::path::{display_spec, parent_spec, FsPath, PathView};
use crate::plan::{ops_view, FileSystemOperation, OpView, OperationPlan, op_type_spec};
use crate::snapshot::{exists_in, FsSnapshot, FsView};
use crate::text::{cat, cat3, decimal, owned, str_eq, usize_to_text, u64_to_text};
use crate::validate::{StatusView, ValidationResult};
use crate::verification::ExecutionVerificationResult;
use vstd::prelude::*;

verus! {

/// What became of one operation.
#[derive(Clone, Debug, PartialEq, Eq)]
pub enum ExecutionStatus {
    Pending,
    Success,
    Failed(String),
    Skipped(String),
    UndoNotSupported,
}

pub enum ExecStatusView {
    Pending,
    Success,
    Failed(Seq<char>),
    Skipped(Seq<char>),
    UndoNotSupported,
}

impl View for ExecutionStatus {
    type V = ExecStatusView;

    open spec fn view(&self) -> ExecStatusView {
        match self {
            ExecutionStatus::Pending => ExecStatusView::Pending,
            ExecutionStatus::Success => ExecStatusView::Success,
            ExecutionStatus::Failed(m) => ExecStatusView::Failed(m@),
            ExecutionStatus::Skipped(m) => ExecStatusView::Skipped(m@),
            ExecutionStatus::UndoNotSupported => ExecStatusView::UndoNotSupported,
        }
    }
}

impl ExecutionStatus {
    pub fn is_success(&self) -> (b: bool)
        ensures
            b == (self@ is Success),
    {
        match self {
            ExecutionStatus::Success => true,
            _ => false,
        }
    }

    pub fn is_failed(&self) -> (b: bool)
        ensures
            b == (self@ is Failed),
    {
        match self {
            ExecutionStatus::Failed(_) => true,
            _ => false,
        }
    }

    pub fn is_skipped(&self) -> (b: bool)
        ensures
            b == (self@ is Skipped),
    {
        match self {
            ExecutionStatus::Skipped(_) => true,
            _ => false,
        }
    }

    pub fn is_pending(&self) -> (b: bool)
        ensures
            b == (self@ is Pending),
    {
        match self {
            ExecutionStatus::Pending => true,
            _ => false,
        }
    }

    pub fn copy(&self) -> (r: ExecutionStatus)
        ensures
            r@ == self@,
    {
        match self {
            ExecutionStatus::Pending => ExecutionStatus::Pending,
            ExecutionStatus::Success => ExecutionStatus::Success,
            ExecutionStatus::Failed(m) => ExecutionStatus::Failed(m.clone()),
            ExecutionStatus::Skipped(m) => ExecutionStatus::Skipped(m.clone()),
            ExecutionStatus::UndoNotSupported => ExecutionStatus::UndoNotSupported,
        }
    }
}

/// Why an operation could not be undone.
#[derive(Clone, Debug, PartialEq, Eq)]
pub enum UndoConflict {
    SourceMissing { path: FsPath, message: String },
    TargetExists { path: FsPath, message: String },
    NotUndoable { operation_type: String, message: String },
}

pub open spec fn undo_conflict_description(c: UndoConflict) -> Seq<char> {
    match c {
        UndoConflict::SourceMissing { path, message } => message@ + " — "@ + display_spec(path@),
        UndoConflict::TargetExists { path, message } => message@ + " — "@ + display_spec(path@),
        UndoConflict::NotUndoable { operation_type, message } => message@ + " — "@ + operation_type@,
    }
}

impl UndoConflict {
    /// The conflict as shown to users: its message, then what it concerns.
    pub fn description(&self) -> (r: String)
        ensures
            r@ == undo_conflict_description(*self),
    {
        match self {
            UndoConflict::SourceMissing { path, message } => cat3(message.as_str(), " — ", path.display().as_str()),
            UndoConflict::TargetExists { path, message } => cat3(message.as_str(), " — ", path.display().as_str()),
            UndoConflict::NotUndoable { operation_type, message } => cat3(message.as_str(), " — ", operation_type.as_str()),
        }
    }
}

/// The record of one executed operation.
#[derive(Clone, Debug, PartialEq, Eq)]
pub struct LogEntry {
    pub id: String,
    pub plan_id: String,
    pub operation_type: String,
    pub original_source: FsPath,
    pub applied_target: FsPath,
    pub status: ExecutionStatus,
    pub started_at: u64,
    pub completed_at: Option<u64>,
    pub error: Option<String>,
    pub undo_supported: bool,
}

/// The record of executing a plan, with counts by outcome.
#[derive(Clone, Debug, PartialEq, Eq)]
pub struct OperationLog {
    pub id: String,
    pub plan_id: String,
    pub entries: Vec<LogEntry>,
    pub started_at: u64,
    pub completed_at: Option<u64>,
    pub success_count: usize,
    pub failure_count: usize,
    pub skipped_count: usize,
    pub total_entries: usize,
}

#[verifier::external_type_specification]
#[verifier::external_body]
pub struct ExSystemTime(std::time::SystemTime);

/// `SystemTime::now`: the clock's current reading. Nothing is claimed of it.
#[verifier::external_body]
fn system_now() -> (t: std::time::SystemTime) {
    std::time::SystemTime::now()
}

/// `SystemTime::duration_since(UNIX_EPOCH)`: the time elapsed since the
/// epoch, or nothing when the reading lies before it. Nothing is claimed of
/// which.
#[verifier::external_body]
fn since_epoch(t: std::time::SystemTime) -> (d: Option<std::time::Duration>) {
    t.duration_since(std::time::UNIX_EPOCH).ok()
}

/// `Duration::as_secs`: the whole seconds of a duration. Nothing is claimed of it.
#[verifier::external_body]
fn duration_secs(d: &std::time::Duration) -> (s: u64) {
    d.as_secs()
}

/// The current time in whole seconds since the Unix epoch (0 if the clock is
/// before it). Nothing is claimed of the value.
pub(crate) fn now_secs() -> (r: u64) {
    match since_epoch(system_now()) {
        Some(d) => duration_secs(&d),
        None => 0,
    }
}

/// Number of entries among the first `k` whose status satisfies `pred`.
pub open spec fn count_status(es: Seq<LogEntry>, k: int, pred: spec_fn(ExecStatusView) -> bool) -> nat
    decreases k,
{
    if k <= 0 {
        0
    } else {
        count_status(es, k - 1, pred) + if pred(es[k - 1].status@) { 1nat } else { 0nat }
    }
}

pub open spec fn is_success_view(s: ExecStatusView) -> bool {
    s is Success
}

pub open spec fn is_failed_view(s: ExecStatusView) -> bool {
    s is Failed
}

pub open spec fn is_skipped_view(s: ExecStatusView) -> bool {
    s is Skipped
}

/// The counts of a log agree with its entries.
pub open spec fn log_counts_agree(l: OperationLog) -> bool {
    let es = l.entries@;
    &&& l.success_count == count_status(es, es.len() as int, |s: ExecStatusView| is_success_view(s))
    &&& l.failure_count == count_status(es, es.len() as int, |s: ExecStatusView| is_failed_view(s))
    &&& l.skipped_count == count_status(es, es.len() as int, |s: ExecStatusView| is_skipped_view(s))
    &&& l.total_entries == es.len()
}

/// The entries that undo can reverse: successful and undo-capable.
pub open spec fn undoable_spec(es: Seq<LogEntry>) -> Seq<LogEntry>
    decreases es.len(),
{
    if es.len() == 0 {
        seq![]
    } else {
        let prev = undoable_spec(es.drop_last());
        if (es.last().status@ is Success) && es.last().undo_supported {
            prev.push(es.last())
        } else {
            prev
        }
    }
}

/// The entries undo must report as irreversible: successful but not
/// undo-capable, or recorded as not undoable.
pub open spec fn undo_unsupported_spec(es: Seq<LogEntry>) -> Seq<LogEntry>
    decreases es.len(),
{
    if es.len() == 0 {
        seq![]
    } else {
        let prev = undo_unsupported_spec(es.drop_last());
        let s = es.last().status@;
        if ((s is Success) && !es.last().undo_supported) || (s is UndoNotSupported) {
            prev.push(es.last())
        } else {
            prev
        }
    }
}

/// The failed entries.
pub open spec fn failed_spec(es: Seq<LogEntry>) -> Seq<LogEntry>
    decreases es.len(),
{
    if es.len() == 0 {
        seq![]
    } else {
        let prev = failed_spec(es.drop_last());
        if es.last().status@ is Failed {
            prev.push(es.last())
        } else {
            prev
        }
    }
}

pub open spec fn deref_all(v: Seq<&LogEntry>) -> Seq<LogEntry> {
    v.map_values(|e: &LogEntry| *e)
}

impl OperationLog {
    /// An empty log for a plan, stamped with the current time.
    pub fn new(plan_id: &str) -> (r: OperationLog)
        ensures
            r.id@ == "log-"@ + decimal(r.started_at as nat),
            r.plan_id@ == plan_id@,
            r.entries@.len() == 0,
            r.completed_at is None,
            r.success_count == 0 && r.failure_count == 0 && r.skipped_count == 0 && r.total_entries == 0,
            log_counts_agree(r),
    {
        let now = now_secs();
        OperationLog {
            id: cat("log-", u64_to_text(now).as_str()),
            plan_id: owned(plan_id),
            entries: Vec::new(),
            started_at: now,
            completed_at: None,
            success_count: 0,
            failure_count: 0,
            skipped_count: 0,
            total_entries: 0,
        }
    }

    /// Appends an entry and counts it by its outcome.
    pub fn add_entry(&mut self, entry: LogEntry)
        requires
            old(self).success_count < usize::MAX,
            old(self).failure_count < usize::MAX,
            old(self).skipped_count < usize::MAX,
        ensures
            final(self).entries@ == old(self).entries@.push(entry),
            final(self).success_count == old(self).success_count + if entry.status@ is Success { 1int } else { 0int },
            final(self).failure_count == old(self).failure_count + if entry.status@ is Failed { 1int } else { 0int },
            final(self).skipped_count == old(self).skipped_count + if entry.status@ is Skipped { 1int } else { 0int },
            final(self).total_entries == final(self).entries@.len(),
            final(self).id == old(self).id,
            final(self).plan_id == old(self).plan_id,
            final(self).started_at == old(self).started_at,
            final(self).completed_at == old(self).completed_at,
            log_counts_agree(*old(self)) ==> log_counts_agree(*final(self)),
    {
        if entry.status.is_success() {
            self.success_count = self.success_count + 1;
        } else if entry.status.is_failed() {
            self.failure_count = self.failure_count + 1;
        } else if entry.status.is_skipped() {
            self.skipped_count = self.skipped_count + 1;
        }
        let ghost before = self.entries@;
        self.entries.push(entry);
        self.total_entries = self.entries.len();
        proof {
            let es = self.entries@;
            assert(es.len() == before.len() + 1);
            assert(es[es.len() - 1] == entry);
            lemma_count_prefix(es, before, before.len() as int, |s: ExecStatusView| is_success_view(s));
            lemma_count_prefix(es, before, before.len() as int, |s: ExecStatusView| is_failed_view(s));
            lemma_count_prefix(es, before, before.len() as int, |s: ExecStatusView| is_skipped_view(s));
        }
    }

    /// Stamps the completion time and refreshes the entry count.
    pub fn finalize(&mut self)
        ensures
            final(self).completed_at is Some,
            final(self).total_entries == old(self).entries@.len(),
            final(self).entries == old(self).entries,
            final(self).id == old(self).id,
            final(self).plan_id == old(self).plan_id,
            final(self).started_at == old(self).started_at,
            final(self).success_count == old(self).success_count,
            final(self).failure_count == old(self).failure_count,
            final(self).skipped_count == old(self).skipped_count,
    {
        self.completed_at = Some(now_secs());
        self.total_entries = self.entries.len();
    }

    /// The entries undo can reverse, in log order.
    pub fn undoable_entries(&self) -> (r: Vec<&LogEntry>)
        ensures
            deref_all(r@) == undoable_spec(self.entries@),
    {
        let mut r: Vec<&LogEntry> = Vec::new();
        let mut i: usize = 0;
        while i < self.entries.len()
            invariant
                i <= self.entries@.len(),
                deref_all(r@) == undoable_spec(self.entries@.subrange(0, i as int)),
            decreases self.entries@.len() - i,
        {
            let e = &self.entries[i];
            let ghost prev = deref_all(r@);
            assert(self.entries@.subrange(0, i + 1).drop_last() =~= self.entries@.subrange(0, i as int));
            if e.status.is_success() && e.undo_supported {
                r.push(e);
                assert(deref_all(r@) =~= prev.push(*e));
            }
            i = i + 1;
        }
        assert(self.entries@.subrange(0, i as int) =~= self.entries@);
        r
    }

    /// The entries undo reports as irreversible, in log order.
    pub fn undo_unsupported_entries(&self) -> (r: Vec<&LogEntry>)
        ensures
            deref_all(r@) == undo_unsupported_spec(self.entries@),
    {
        let mut r: Vec<&LogEntry> = Vec::new();
        let mut i: usize = 0;
        while i < self.entries.len()
            invariant
                i <= self.entries@.len(),
                deref_all(r@) == undo_unsupported_spec(self.entries@.subrange(0, i as int)),
            decreases self.entries@.len() - i,
        {
            let e = &self.entries[i];
            let ghost prev = deref_all(r@);
            assert(self.entries@.subrange(0, i + 1).drop_last() =~= self.entries@.subrange(0, i as int));
            let not_undoable = match e.status {
                ExecutionStatus::UndoNotSupported => true,
                _ => false,
            };
            if (e.status.is_success() && !e.undo_supported) || not_undoable {
                r.push(e);
                assert(deref_all(r@) =~= prev.push(*e));
            }
            i = i + 1;
        }
        assert(self.entries@.subrange(0, i as int) =~= self.entries@);
        r
    }

    /// The failed entries, in log order.
    pub fn failed_entries(&self) -> (r: Vec<&LogEntry>)
        ensures
            deref_all(r@) == failed_spec(self.entries@),
    {
        let mut r: Vec<&LogEntry> = Vec::new();
        let mut i: usize = 0;
        while i < self.entries.len()
            invariant
                i <= self.entries@.len(),
                deref_all(r@) == failed_spec(self.entries@.subrange(0, i as int)),
            decreases self.entries@.len() - i,
        {
            let e = &self.entries[i];
            let ghost prev = deref_all(r@);
            assert(self.entries@.subrange(0, i + 1).drop_last() =~= self.entries@.subrange(0, i as int));
            if e.status.is_failed() {
                r.push(e);
                assert(deref_all(r@) =~= prev.push(*e));
            }
            i = i + 1;
        }
        assert(self.entries@.subrange(0, i as int) =~= self.entries@);
        r
    }
}

/// Why a plan could not be applied.
#[derive(Clone, Debug, PartialEq, Eq)]
pub enum ApplyError {
    PlanNotValidated,
    DryRunFlagSet,
    InvalidPlan(String),
    ExecutionError(String),
}

pub enum ApplyErrorView {
    PlanNotValidated,
    DryRunFlagSet,
    InvalidPlan(Seq<char>),
    ExecutionError(Seq<char>),
}

impl View for ApplyError {
    type V = ApplyErrorView;

    open spec fn view(&self) -> ApplyErrorView {
        match self {
            ApplyError::PlanNotValidated => ApplyErrorView::PlanNotValidated,
            ApplyError::DryRunFlagSet => ApplyErrorView::DryRunFlagSet,
            ApplyError::InvalidPlan(m) => ApplyErrorView::InvalidPlan(m@),
            ApplyError::ExecutionError(m) => ApplyErrorView::ExecutionError(m@),
        }
    }
}

pub open spec fn apply_error_message(e: ApplyErrorView) -> Seq<char> {
    match e {
        ApplyErrorView::PlanNotValidated => "Plan has not been validated"@,
        ApplyErrorView::DryRunFlagSet => "Cannot apply a dry-run plan"@,
        ApplyErrorView::InvalidPlan(m) => "Invalid plan: "@ + m,
        ApplyErrorView::ExecutionError(m) => "Execution error: "@ + m,
    }
}

impl ApplyError {
    /// The error as shown to users.
    pub fn message(&self) -> (r: String)
        ensures
            r@ == apply_error_message(self@),
    {
        match self {
            ApplyError::PlanNotValidated => owned("Plan has not been validated"),
            ApplyError::DryRunFlagSet => owned("Cannot apply a dry-run plan"),
            ApplyError::InvalidPlan(m) => cat("Invalid plan: ", m.as_str()),
            ApplyError::ExecutionError(m) => cat("Execution error: ", m.as_str()),
        }
    }
}

/// The outcome of applying a plan.
#[derive(Clone, Debug, PartialEq, Eq)]
pub struct ApplyResult {
    pub plan_id: String,
    pub log: OperationLog,
    pub is_complete: bool,
    pub can_undo: bool,
    pub undo_supported_count: usize,
    pub undo_unsupported_count: usize,
    pub execution_verification: Option<ExecutionVerificationResult>,
}

/// What an operation came to: its status, the error text, and whether it can be undone.
#[derive(Clone, Debug, PartialEq, Eq)]
pub struct StepResult {
    pub status: ExecutionStatus,
    pub error: Option<String>,
    pub can_undo: bool,
}

/// The filesystem work an operation needs: create the destination's parent
/// when given, then rename; create a directory and its parents; remove a file.
#[derive(Clone, Debug, PartialEq, Eq)]
pub enum FsAction {
    Rename { create_parent: Option<FsPath> },
    CreateDirAll,
    RemoveFile,
}

/// Either the operation's result is settled without touching the
/// filesystem, or the caller must carry out an action.
#[derive(Clone, Debug, PartialEq, Eq)]
pub enum StepDecision {
    Settled(StepResult),
    Perform(FsAction),
}

/// What carrying out an action gave: success, a failure to create the
/// parent directory, or a failure of the action itself (with the error text).
#[derive(Clone, Debug, PartialEq, Eq)]
pub enum IoOutcome {
    Done,
    ParentFailed(String),
    Failed(String),
}

/// What the caller observed while executing one operation: when it started
/// and finished, the filesystem as it was just before, and what carrying out
/// the action that `decide` asks for on that filesystem gave (not read when
/// it asks for none).
#[derive(Clone, Debug, PartialEq, Eq)]
pub struct StepRecord {
    pub started_at: u64,
    pub completed_at: u64,
    pub fs: FsSnapshot,
    pub io: IoOutcome,
}

pub open spec fn opt_text(o: Option<String>) -> Option<Seq<char>> {
    match o {
        Some(s) => Some(s@),
        None => None,
    }
}

/// A step result as mathematical values.
pub open spec fn step_view(r: StepResult) -> (ExecStatusView, Option<Seq<char>>, bool) {
    (r.status@, opt_text(r.error), r.can_undo)
}

pub open spec fn failed_step(msg: Seq<char>, can_undo: bool) -> (ExecStatusView, Option<Seq<char>>, bool) {
    (ExecStatusView::Failed(msg), Some(msg), can_undo)
}

/// The verdict validation gave the operation at `idx` is a constraint block.
pub open spec fn blocked_at(v: ValidationResult, idx: int) -> bool {
    0 <= idx < v.validated_operations@.len() && (v.validated_operations@[idx].status@ is Blocked)
}

/// When execution refuses a plan: a dry run; any invalid operation; any
/// conflicting operation, forced or not; any blocked operation unless forced.
pub open spec fn apply_refusal(dry_run: bool, v: ValidationResult, force: bool) -> Option<ApplyErrorView> {
    if dry_run {
        Some(ApplyErrorView::DryRunFlagSet)
    } else if exists|i: int| 0 <= i < v.validated_operations@.len() && (#[trigger] v.validated_operations@[i]).status@ is Invalid {
        Some(ApplyErrorView::InvalidPlan("Plan has INVALID operations (missing source, path outside scope, etc.)"@))
    } else if exists|i: int| 0 <= i < v.validated_operations@.len() && (#[trigger] v.validated_operations@[i]).status@ is Conflict {
        Some(ApplyErrorView::InvalidPlan(CONFLICT_REFUSAL@))
    } else if !force && exists|i: int| 0 <= i < v.validated_operations@.len() && (#[trigger] v.validated_operations@[i]).status@ is Blocked {
        Some(ApplyErrorView::InvalidPlan("Plan has BLOCKED operations (constraint violations). Use --force to override."@))
    } else {
        None
    }
}

/// How an operation is settled before any filesystem work, if it is: a
/// blocked operation under force is skipped; a move of a missing source, or
/// onto itself, fails; an existing directory is skipped; a missing delete
/// target fails.
pub open spec fn settled_spec(op: OpView, blocked_forced: bool, fs: FsView) -> Option<(ExecStatusView, Option<Seq<char>>, bool)> {
    if blocked_forced {
        Some((
            ExecStatusView::Skipped("Blocked by constraint (force override)"@),
            Some("Skipped due to constraint block with --force"@),
            false,
        ))
    } else {
        match op {
            OpView::Move { source, dest } => if !exists_in(fs, source) {
                Some(failed_step("Source not found: "@ + display_spec(source), true))
            } else if source == dest {
                Some(failed_step("Source equals destination"@, true))
            } else {
                None
            },
            OpView::CreateDir { path } => if exists_in(fs, path) {
                Some((
                    ExecStatusView::Skipped("Directory already exists: "@ + display_spec(path)),
                    Some("Directory already exists: "@ + display_spec(path)),
                    false,
                ))
            } else {
                None
            },
            OpView::Delete { path, .. } => if !exists_in(fs, path) {
                Some(failed_step("Delete target not found: "@ + display_spec(path), false))
            } else {
                None
            },
        }
    }
}

/// The parent a move must create first: the destination's parent (or the
/// destination itself when it has none), when that is absent.
pub open spec fn parent_to_create(dest: PathView, fs: FsView) -> Option<PathView> {
    let parent = match parent_spec(dest) {
        Some(p) => p,
        None => dest,
    };
    if !exists_in(fs, parent) {
        Some(parent)
    } else {
        None
    }
}

/// The result an operation comes to once its action was carried out.
pub open spec fn concluded_spec(op: OpView, io: IoOutcome) -> (ExecStatusView, Option<Seq<char>>, bool) {
    match op {
        OpView::Move { .. } => match io {
            IoOutcome::Done => (ExecStatusView::Success, None, true),
            IoOutcome::ParentFailed(e) => failed_step("Failed to create parent: "@ + e@, true),
            IoOutcome::Failed(e) => failed_step("Rename failed: "@ + e@, true),
        },
        OpView::CreateDir { .. } => match io {
            IoOutcome::Done => (ExecStatusView::Success, None, true),
            IoOutcome::ParentFailed(e) => failed_step("CreateDir failed: "@ + e@, true),
            IoOutcome::Failed(e) => failed_step("CreateDir failed: "@ + e@, true),
        },
        OpView::Delete { .. } => match io {
            IoOutcome::Done => (ExecStatusView::UndoNotSupported, None, false),
            IoOutcome::ParentFailed(e) => failed_step("Delete failed: "@ + e@, false),
            IoOutcome::Failed(e) => failed_step("Delete failed: "@ + e@, false),
        },
    }
}

/// The path recorded as an entry's original source.
pub open spec fn extract_source_spec(op: OpView) -> PathView {
    match op {
        OpView::Move { source, .. } => source,
        OpView::Delete { path, .. } => path,
        OpView::CreateDir { path } => path,
    }
}

/// The path recorded as an entry's applied target.
pub open spec fn extract_target_spec(op: OpView) -> PathView {
    match op {
        OpView::Move { dest, .. } => dest,
        OpView::CreateDir { path } => path,
        OpView::Delete { path, .. } => path,
    }
}

pub open spec fn entry_id_spec(plan_id: Seq<char>, idx: nat) -> Seq<char> {
    "entry-"@ + plan_id + "-"@ + decimal(idx)
}

/// What operation `i` of the plan comes to: settled before any filesystem
/// work on the filesystem the caller observed (a blocked operation under
/// force is skipped), or concluded from the outcome the caller reports.
pub open spec fn step_outcome(
    plan: OperationPlan,
    v: ValidationResult,
    force: bool,
    steps: Seq<StepRecord>,
    i: int,
) -> (ExecStatusView, Option<Seq<char>>, bool) {
    let op = plan.operations@[i]@;
    match settled_spec(op, force && blocked_at(v, i), steps[i].fs@) {
        Some(s) => s,
        None => concluded_spec(op, steps[i].io),
    }
}

/// Number of operations among the first `k` whose outcome can be undone.
pub open spec fn count_undoable(plan: OperationPlan, v: ValidationResult, force: bool, steps: Seq<StepRecord>, k: int) -> nat
    decreases k,
{
    if k <= 0 {
        0
    } else {
        count_undoable(plan, v, force, steps, k - 1) + if step_outcome(plan, v, force, steps, k - 1).2 {
            1nat
        } else {
            0nat
        }
    }
}

/// Why a plan with conflicting operations is refused; force does not lift it.
pub const CONFLICT_REFUSAL: &'static str = "Plan has CONFLICT operations (destination exists or duplicate targets). Resolve them before executing; --force does not override conflicts.";

/// The result of running a plan observed as `steps`: one log entry per
/// operation, in order, each with its id, kind, paths, the status, error and
/// undo flag of its `step_outcome`, and the observed times; the log counts
/// agree with the entries; the run is complete when nothing failed or was
/// skipped; the undo counts are those of the outcomes.
pub open spec fn applied_from_steps(
    plan: OperationPlan,
    v: ValidationResult,
    force: bool,
    steps: Seq<StepRecord>,
    a: ApplyResult,
) -> bool {
    let es = a.log.entries@;
    let ops = ops_view(plan.operations@);
    &&& a.plan_id@ == plan.id@
    &&& a.log.plan_id@ == plan.id@
    &&& a.log.completed_at is Some
    &&& log_counts_agree(a.log)
    &&& es.len() == ops.len()
    &&& forall|i: int|
        0 <= i < es.len() ==> {
            &&& (#[trigger] es[i]).id@ == entry_id_spec(plan.id@, i as nat)
            &&& es[i].plan_id@ == plan.id@
            &&& es[i].operation_type@ == op_type_spec(ops[i])
            &&& es[i].original_source@ == extract_source_spec(ops[i])
            &&& es[i].applied_target@ == extract_target_spec(ops[i])
            &&& (es[i].status@, opt_text(es[i].error), es[i].undo_supported) == step_outcome(plan, v, force, steps, i)
            &&& es[i].started_at == steps[i].started_at
            &&& es[i].completed_at == Some(steps[i].completed_at)
        }
    &&& a.is_complete == (a.log.failure_count == 0 && a.log.skipped_count == 0)
    &&& a.undo_supported_count == count_undoable(plan, v, force, steps, ops.len() as int)
    &&& a.undo_unsupported_count == ops.len() - count_undoable(plan, v, force, steps, ops.len() as int)
    &&& a.can_undo == (a.undo_supported_count > 0)
    &&& a.execution_verification is None
}

pub struct Executor;

impl Default for Executor {
    fn default() -> (r: Executor) {
        Executor
    }
}

impl Executor {
    /// Refuses a plan that may not run: a dry run, any invalid operation, any
    /// conflicting operation (force or not), or blocked operations without force.
    pub fn check_applicable(plan: &OperationPlan, validation: &ValidationResult, force: bool) -> (r: Result<(), ApplyError>)
        ensures
            match apply_refusal(plan.dry_run, *validation, force) {
                Some(e) => r is Err && r->Err_0@ == e,
                None => r is Ok,
            },
    {
        if plan.dry_run {
            return Err(ApplyError::DryRunFlagSet);
        }
        let mut has_invalid = false;
        let mut has_conflict = false;
        let mut has_blocked = false;
        let vs = &validation.validated_operations;
        let mut i: usize = 0;
        while i < vs.len()
            invariant
                i <= vs@.len(),
                has_invalid == exists|j: int| 0 <= j < i && (#[trigger] vs@[j]).status@ is Invalid,
                has_conflict == exists|j: int| 0 <= j < i && (#[trigger] vs@[j]).status@ is Conflict,
                has_blocked == exists|j: int| 0 <= j < i && (#[trigger] vs@[j]).status@ is Blocked,
            decreases vs@.len() - i,
        {
            if vs[i].status.is_invalid() {
                has_invalid = true;
            }
            if vs[i].status.is_conflict() {
                has_conflict = true;
            }
            if vs[i].status.is_blocked() {
                has_blocked = true;
            }
            i = i + 1;
        }
        if has_invalid {
            return Err(ApplyError::InvalidPlan(owned("Plan has INVALID operations (missing source, path outside scope, etc.)")));
        }
        if has_conflict {
            return Err(ApplyError::InvalidPlan(owned(CONFLICT_REFUSAL)));
        }
        if has_blocked && !force {
            return Err(ApplyError::InvalidPlan(owned("Plan has BLOCKED operations (constraint violations). Use --force to override.")));
        }
        Ok(())
    }

    /// Decides what operation `idx` needs, given the filesystem as it is now.
    pub fn decide(op: &FileSystemOperation, idx: usize, validation: &ValidationResult, force: bool, fs: &FsSnapshot) -> (r: StepDecision)
        ensures
            match settled_spec(op@, force && blocked_at(*validation, idx as int), fs@) {
                Some(s) => r is Settled && step_view(r->Settled_0) == s,
                None => r is Perform && match op@ {
                    OpView::Move { dest, .. } => r->Perform_0 is Rename && match parent_to_create(dest, fs@) {
                        Some(p) => r->Perform_0->create_parent is Some && r->Perform_0->create_parent->0@ == p,
                        None => r->Perform_0->create_parent is None,
                    },
                    OpView::CreateDir { .. } => r->Perform_0 is CreateDirAll,
                    OpView::Delete { .. } => r->Perform_0 is RemoveFile,
                },
            },
    {
        if force {
            let blocked = idx < validation.validated_operations.len() && validation.validated_operations[idx].status.is_blocked();
            if blocked {
                return StepDecision::Settled(StepResult {
                    status: ExecutionStatus::Skipped(owned("Blocked by constraint (force override)")),
                    error: Some(owned("Skipped due to constraint block with --force")),
                    can_undo: false,
                });
            }
        }
        match op {
            FileSystemOperation::Move { source, dest } => {
                if !fs.is_present(source) {
                    let msg = cat("Source not found: ", source.display().as_str());
                    return StepDecision::Settled(StepResult { status: ExecutionStatus::Failed(msg.clone()), error: Some(msg), can_undo: true });
                }
                if source.same_as(dest) {
                    let msg = owned("Source equals destination");
                    return StepDecision::Settled(StepResult { status: ExecutionStatus::Failed(msg.clone()), error: Some(msg), can_undo: true });
                }
                let parent = match dest.parent() {
                    Some(p) => p,
                    None => dest.copy(),
                };
                if !fs.is_present(&parent) {
                    StepDecision::Perform(FsAction::Rename { create_parent: Some(parent) })
                } else {
                    StepDecision::Perform(FsAction::Rename { create_parent: None })
                }
            },
            FileSystemOperation::CreateDir { path } => {
                if fs.is_present(path) {
                    let msg = cat("Directory already exists: ", path.display().as_str());
                    return StepDecision::Settled(StepResult { status: ExecutionStatus::Skipped(msg.clone()), error: Some(msg), can_undo: false });
                }
                StepDecision::Perform(FsAction::CreateDirAll)
            },
            FileSystemOperation::Delete { path, .. } => {
                if !fs.is_present(path) {
                    let msg = cat("Delete target not found: ", path.display().as_str());
                    return StepDecision::Settled(StepResult { status: ExecutionStatus::Failed(msg.clone()), error: Some(msg), can_undo: false });
                }
                StepDecision::Perform(FsAction::RemoveFile)
            },
        }
    }

    /// The result an operation comes to once its action was carried out.
    pub fn conclude(op: &FileSystemOperation, io: &IoOutcome) -> (r: StepResult)
        ensures
            step_view(r) == concluded_spec(op@, *io),
    {
        let fail = |m: String, undo: bool| -> (s: StepResult)
            ensures
                step_view(s) == failed_step(m@, undo),
        { StepResult { status: ExecutionStatus::Failed(m.clone()), error: Some(m), can_undo: undo } };
        match op {
            FileSystemOperation::Move { .. } => match io {
                IoOutcome::Done => StepResult { status: ExecutionStatus::Success, error: None, can_undo: true },
                IoOutcome::ParentFailed(e) => fail(cat("Failed to create parent: ", e.as_str()), true),
                IoOutcome::Failed(e) => fail(cat("Rename failed: ", e.as_str()), true),
            },
            FileSystemOperation::CreateDir { .. } => match io {
                IoOutcome::Done => StepResult { status: ExecutionStatus::Success, error: None, can_undo: true },
                IoOutcome::ParentFailed(e) => fail(cat("CreateDir failed: ", e.as_str()), true),
                IoOutcome::Failed(e) => fail(cat("CreateDir failed: ", e.as_str()), true),
            },
            FileSystemOperation::Delete { .. } => match io {
                IoOutcome::Done => StepResult { status: ExecutionStatus::UndoNotSupported, error: None, can_undo: false },
                IoOutcome::ParentFailed(e) => fail(cat("Delete failed: ", e.as_str()), false),
                IoOutcome::Failed(e) => fail(cat("Delete failed: ", e.as_str()), false),
            },
        }
    }

    /// The path recorded as an entry's original source.
    pub fn extract_source(op: &FileSystemOperation) -> (r: FsPath)
        ensures
            r@ == extract_source_spec(op@),
    {
        match op {
            FileSystemOperation::Move { source, .. } => source.copy(),
            FileSystemOperation::Delete { path, .. } => path.copy(),
            FileSystemOperation::CreateDir { path } => path.copy(),
        }
    }

    /// The path recorded as an entry's applied target.
    pub fn extract_target(op: &FileSystemOperation) -> (r: FsPath)
        ensures
            r@ == extract_target_spec(op@),
    {
        match op {
            FileSystemOperation::Move { dest, .. } => dest.copy(),
            FileSystemOperation::CreateDir { path } => path.copy(),
            FileSystemOperation::Delete { path, .. } => path.copy(),
        }
    }

    /// Records an executed plan. The plan is refused as `check_applicable`
    /// says; otherwise each operation, in order, comes to what `decide` gives
    /// on the filesystem the caller observed before it, or, when an action was
    /// needed, to what `conclude` makes of the caller's outcome; the log holds
    /// one entry per operation, and the result is complete when nothing failed
    /// or was skipped.
    pub fn execute_with_options(
        &self,
        plan: &OperationPlan,
        validation: &ValidationResult,
        force: bool,
        steps: &Vec<StepRecord>,
    ) -> (r: Result<ApplyResult, ApplyError>)
        requires
            steps@.len() == plan.operations@.len(),
            plan.operations@.len() < usize::MAX,
        ensures
            match apply_refusal(plan.dry_run, *validation, force) {
                Some(e) => r is Err && r->Err_0@ == e,
                None => r is Ok && applied_from_steps(*plan, *validation, force, steps@, r->Ok_0),
            },
    {
        match Self::check_applicable(plan, validation, force) {
            Err(e) => return Err(e),
            Ok(()) => {},
        }
        let mut log = OperationLog::new(plan.id.as_str());
        let mut undo_supported_count: usize = 0;
        let mut undo_unsupported_count: usize = 0;
        let ops = &plan.operations;
        let n = ops.len();
        let mut idx: usize = 0;
        while idx < n
            invariant
                ops@ == plan.operations@,
                n == ops@.len(),
                n == steps@.len(),
                n < usize::MAX,
                idx <= n,
                log.plan_id@ == plan.id@,
                log_counts_agree(log),
                log.entries@.len() == idx,
                log.success_count <= idx && log.failure_count <= idx && log.skipped_count <= idx,
                undo_supported_count == count_undoable(*plan, *validation, force, steps@, idx as int),
                undo_supported_count + undo_unsupported_count == idx,
                forall|i: int|
                    0 <= i < idx ==> {
                        &&& (#[trigger] log.entries@[i]).id@ == entry_id_spec(plan.id@, i as nat)
                        &&& log.entries@[i].plan_id@ == plan.id@
                        &&& log.entries@[i].operation_type@ == op_type_spec(ops@[i]@)
                        &&& log.entries@[i].original_source@ == extract_source_spec(ops@[i]@)
                        &&& log.entries@[i].applied_target@ == extract_target_spec(ops@[i]@)
                        &&& (log.entries@[i].status@, opt_text(log.entries@[i].error), log.entries@[i].undo_supported)
                            == step_outcome(*plan, *validation, force, steps@, i)
                        &&& log.entries@[i].started_at == steps@[i].started_at
                        &&& log.entries@[i].completed_at == Some(steps@[i].completed_at)
                    },
            decreases n - idx,
        {
            let op = &ops[idx];
            let step = &steps[idx];
            assert(op@ == plan.operations@[idx as int]@ && step.fs@ == steps@[idx as int].fs@ && step.io == steps@[idx as int].io);
            let d = Self::decide(op, idx, validation, force, &step.fs);
            let result = match d {
                StepDecision::Settled(r) => r,
                StepDecision::Perform(_) => {
                    assert(settled_spec(op@, force && blocked_at(*validation, idx as int), step.fs@) is None);
                    Self::conclude(op, &step.io)
                },
            };
            assert(step_view(result) == step_outcome(*plan, *validation, force, steps@, idx as int));
            let a = cat3("entry-", plan.id.as_str(), "-");
            let id = cat(a.as_str(), usize_to_text(idx).as_str());
            if result.can_undo {
                undo_supported_count = undo_supported_count + 1;
            } else {
                undo_unsupported_count = undo_unsupported_count + 1;
            }
            let error = match &result.error {
                Some(e) => Some(e.clone()),
                None => None,
            };
            let entry = LogEntry {
                id,
                plan_id: plan.id.clone(),
                operation_type: owned(op.operation_type()),
                original_source: Self::extract_source(op),
                applied_target: Self::extract_target(op),
                status: result.status.copy(),
                started_at: step.started_at,
                completed_at: Some(step.completed_at),
                error,
                undo_supported: result.can_undo,
            };
            log.add_entry(entry);
            idx = idx + 1;
        }
        log.finalize();
        let is_complete = log.failure_count == 0 && log.skipped_count == 0;
        let can_undo = undo_supported_count > 0;
        Ok(ApplyResult {
            plan_id: plan.id.clone(),
            log,
            is_complete,
            can_undo,
            undo_supported_count,
            undo_unsupported_count,
            execution_verification: None,
        })
    }

    /// `execute_with_options` without force.
    pub fn execute(&self, plan: &OperationPlan, validation: &ValidationResult, _dry_run: bool, steps: &Vec<StepRecord>) -> (r: Result<ApplyResult, ApplyError>)
        requires
            steps@.len() == plan.operations@.len(),
            plan.operations@.len() < usize::MAX,
        ensures
            match apply_refusal(plan.dry_run, *validation, false) {
                Some(e) => r is Err && r->Err_0@ == e,
                None => r is Ok && applied_from_steps(*plan, *validation, false, steps@, r->Ok_0),
            },
    {
        self.execute_with_options(plan, validation, false, steps)
    }

    /// The operation that reverses a logged one, and its kind: a move is moved
    /// back, a created directory is deleted, a deleted path is moved back from
    /// its recorded target; other kinds have none.
    pub fn generate_undo_operation(&self, entry: &LogEntry) -> (r: Option<(FileSystemOperation, String)>)
        ensures
            match r {
                Some(x) => undo_of(entry.operation_type@, entry.original_source@, entry.applied_target@) == Some((x.0@, x.1@)),
                None => undo_of(entry.operation_type@, entry.original_source@, entry.applied_target@) is None,
            },
    {
        let t = entry.operation_type.as_str();
        if str_eq(t, "move") {
            Some((
                FileSystemOperation::Move { source: entry.applied_target.copy(), dest: entry.original_source.copy() },
                owned("move"),
            ))
        } else if str_eq(t, "create_dir") {
            Some((
                FileSystemOperation::Delete { path: entry.original_source.copy(), reason: owned("undo create_dir") },
                owned("delete"),
            ))
        } else if str_eq(t, "delete") {
            Some((
                FileSystemOperation::Move { source: entry.original_source.copy(), dest: entry.applied_target.copy() },
                owned("move"),
            ))
        } else {
            None
        }
    }
}

/// The reversing operation for an entry of the given kind.
pub open spec fn undo_of(kind: Seq<char>, original: PathView, applied: PathView) -> Option<(OpView, Seq<char>)> {
    if kind == "move"@ {
        Some((OpView::Move { source: applied, dest: original }, "move"@))
    } else if kind == "create_dir"@ {
        Some((OpView::Delete { path: original, reason: "undo create_dir"@ }, "delete"@))
    } else if kind == "delete"@ {
        Some((OpView::Move { source: original, dest: applied }, "move"@))
    } else {
        None
    }
}

/// Counting over a prefix only reads that prefix.
proof fn lemma_count_prefix(a: Seq<LogEntry>, b: Seq<LogEntry>, k: int, pred: spec_fn(ExecStatusView) -> bool)
    requires
        0 <= k <= b.len(),
        k <= a.len(),
        forall|j: int| 0 <= j < k ==> a[j] == b[j],
    ensures
        count_status(a, k, pred) == count_status(b, k, pred),
    decreases k,
{
    if k > 0 {
        lemma_count_prefix(a, b, k - 1, pred);
    }
}


// ------------------------------------------------------ undo

pub enum ConflictView {
    SourceMissing { path: PathView, message: Seq<char> },
    TargetExists { path: PathView, message: Seq<char> },
    NotUndoable { operation_type: Seq<char>, message: Seq<char> },
}

impl View for UndoConflict {
    type V = ConflictView;

    open spec fn view(&self) -> ConflictView {
        match self {
            UndoConflict::SourceMissing { path, message } => ConflictView::SourceMissing { path: path@, message: message@ },
            UndoConflict::TargetExists { path, message } => ConflictView::TargetExists { path: path@, message: message@ },
            UndoConflict::NotUndoable { operation_type, message } => ConflictView::NotUndoable {
                operation_type: operation_type@,
                message: message@,
            },
        }
    }
}

/// One reversal carried out while undoing.
#[derive(Clone, Debug, PartialEq, Eq)]
pub struct UndoLogEntry {
    pub entry_id: String,
    pub operation_type: String,
    pub source: FsPath,
    pub dest: FsPath,
    pub status: ExecutionStatus,
    pub error: Option<String>,
}

pub struct UndoEntryView {
    pub entry_id: Seq<char>,
    pub operation_type: Seq<char>,
    pub source: PathView,
    pub dest: PathView,
    pub status: ExecStatusView,
    pub error: Option<Seq<char>>,
}

impl View for UndoLogEntry {
    type V = UndoEntryView;

    open spec fn view(&self) -> UndoEntryView {
        UndoEntryView {
            entry_id: self.entry_id@,
            operation_type: self.operation_type@,
            source: self.source@,
            dest: self.dest@,
            status: self.status@,
            error: opt_text(self.error),
        }
    }
}

/// The outcome of undoing a log.
#[derive(Clone, Debug, PartialEq, Eq)]
pub struct UndoResult {
    pub log_id: String,
    pub applied_undoes: Vec<UndoLogEntry>,
    pub conflicts: Vec<UndoConflict>,
    pub total_undo_operations: usize,
    pub completed_at: u64,
}

/// What reversing one entry needs, given the filesystem as it is now: the
/// entry cannot be reversed; a path is in the way; or the caller must create
/// `create_parent` when given and then rename `source` to `dest`.
#[derive(Clone, Debug, PartialEq, Eq)]
pub enum UndoStep {
    NotUndoable(UndoConflict),
    Conflict(UndoConflict),
    Perform { operation_type: String, source: FsPath, dest: FsPath, create_parent: Option<FsPath> },
}

/// What the caller observed while reversing one undoable entry: the
/// filesystem as it was when the entry was reached, and what carrying out the
/// rename that `undo_step` asks for on that filesystem gave (not read when it
/// asks for none).
#[derive(Clone, Debug, PartialEq, Eq)]
pub struct UndoRecord {
    pub fs: FsSnapshot,
    pub io: IoOutcome,
}

/// The path a reversing operation reads from and the one it writes.
pub open spec fn undo_paths(op: OpView) -> (PathView, PathView) {
    match op {
        OpView::Move { source, dest } => (source, dest),
        OpView::Delete { path, .. } => (path, path),
        OpView::CreateDir { path } => (path, path),
    }
}

pub enum UndoStepView {
    NotUndoable(ConflictView),
    Conflict(ConflictView),
    Perform { operation_type: Seq<char>, source: PathView, dest: PathView, create_parent: Option<PathView> },
}

pub open spec fn undo_step_view(s: UndoStep) -> UndoStepView {
    match s {
        UndoStep::NotUndoable(c) => UndoStepView::NotUndoable(c@),
        UndoStep::Conflict(c) => UndoStepView::Conflict(c@),
        UndoStep::Perform { operation_type, source, dest, create_parent } => UndoStepView::Perform {
            operation_type: operation_type@,
            source: source@,
            dest: dest@,
            create_parent: match create_parent {
                Some(p) => Some(p@),
                None => None,
            },
        },
    }
}

/// How an entry is reversed: a kind without a reversal is not undoable; a
/// missing source or an existing target is a conflict; otherwise the rename
/// is carried out, creating the target's parent first when it is absent.
pub open spec fn undo_step_spec(e: LogEntry, fs: FsView) -> UndoStepView {
    match undo_of(e.operation_type@, e.original_source@, e.applied_target@) {
        None => UndoStepView::NotUndoable(
            ConflictView::NotUndoable {
                operation_type: e.operation_type@,
                message: "Operation "@ + e.id@ + " has unsupported type for undo"@,
            },
        ),
        Some((op, kind)) => {
            let (src, dest) = undo_paths(op);
            if !exists_in(fs, src) {
                UndoStepView::Conflict(
                    ConflictView::SourceMissing {
                        path: src,
                        message: "Cannot undo: source "@ + display_spec(src) + " no longer exists"@,
                    },
                )
            } else if exists_in(fs, dest) {
                UndoStepView::Conflict(
                    ConflictView::TargetExists {
                        path: dest,
                        message: "Cannot undo: target "@ + display_spec(dest) + " already exists"@,
                    },
                )
            } else {
                UndoStepView::Perform { operation_type: kind, source: src, dest, create_parent: parent_to_create(dest, fs) }
            }
        },
    }
}

/// The record of a carried-out reversal.
pub open spec fn undo_concluded_spec(
    entry_id: Seq<char>,
    kind: Seq<char>,
    src: PathView,
    dest: PathView,
    io: IoOutcome,
) -> UndoEntryView {
    let (status, error) = match io {
        IoOutcome::Done => (ExecStatusView::Success, None),
        IoOutcome::ParentFailed(e) => (
            ExecStatusView::Failed("Failed to create parent for undo: "@ + e@),
            Some("Failed to create parent for undo: "@ + e@),
        ),
        IoOutcome::Failed(e) => (ExecStatusView::Failed("Undo rename failed: "@ + e@), Some("Undo rename failed: "@ + e@)),
    };
    UndoEntryView { entry_id, operation_type: kind, source: src, dest, status, error }
}

/// The reversals carried out, the conflicts met and the number of reversals
/// attempted, so far.
pub struct UndoTally {
    pub applied: Seq<UndoEntryView>,
    pub conflicts: Seq<ConflictView>,
    pub attempted: nat,
}

/// Undoing the first `k` undoable entries `es`, entry `i` met with the
/// filesystem and outcome of record `i`: an entry without a reversal is a
/// conflict; otherwise the reversal is attempted, and either a path is in the
/// way (a conflict) or the rename was carried out and is recorded.
pub open spec fn undo_fold(es: Seq<LogEntry>, rs: Seq<UndoRecord>, k: int) -> UndoTally
    decreases k,
{
    if k <= 0 || k > es.len() {
        UndoTally { applied: seq![], conflicts: seq![], attempted: 0 }
    } else {
        let p = undo_fold(es, rs, k - 1);
        let e = es[k - 1];
        match undo_step_spec(e, rs[k - 1].fs@) {
            UndoStepView::NotUndoable(c) => UndoTally { conflicts: p.conflicts.push(c), ..p },
            UndoStepView::Conflict(c) => UndoTally { conflicts: p.conflicts.push(c), attempted: p.attempted + 1, ..p },
            UndoStepView::Perform { operation_type, source, dest, .. } => UndoTally {
                applied: p.applied.push(undo_concluded_spec(e.id@, operation_type, source, dest, rs[k - 1].io)),
                attempted: p.attempted + 1,
                ..p
            },
        }
    }
}

/// How many of the first `k` entries are of a kind that has a reversal.
pub open spec fn reversible_count(es: Seq<LogEntry>, k: int) -> nat
    decreases k,
{
    if k <= 0 || k > es.len() {
        0
    } else {
        reversible_count(es, k - 1) + if undo_of(es[k - 1].operation_type@, es[k - 1].original_source@, es[k - 1].applied_target@)
            is Some {
            1nat
        } else {
            0nat
        }
    }
}

proof fn lemma_attempted_is_reversible(es: Seq<LogEntry>, rs: Seq<UndoRecord>, k: int)
    ensures
        undo_fold(es, rs, k).attempted == reversible_count(es, k),
    decreases k,
{
    if k > 0 && k <= es.len() {
        lemma_attempted_is_reversible(es, rs, k - 1);
    }
}

/// A not-undoable conflict for each entry that cannot be reversed.
pub open spec fn unsupported_conflicts(es: Seq<LogEntry>) -> Seq<ConflictView> {
    es.map_values(
        |e: LogEntry|
            ConflictView::NotUndoable {
                operation_type: e.operation_type@,
                message: "Operation "@ + e.id@ + " cannot be undone (delete operation)"@,
            },
    )
}

impl Executor {
    /// What reversing `entry` needs, given the filesystem as it is now.
    pub fn undo_step(&self, entry: &LogEntry, fs: &FsSnapshot) -> (r: UndoStep)
        ensures
            undo_step_view(r) == undo_step_spec(*entry, fs@),
    {
        match self.generate_undo_operation(entry) {
            None => UndoStep::NotUndoable(
                UndoConflict::NotUndoable {
                    operation_type: entry.operation_type.clone(),
                    message: cat3("Operation ", entry.id.as_str(), " has unsupported type for undo"),
                },
            ),
            Some((operation, kind)) => {
                let (src, dest) = match &operation {
                    FileSystemOperation::Move { source, dest } => (source.copy(), dest.copy()),
                    FileSystemOperation::Delete { path, .. } => (path.copy(), path.copy()),
                    FileSystemOperation::CreateDir { path } => (path.copy(), path.copy()),
                };
                if !fs.is_present(&src) {
                    let m = cat3("Cannot undo: source ", src.display().as_str(), " no longer exists");
                    UndoStep::Conflict(UndoConflict::SourceMissing { path: src, message: m })
                } else if fs.is_present(&dest) {
                    let m = cat3("Cannot undo: target ", dest.display().as_str(), " already exists");
                    UndoStep::Conflict(UndoConflict::TargetExists { path: dest, message: m })
                } else {
                    let parent = match dest.parent() {
                        Some(p) => p,
                        None => dest.copy(),
                    };
                    let create_parent = if !fs.is_present(&parent) {
                        Some(parent)
                    } else {
                        None
                    };
                    UndoStep::Perform { operation_type: kind, source: src, dest, create_parent }
                }
            },
        }
    }

    /// The record of a reversal the caller carried out, from what it gave.
    pub fn undo_conclude(
        &self,
        entry: &LogEntry,
        operation_type: &String,
        source: &FsPath,
        dest: &FsPath,
        io: &IoOutcome,
    ) -> (r: UndoLogEntry)
        ensures
            r@ == undo_concluded_spec(entry.id@, operation_type@, source@, dest@, *io),
    {
        let (status, error) = match io {
            IoOutcome::Done => (ExecutionStatus::Success, None),
            IoOutcome::ParentFailed(e) => {
                let m = cat("Failed to create parent for undo: ", e.as_str());
                (ExecutionStatus::Failed(m.clone()), Some(m))
            },
            IoOutcome::Failed(e) => {
                let m = cat("Undo rename failed: ", e.as_str());
                (ExecutionStatus::Failed(m.clone()), Some(m))
            },
        };
        UndoLogEntry {
            entry_id: entry.id.clone(),
            operation_type: operation_type.clone(),
            source: source.copy(),
            dest: dest.copy(),
            status,
            error,
        }
    }

    /// The result of undoing a log: each undoable entry, in order, is taken
    /// as `undo_step` decides on the filesystem the caller observed when it
    /// reached the entry, and a rename is recorded as `undo_conclude` records
    /// the caller's outcome; then each entry that cannot be reversed is
    /// reported. The reversals attempted are the undoable entries of a kind
    /// that has a reversal.
    pub fn undo(&self, log: &OperationLog, records: &Vec<UndoRecord>, completed_at: u64) -> (r: Result<UndoResult, ApplyError>)
        requires
            records@.len() == undoable_spec(log.entries@).len(),
        ensures
            r is Ok,
            ({
                let es = undoable_spec(log.entries@);
                let t = undo_fold(es, records@, es.len() as int);
                &&& r->Ok_0.log_id@ == log.id@
                &&& r->Ok_0.applied_undoes@.map_values(|u: UndoLogEntry| u@) == t.applied
                &&& r->Ok_0.conflicts@.map_values(|c: UndoConflict| c@) == t.conflicts + unsupported_conflicts(
                    undo_unsupported_spec(log.entries@),
                )
                &&& r->Ok_0.total_undo_operations == t.attempted
                &&& r->Ok_0.total_undo_operations == reversible_count(es, es.len() as int)
                &&& r->Ok_0.completed_at == completed_at
            }),
    {
        let undoable = log.undoable_entries();
        let ghost es = undoable_spec(log.entries@);
        let mut applied: Vec<UndoLogEntry> = Vec::new();
        let mut conflicts: Vec<UndoConflict> = Vec::new();
        let mut count: usize = 0;
        let mut i: usize = 0;
        while i < undoable.len()
            invariant
                es == deref_all(undoable@),
                records@.len() == es.len(),
                i <= es.len(),
                count == undo_fold(es, records@, i as int).attempted,
                count <= i,
                applied@.map_values(|u: UndoLogEntry| u@) == undo_fold(es, records@, i as int).applied,
                conflicts@.map_values(|c: UndoConflict| c@) == undo_fold(es, records@, i as int).conflicts,
            decreases es.len() - i,
        {
            let e = undoable[i];
            assert(*e == es[i as int]);
            let rec = &records[i];
            let ghost a0 = applied@.map_values(|u: UndoLogEntry| u@);
            let ghost c0 = conflicts@.map_values(|c: UndoConflict| c@);
            match self.undo_step(e, &rec.fs) {
                UndoStep::NotUndoable(c) => {
                    conflicts.push(c);
                    assert(conflicts@.map_values(|c: UndoConflict| c@) =~= c0.push(c@));
                },
                UndoStep::Conflict(c) => {
                    conflicts.push(c);
                    count = count + 1;
                    assert(conflicts@.map_values(|c: UndoConflict| c@) =~= c0.push(c@));
                },
                UndoStep::Perform { operation_type, source, dest, .. } => {
                    let u = self.undo_conclude(e, &operation_type, &source, &dest, &rec.io);
                    applied.push(u);
                    count = count + 1;
                    assert(applied@.map_values(|u: UndoLogEntry| u@) =~= a0.push(u@));
                },
            }
            i = i + 1;
        }
        proof {
            lemma_attempted_is_reversible(es, records@, es.len() as int);
        }
        let unsupported = log.undo_unsupported_entries();
        let ghost base = conflicts@.map_values(|c: UndoConflict| c@);
        let ghost us = deref_all(unsupported@);
        let mut j: usize = 0;
        while j < unsupported.len()
            invariant
                j <= unsupported@.len(),
                us == deref_all(unsupported@),
                conflicts@.map_values(|c: UndoConflict| c@) == base + unsupported_conflicts(us.take(j as int)),
            decreases unsupported@.len() - j,
        {
            let e = unsupported[j];
            let c = UndoConflict::NotUndoable {
                operation_type: e.operation_type.clone(),
                message: cat3("Operation ", e.id.as_str(), " cannot be undone (delete operation)"),
            };
            let ghost prev = conflicts@.map_values(|c: UndoConflict| c@);
            conflicts.push(c);
            assert(conflicts@.map_values(|c: UndoConflict| c@) =~= prev.push(c@));
            assert(unsupported_conflicts(us.take(j + 1)) =~= unsupported_conflicts(us.take(j as int)).push(c@));
            j = j + 1;
        }
        assert(us.take(unsupported@.len() as int) =~= us);
        Ok(UndoResult {
            log_id: log.id.clone(),
            applied_undoes: applied,
            conflicts,
            total_undo_operations: count,
            completed_at,
        })
    }
}

impl UndoConflict {
    /// An independent copy.
    pub fn clone_conflict(&self) -> (r: UndoConflict)
        ensures
            r@ == self@,
    {
        match self {
            UndoConflict::SourceMissing { path, message } => UndoConflict::SourceMissing {
                path: path.copy(),
                message: message.clone(),
            },
            UndoConflict::TargetExists { path, message } => UndoConflict::TargetExists {
                path: path.copy(),
                message: message.clone(),
            },
            UndoConflict::NotUndoable { operation_type, message } => UndoConflict::NotUndoable {
                operation_type: operation_type.clone(),
                message: message.clone(),
            },
        }
    }
}

impl UndoLogEntry {
    /// An independent copy.
    pub fn copy(&self) -> (r: UndoLogEntry)
        ensures
            r@ == self@,
    {
        UndoLogEntry {
            entry_id: self.entry_id.clone(),
            operation_type: self.operation_type.clone(),
            source: self.source.copy(),
            dest: self.dest.copy(),
            status: self.status.copy(),
            error: match &self.error {
                Some(e) => Some(e.clone()),
                None => None,
            },
        }
    }
}


/// Undoing what execution logged for an operation reverses it: a logged move
/// is undone by moving the destination back to the source, and a logged
/// directory creation by deleting that directory.
pub proof fn law_undo_reverses(op: OpView)
    ensures
        op is Move ==> undo_of(op_type_spec(op), extract_source_spec(op), extract_target_spec(op)) == Some(
            (OpView::Move { source: op->Move_dest, dest: op->Move_source }, "move"@),
        ),
        op is CreateDir ==> undo_of(op_type_spec(op), extract_source_spec(op), extract_target_spec(op)) == Some(
            (OpView::Delete { path: op->CreateDir_path, reason: "undo create_dir"@ }, "delete"@),
        ),
{
    reveal_strlit("move");
    reveal_strlit("create_dir");
    assert("create_dir"@[0] != "move"@[0]);
}


/// What execution logs for a move, undo takes back: the logged entry is
/// undoable once the move succeeded with undo support, and on a disk where
/// the file sits at its destination and its old place is free, undoing it
/// moves the file from the destination back to the source.
pub proof fn law_move_undo_restores(e: LogEntry, source: PathView, dest: PathView, fs: FsView)
    requires
        e.operation_type@ == op_type_spec(OpView::Move { source, dest }),
        e.original_source@ == extract_source_spec(OpView::Move { source, dest }),
        e.applied_target@ == extract_target_spec(OpView::Move { source, dest }),
        exists_in(fs, dest),
        !exists_in(fs, source),
    ensures
        (e.status@ is Success && e.undo_supported) ==> undoable_spec(seq![e]) == seq![e],
        undo_step_spec(e, fs) matches UndoStepView::Perform { source: s, dest: d, .. } && s == dest && d == source,
{
    assert(seq![e].drop_last() =~= Seq::<LogEntry>::empty());
    assert(undoable_spec(Seq::<LogEntry>::empty()) == Seq::<LogEntry>::empty());
    assert(seq![e].last() == e);
    if e.status@ is Success && e.undo_supported {
        assert(undoable_spec(seq![e]) =~= seq![e]);
    }
}


proof fn lemma_count_status_positive(es: Seq<LogEntry>, k: int, pred: spec_fn(ExecStatusView) -> bool, i: int)
    requires
        0 <= i < k <= es.len(),
        pred(es[i].status@),
    ensures
        count_status(es, k, pred) >= 1,
    decreases k,
{
    if k - 1 > i {
        lemma_count_status_positive(es, k - 1, pred, i);
    }
}

/// Force does not run a blocked operation: in a forced run, every operation
/// validation blocked is logged as skipped and not undoable, whatever the
/// caller observed, and the run is then not complete.
pub proof fn law_forced_blocked_is_skipped(
    plan: OperationPlan,
    v: ValidationResult,
    steps: Seq<StepRecord>,
    a: ApplyResult,
    i: int,
)
    requires
        applied_from_steps(plan, v, true, steps, a),
        0 <= i < plan.operations@.len(),
        blocked_at(v, i),
    ensures
        a.log.entries@[i].status@ == ExecStatusView::Skipped("Blocked by constraint (force override)"@),
        !a.log.entries@[i].undo_supported,
        a.log.skipped_count >= 1,
        !a.is_complete,
{
    let es = a.log.entries@;
    assert(step_outcome(plan, v, true, steps, i).0 is Skipped);
    assert((es[i].status@, opt_text(es[i].error), es[i].undo_supported) == step_outcome(plan, v, true, steps, i));
    lemma_count_status_positive(es, es.len() as int, |s: ExecStatusView| is_skipped_view(s), i);
}

/// A run records what its plan's operations came to, not a choice of the
/// caller: two runs of one plan under one validation and force, observed the
/// same way, log the same statuses, errors and undo flags, and agree on
/// completeness and undo counts (only the log's own id and times may differ).
pub proof fn law_run_is_determined_by_observations(
    plan: OperationPlan,
    v: ValidationResult,
    force: bool,
    steps: Seq<StepRecord>,
    a: ApplyResult,
    b: ApplyResult,
)
    requires
        applied_from_steps(plan, v, force, steps, a),
        applied_from_steps(plan, v, force, steps, b),
    ensures
        a.log.entries@.len() == b.log.entries@.len(),
        forall|i: int|
            0 <= i < a.log.entries@.len() ==> {
                &&& (#[trigger] a.log.entries@[i]).id@ == b.log.entries@[i].id@
                &&& a.log.entries@[i].status@ == b.log.entries@[i].status@
                &&& opt_text(a.log.entries@[i].error) == opt_text(b.log.entries@[i].error)
                &&& a.log.entries@[i].undo_supported == b.log.entries@[i].undo_supported
                &&& a.log.entries@[i].started_at == b.log.entries@[i].started_at
                &&& a.log.entries@[i].completed_at == b.log.entries@[i].completed_at
            },
        a.log.success_count == b.log.success_count,
        a.log.failure_count == b.log.failure_count,
        a.log.skipped_count == b.log.skipped_count,
        a.is_complete == b.is_complete,
        a.can_undo == b.can_undo,
        a.undo_supported_count == b.undo_supported_count,
        a.undo_unsupported_count == b.undo_unsupported_count,
{
    let ea = a.log.entries@;
    let eb = b.log.entries@;
    assert forall|i: int| 0 <= i < ea.len() implies (#[trigger] ea[i]).status@ == eb[i].status@ by {
        assert((ea[i].status@, opt_text(ea[i].error), ea[i].undo_supported) == step_outcome(plan, v, force, steps, i));
        assert((eb[i].status@, opt_text(eb[i].error), eb[i].undo_supported) == step_outcome(plan, v, force, steps, i));
    }
    lemma_count_same(ea, eb, ea.len() as int, |s: ExecStatusView| is_success_view(s));
    lemma_count_same(ea, eb, ea.len() as int, |s: ExecStatusView| is_failed_view(s));
    lemma_count_same(ea, eb, ea.len() as int, |s: ExecStatusView| is_skipped_view(s));
}

proof fn lemma_count_same(a: Seq<LogEntry>, b: Seq<LogEntry>, k: int, pred: spec_fn(ExecStatusView) -> bool)
    requires
        0 <= k <= a.len(),
        a.len() == b.len(),
        forall|j: int| 0 <= j < a.len() ==> (#[trigger] a[j]).status@ == b[j].status@,
    ensures
        count_status(a, k, pred) == count_status(b, k, pred),
    decreases k,
{
    if k > 0 {
        lemma_count_same(a, b, k - 1, pred);
        assert(a[k - 1].status@ == b[k - 1].status@);
    }
}

} // verus!

//! Validation of a plan against the filesystem and the user's constraints:
//! each operation is marked valid, blocked, in conflict, invalid or warned,
//! with the operations it depends on, and the plan as a whole is summarized.
use crate::intent::{ConstraintSet, TaskIntent};
use crate::path::{component_count_spec, display_spec, extension_spec, parent_spec, starts_with_spec, FsPath, PathView};
use crate::plan::{copy_ops, copy_warnings, dest_spec, ops_view, warnings_view, FileSystemOperation, OpView, OperationPlan};
use crate::proposal_converter::{copy_unresolved, unresolved_view, UnresolvedItem, UnresolvedReason};
use crate::snapshot::{exists_in, is_dir_in, is_file_in, is_symlink_in, FsSnapshot, FsView};
use crate::text::{cat, cat3, decimal, lowercase_of, owned, seq_contains, str_contains, str_eq, to_lowercase, u64_to_text, usize_to_text};
use vstd::prelude::*;

verus! {

/// The verdict on one operation.
#[derive(Clone, Debug, PartialEq, Eq)]
pub enum ValidationStatus {
    Valid,
    BlockedByConstraint(String),
    Conflict(String),
    Invalid(String),
    Warning(String),
}

pub enum StatusView {
    Valid,
    Blocked(Seq<char>),
    Conflict(Seq<char>),
    Invalid(Seq<char>),
    Warning(Seq<char>),
}

impl View for ValidationStatus {
    type V = StatusView;

    open spec fn view(&self) -> StatusView {
        match self {
            ValidationStatus::Valid => StatusView::Valid,
            ValidationStatus::BlockedByConstraint(m) => StatusView::Blocked(m@),
            ValidationStatus::Conflict(m) => StatusView::Conflict(m@),
            ValidationStatus::Invalid(m) => StatusView::Invalid(m@),
            ValidationStatus::Warning(m) => StatusView::Warning(m@),
        }
    }
}

/// The verdict as shown to users: its tag, then its message.
pub open spec fn status_text(s: StatusView) -> Seq<char> {
    match s {
        StatusView::Valid => "VALID"@,
        StatusView::Blocked(m) => "BLOCKED: "@ + m,
        StatusView::Conflict(m) => "CONFLICT: "@ + m,
        StatusView::Invalid(m) => "INVALID: "@ + m,
        StatusView::Warning(m) => "WARNING: "@ + m,
    }
}

impl ValidationStatus {
    pub fn is_valid(&self) -> (b: bool)
        ensures
            b == (self@ is Valid),
    {
        match self {
            ValidationStatus::Valid => true,
            _ => false,
        }
    }

    pub fn is_blocked(&self) -> (b: bool)
        ensures
            b == (self@ is Blocked),
    {
        match self {
            ValidationStatus::BlockedByConstraint(_) => true,
            _ => false,
        }
    }

    pub fn is_conflict(&self) -> (b: bool)
        ensures
            b == (self@ is Conflict),
    {
        match self {
            ValidationStatus::Conflict(_) => true,
            _ => false,
        }
    }

    pub fn is_invalid(&self) -> (b: bool)
        ensures
            b == (self@ is Invalid),
    {
        match self {
            ValidationStatus::Invalid(_) => true,
            _ => false,
        }
    }

    pub fn is_warning(&self) -> (b: bool)
        ensures
            b == (self@ is Warning),
    {
        match self {
            ValidationStatus::Warning(_) => true,
            _ => false,
        }
    }

    /// The verdict as shown to users.
    pub fn to_text(&self) -> (r: String)
        ensures
            r@ == status_text(self@),
    {
        match self {
            ValidationStatus::Valid => owned("VALID"),
            ValidationStatus::BlockedByConstraint(m) => cat("BLOCKED: ", m.as_str()),
            ValidationStatus::Conflict(m) => cat("CONFLICT: ", m.as_str()),
            ValidationStatus::Invalid(m) => cat("INVALID: ", m.as_str()),
            ValidationStatus::Warning(m) => cat("WARNING: ", m.as_str()),
        }
    }
}

/// One operation with its verdict, remaining warnings, and the indices of
/// the operations it depends on.
#[derive(Clone, Debug, PartialEq, Eq)]
pub struct ValidatedOperation {
    pub operation: FileSystemOperation,
    pub status: ValidationStatus,
    pub warnings: Vec<String>,
    pub dependencies: Vec<usize>,
}

/// How many operations fell under each verdict (an operation may count under several).
#[derive(Clone, Copy, Debug, PartialEq, Eq)]
pub struct ValidationSummary {
    pub total: usize,
    pub valid: usize,
    pub blocked: usize,
    pub conflicts: usize,
    pub invalid: usize,
    pub warnings: usize,
}

impl ValidationSummary {
    /// All counts zero.
    pub fn new() -> (r: ValidationSummary)
        ensures
            r.total == 0 && r.valid == 0 && r.blocked == 0 && r.conflicts == 0 && r.invalid == 0 && r.warnings == 0,
    {
        ValidationSummary { total: 0, valid: 0, blocked: 0, conflicts: 0, invalid: 0, warnings: 0 }
    }
}

impl Default for ValidationSummary {
    fn default() -> (r: ValidationSummary)
        ensures
            r.total == 0 && r.valid == 0 && r.blocked == 0 && r.conflicts == 0 && r.invalid == 0 && r.warnings == 0,
    {
        ValidationSummary::new()
    }
}

/// The outcome of validating a plan.
#[derive(Clone, Debug, PartialEq, Eq)]
pub struct ValidationResult {
    pub plan_id: String,
    pub scope: FsPath,
    pub validated_operations: Vec<ValidatedOperation>,
    pub summary: ValidationSummary,
    pub has_blocked: bool,
    pub has_conflicts: bool,
    pub has_invalid: bool,
    pub has_warnings: bool,
    pub executable_operations: usize,
}

// ------------------------------------------------------------------ specs

/// `path` is `scope` itself, or has more components than `scope` and begins with them.
pub open spec fn within_scope_spec(path: PathView, scope: PathView) -> bool {
    path == scope || (component_count_spec(path) > component_count_spec(scope) && starts_with_spec(path, scope))
}

/// A path with more than ten components counts as very deep.
pub open spec fn depth_ok(p: PathView) -> bool {
    component_count_spec(p) <= 10
}

/// The first move before index `k` that reads `src`.
pub open spec fn first_source(ops: Seq<OpView>, k: int, src: PathView) -> Option<int>
    decreases k,
{
    if k <= 0 {
        None
    } else {
        match first_source(ops, k - 1, src) {
            Some(x) => Some(x),
            None => match ops[k - 1] {
                OpView::Move { source, .. } => if source == src {
                    Some(k - 1)
                } else {
                    None
                },
                _ => None,
            },
        }
    }
}

/// A create-directory operation that validation records for `p`: its path is
/// `p`, absent, and within the scope.
pub open spec fn registers(op: OpView, p: PathView, scope: PathView, fs: FsView) -> bool {
    match op {
        OpView::CreateDir { path } => path == p && !exists_in(fs, path) && within_scope_spec(path, scope),
        _ => false,
    }
}

/// The last operation before index `k` that records directory `p`.
pub open spec fn last_registered(ops: Seq<OpView>, k: int, p: PathView, scope: PathView, fs: FsView) -> Option<int>
    decreases k,
{
    if k <= 0 {
        None
    } else if registers(ops[k - 1], p, scope, fs) {
        Some(k - 1)
    } else {
        last_registered(ops, k - 1, p, scope, fs)
    }
}

/// Counts that validation adds for one operation.
pub struct Tally {
    pub valid: nat,
    pub blocked: nat,
    pub conflicts: nat,
    pub invalid: nat,
    pub warnings: nat,
}

/// The verdict, warnings, dependencies and counts of one operation, before
/// warnings and constraints are applied.
pub struct OpEval {
    pub status: StatusView,
    pub warnings: Seq<Seq<char>>,
    pub deps: Seq<usize>,
    pub tally: Tally,
}

pub open spec fn no_tally() -> Tally {
    Tally { valid: 0, blocked: 0, conflicts: 0, invalid: 0, warnings: 0 }
}

pub open spec fn invalid_tally() -> Tally {
    Tally { valid: 0, blocked: 0, conflicts: 0, invalid: 1, warnings: 0 }
}

pub open spec fn conflict_tally(n: nat) -> Tally {
    Tally { valid: 0, blocked: 0, conflicts: n, invalid: 0, warnings: 0 }
}

pub open spec fn warning_tally() -> Tally {
    Tally { valid: 0, blocked: 0, conflicts: 0, invalid: 0, warnings: 1 }
}

/// The checks on a move, in order: source missing, source equal to
/// destination, destination outside the scope, destination already a file or
/// link; a move of a file into an existing directory whose parent is missing
/// depends on the operation that creates that parent.
pub open spec fn move_first_check(
    ops: Seq<OpView>,
    i: int,
    source: PathView,
    dest: PathView,
    scope: PathView,
    fs: FsView,
) -> OpEval {
    if !exists_in(fs, source) {
        OpEval { status: StatusView::Invalid("Source not found: "@ + display_spec(source)), warnings: seq![], deps: seq![], tally: invalid_tally() }
    } else if source == dest {
        OpEval { status: StatusView::Invalid("Source equals destination: "@ + display_spec(source)), warnings: seq![], deps: seq![], tally: invalid_tally() }
    } else if !within_scope_spec(dest, scope) {
        OpEval { status: StatusView::Invalid("Destination outside scope: "@ + display_spec(dest)), warnings: seq![], deps: seq![], tally: invalid_tally() }
    } else if is_file_in(fs, dest) || is_symlink_in(fs, dest) {
        OpEval { status: StatusView::Conflict("Destination file exists: "@ + display_spec(dest)), warnings: seq![], deps: seq![], tally: conflict_tally(1) }
    } else if is_dir_in(fs, dest) && is_file_in(fs, source) {
        let parent = match parent_spec(dest) {
            Some(p) => p,
            None => dest,
        };
        if !exists_in(fs, parent) && last_registered(ops, i, parent, scope, fs) is Some {
            OpEval { status: StatusView::Valid, warnings: seq![], deps: seq![last_registered(ops, i, parent, scope, fs)->0 as usize], tally: no_tally() }
        } else {
            OpEval { status: StatusView::Valid, warnings: seq![], deps: seq![], tally: no_tally() }
        }
    } else {
        OpEval { status: StatusView::Valid, warnings: seq![], deps: seq![], tally: no_tally() }
    }
}

pub open spec fn duplicate_source_message(source: PathView, k: int) -> Seq<char> {
    "Duplicate source: "@ + display_spec(source) + " (also moved in operation #"@ + decimal(k as nat) + ")"@
}

/// A move's evaluation: its first check, then a repeated source turns it
/// into a conflict, and a very deep source directory adds a warning.
pub open spec fn move_eval(ops: Seq<OpView>, i: int, source: PathView, dest: PathView, scope: PathView, fs: FsView) -> OpEval {
    let first = move_first_check(ops, i, source, dest, scope, fs);
    let with_dup = match first_source(ops, i, source) {
        Some(k) => OpEval {
            status: StatusView::Conflict(duplicate_source_message(source, k)),
            warnings: first.warnings,
            deps: first.deps,
            tally: Tally { conflicts: first.tally.conflicts + 1, ..first.tally },
        },
        None => first,
    };
    if is_dir_in(fs, source) && !depth_ok(source) {
        OpEval { warnings: seq!["Source path is very deep: "@ + display_spec(source)], ..with_dup }
    } else {
        with_dup
    }
}

/// An operation's evaluation before warnings and constraints.
pub open spec fn base_eval(ops: Seq<OpView>, i: int, scope: PathView, fs: FsView) -> OpEval {
    match ops[i] {
        OpView::Move { source, dest } => move_eval(ops, i, source, dest, scope, fs),
        OpView::CreateDir { path } => if exists_in(fs, path) {
            OpEval { status: StatusView::Warning("Directory already exists: "@ + display_spec(path)), warnings: seq![], deps: seq![], tally: warning_tally() }
        } else if !within_scope_spec(path, scope) {
            OpEval { status: StatusView::Invalid("CreateDir path outside scope: "@ + display_spec(path)), warnings: seq![], deps: seq![], tally: invalid_tally() }
        } else {
            OpEval { status: StatusView::Valid, warnings: seq![], deps: seq![], tally: no_tally() }
        },
        OpView::Delete { path, .. } => if !exists_in(fs, path) {
            OpEval { status: StatusView::Invalid("Delete target not found: "@ + display_spec(path)), warnings: seq![], deps: seq![], tally: invalid_tally() }
        } else if !within_scope_spec(path, scope) {
            OpEval { status: StatusView::Invalid("Delete target outside scope: "@ + display_spec(path)), warnings: seq![], deps: seq![], tally: invalid_tally() }
        } else {
            OpEval { status: StatusView::Valid, warnings: seq![], deps: seq![], tally: no_tally() }
        },
    }
}

/// The constraint that blocks an operation: deleting a path whose text
/// mentions `temp` or `tmp` while temp deletion is off, any delete while
/// existing folders are preserved, or a move to a `.tmp`, `.temp` or
/// `.crdownload` name while temp deletion is off.
pub open spec fn constraint_block(op: OpView, c: ConstraintSet) -> Option<Seq<char>> {
    match op {
        OpView::Delete { path, .. } => {
            let ps = lowercase_of(display_spec(path));
            if seq_contains(ps, "temp"@) && !c.auto_delete_temps {
                Some("auto_delete_temps is false"@)
            } else if seq_contains(ps, "tmp"@) && !c.auto_delete_temps {
                Some("auto_delete_temps is false"@)
            } else if c.preserve_existing_folders {
                Some("preserve_existing_folders is true"@)
            } else {
                None
            }
        },
        OpView::Move { dest, .. } => {
            let ext = match extension_spec(dest) {
                Some(e) => e,
                None => seq![],
            };
            if (ext == "tmp"@ || ext == "temp"@ || ext == "crdownload"@) && !c.auto_delete_temps {
                Some("auto_delete_temps is false"@)
            } else {
                None
            }
        },
        OpView::CreateDir { .. } => None,
    }
}

/// An operation's final evaluation: a valid operation with warnings takes the
/// first as its verdict; a constraint block overrides everything; a valid
/// final verdict is counted as valid.
pub open spec fn eval_op(ops: Seq<OpView>, i: int, scope: PathView, fs: FsView, c: ConstraintSet) -> OpEval {
    let b = base_eval(ops, i, scope, fs);
    let w = if (b.status is Valid) && b.warnings.len() > 0 {
        OpEval {
            status: StatusView::Warning(b.warnings[0]),
            warnings: b.warnings.drop_first(),
            deps: b.deps,
            tally: Tally { warnings: b.tally.warnings + 1, ..b.tally },
        }
    } else {
        b
    };
    let blk = match constraint_block(ops[i], c) {
        Some(reason) => OpEval {
            status: StatusView::Blocked(reason),
            warnings: w.warnings,
            deps: w.deps,
            tally: Tally { blocked: w.tally.blocked + 1, ..w.tally },
        },
        None => w,
    };
    if blk.status is Valid {
        OpEval { tally: Tally { valid: blk.tally.valid + 1, ..blk.tally }, ..blk }
    } else {
        blk
    }
}

/// The counts of the first `k` operations, added up.
pub open spec fn tally_upto(ops: Seq<OpView>, k: int, scope: PathView, fs: FsView, c: ConstraintSet) -> Tally
    decreases k,
{
    if k <= 0 {
        no_tally()
    } else {
        let p = tally_upto(ops, k - 1, scope, fs, c);
        let t = eval_op(ops, k - 1, scope, fs, c).tally;
        Tally {
            valid: p.valid + t.valid,
            blocked: p.blocked + t.blocked,
            conflicts: p.conflicts + t.conflicts,
            invalid: p.invalid + t.invalid,
            warnings: p.warnings + t.warnings,
        }
    }
}

/// Two create-directory operations name the same path, or two moves share a destination.
pub open spec fn ops_conflict(ops: Seq<OpView>) -> bool {
    (exists|i: int, j: int|
        0 <= i < j < ops.len() && (#[trigger] ops[i]) is CreateDir && (#[trigger] ops[j]) is CreateDir
            && ops[i]->CreateDir_path == ops[j]->CreateDir_path) || (exists|i: int, j: int|
        0 <= i < j < ops.len() && (#[trigger] ops[i]) is Move && (#[trigger] ops[j]) is Move && ops[i]->Move_dest
            == ops[j]->Move_dest)
}

/// The result of validating operations `ops` under `scope`, the snapshot and constraints.
pub open spec fn validation_matches(r: ValidationResult, plan_id: Seq<char>, scope: PathView, ops: Seq<OpView>, fs: FsView, c: ConstraintSet) -> bool {
    let n = ops.len();
    let t = tally_upto(ops, n as int, scope, fs, c);
    let vs = r.validated_operations@;
    &&& r.plan_id@ == plan_id
    &&& r.scope@ == scope
    &&& vs.len() == n
    &&& forall|i: int|
        0 <= i < n ==> {
            let e = eval_op(ops, i, scope, fs, c);
            &&& (#[trigger] vs[i]).operation@ == ops[i]
            &&& vs[i].status@ == e.status
            &&& vs[i].warnings@.map_values(|s: String| s@) == e.warnings
            &&& vs[i].dependencies@ == e.deps
        }
    &&& r.summary.total == n
    &&& r.summary.valid == t.valid
    &&& r.summary.blocked == t.blocked
    &&& r.summary.conflicts == t.conflicts
    &&& r.summary.invalid == t.invalid
    &&& r.summary.warnings == t.warnings
    &&& r.has_conflicts == ops_conflict(ops)
    &&& r.has_blocked == exists|i: int| 0 <= i < n && (#[trigger] vs[i]).status@ is Blocked
    &&& r.has_invalid == exists|i: int| 0 <= i < n && (#[trigger] vs[i]).status@ is Invalid
    &&& r.has_warnings == exists|i: int| 0 <= i < n && (#[trigger] vs[i]).status@ is Warning
    &&& r.executable_operations == t.valid
}

/// Per-operation counts as computed.
pub struct Counts {
    pub valid: usize,
    pub blocked: usize,
    pub conflicts: usize,
    pub invalid: usize,
    pub warnings: usize,
}

pub open spec fn counts_view(c: Counts) -> Tally {
    Tally { valid: c.valid as nat, blocked: c.blocked as nat, conflicts: c.conflicts as nat, invalid: c.invalid as nat, warnings: c.warnings as nat }
}

pub open spec fn tally_small(t: Tally) -> bool {
    t.valid <= 2 && t.blocked <= 2 && t.conflicts <= 2 && t.invalid <= 2 && t.warnings <= 2
}

fn counts(valid: usize, blocked: usize, conflicts: usize, invalid: usize, warnings: usize) -> (r: Counts)
    ensures
        r.valid == valid && r.blocked == blocked && r.conflicts == conflicts && r.invalid == invalid && r.warnings == warnings,
{
    Counts { valid, blocked, conflicts, invalid, warnings }
}

pub open spec fn opt_usize(o: Option<usize>) -> Option<int> {
    match o {
        Some(x) => Some(x as int),
        None => None,
    }
}

pub open spec fn opt_string(o: Option<String>) -> Option<Seq<char>> {
    match o {
        Some(x) => Some(x@),
        None => None,
    }
}

pub struct PlanValidator;

impl Default for PlanValidator {
    fn default() -> (r: PlanValidator) {
        PlanValidator
    }
}

impl PlanValidator {
    /// Whether `path` is `scope` or lies below it.
    pub fn is_within_scope(path: &FsPath, scope: &FsPath) -> (b: bool)
        ensures
            b == within_scope_spec(path@, scope@),
    {
        if path.same_as(scope) {
            return true;
        }
        let pc: u128 = path.parts.len() as u128 + if path.absolute { 1u128 } else { 0u128 };
        let sc: u128 = scope.parts.len() as u128 + if scope.absolute { 1u128 } else { 0u128 };
        if pc <= sc {
            return false;
        }
        path.starts_with(scope)
    }

    /// Whether a path has at most ten components.
    pub fn check_path_depth(path: &FsPath) -> (b: bool)
        ensures
            b == depth_ok(path@),
    {
        let pc: u128 = path.parts.len() as u128 + if path.absolute { 1u128 } else { 0u128 };
        pc <= 10
    }

    /// The first move before index `k` that reads `src`.
    fn first_source_index(ops: &Vec<FileSystemOperation>, k: usize, src: &FsPath) -> (r: Option<usize>)
        requires
            k <= ops@.len(),
        ensures
            opt_usize(r) == first_source(ops_view(ops@), k as int, src@),
            r matches Some(x) ==> x < k,
    {
        let ghost v = ops_view(ops@);
        let mut j: usize = 0;
        while j < k
            invariant
                k <= ops@.len(),
                v == ops_view(ops@),
                j <= k,
                first_source(v, j as int, src@) is None,
            decreases k - j,
        {
            match &ops[j] {
                FileSystemOperation::Move { source, .. } => {
                    if source.same_as(src) {
                        assert(first_source(v, j + 1, src@) == Some(j as int));
                        proof { lemma_first_source_stable(v, j + 1, k as int, src@); }
                        return Some(j);
                    }
                },
                _ => {},
            }
            assert(first_source(v, j + 1, src@) is None);
            j = j + 1;
        }
        None
    }

    /// The last operation before index `k` that records directory `p`.
    fn last_registered_index(
        ops: &Vec<FileSystemOperation>,
        k: usize,
        p: &FsPath,
        scope: &FsPath,
        fs: &FsSnapshot,
    ) -> (r: Option<usize>)
        requires
            k <= ops@.len(),
        ensures
            opt_usize(r) == last_registered(ops_view(ops@), k as int, p@, scope@, fs@),
    {
        let ghost v = ops_view(ops@);
        let mut j: usize = k;
        while j > 0
            invariant
                k <= ops@.len(),
                v == ops_view(ops@),
                j <= k,
                last_registered(v, k as int, p@, scope@, fs@) == last_registered(v, j as int, p@, scope@, fs@),
            decreases j,
        {
            let hit = match &ops[j - 1] {
                FileSystemOperation::CreateDir { path } => path.same_as(p) && !fs.is_present(path)
                    && Self::is_within_scope(path, scope),
                _ => false,
            };
            assert(v[j - 1] == ops@[j - 1]@);
            if hit {
                return Some(j - 1);
            }
            j = j - 1;
        }
        None
    }

    /// The constraint, if any, that blocks the operation.
    pub fn check_constraint_blocked(op: &FileSystemOperation, intent: &TaskIntent) -> (r: Option<String>)
        ensures
            opt_string(r) == constraint_block(op@, intent.constraints),
    {
        Self::blocked_under(op, &intent.constraints)
    }

    fn blocked_under(op: &FileSystemOperation, c: &ConstraintSet) -> (r: Option<String>)
        ensures
            opt_string(r) == constraint_block(op@, *c),
    {
        match op {
            FileSystemOperation::Delete { path, .. } => {
                let text = path.display();
                let ps = to_lowercase(text.as_str());
                if str_contains(ps.as_str(), "temp") && !c.auto_delete_temps {
                    return Some(owned("auto_delete_temps is false"));
                }
                if str_contains(ps.as_str(), "tmp") && !c.auto_delete_temps {
                    return Some(owned("auto_delete_temps is false"));
                }
                if c.preserve_existing_folders {
                    return Some(owned("preserve_existing_folders is true"));
                }
                None
            },
            FileSystemOperation::Move { dest, .. } => {
                let ext = match dest.extension() {
                    Some(e) => e,
                    None => String::new(),
                };
                if (str_eq(ext.as_str(), "tmp") || str_eq(ext.as_str(), "temp") || str_eq(ext.as_str(), "crdownload"))
                    && !c.auto_delete_temps {
                    return Some(owned("auto_delete_temps is false"));
                }
                None
            },
            FileSystemOperation::CreateDir { .. } => None,
        }
    }

    /// Whether two create-directory operations name the same path, or two
    /// moves share a destination.
    pub fn detect_op_conflicts(operations: &Vec<FileSystemOperation>) -> (b: bool)
        ensures
            b == ops_conflict(ops_view(operations@)),
    {
        let ghost v = ops_view(operations@);
        let n = operations.len();
        let mut j: usize = 0;
        while j < n
            invariant
                n == operations@.len(),
                v == ops_view(operations@),
                j <= n,
                forall|a: int, b: int|
                    0 <= a < b < j ==> !((#[trigger] v[a]) is CreateDir && (#[trigger] v[b]) is CreateDir
                        && v[a]->CreateDir_path == v[b]->CreateDir_path),
                forall|a: int, b: int|
                    0 <= a < b < j ==> !((#[trigger] v[a]) is Move && (#[trigger] v[b]) is Move && v[a]->Move_dest
                        == v[b]->Move_dest),
            decreases n - j,
        {
            let mut i: usize = 0;
            while i < j
                invariant
                    n == operations@.len(),
                    v == ops_view(operations@),
                    i <= j < n,
                    forall|a: int| 0 <= a < i ==> !((#[trigger] v[a]) is CreateDir && v[j as int] is CreateDir
                        && v[a]->CreateDir_path == v[j as int]->CreateDir_path),
                    forall|a: int| 0 <= a < i ==> !((#[trigger] v[a]) is Move && v[j as int] is Move && v[a]->Move_dest
                        == v[j as int]->Move_dest),
                decreases j - i,
            {
                assert(v[i as int] == operations@[i as int]@ && v[j as int] == operations@[j as int]@);
                match (&operations[i], &operations[j]) {
                    (FileSystemOperation::CreateDir { path: a }, FileSystemOperation::CreateDir { path: b }) => {
                        if a.same_as(b) {
                            assert(v[i as int] is CreateDir && v[j as int] is CreateDir
                                && v[i as int]->CreateDir_path == v[j as int]->CreateDir_path);
                            return true;
                        }
                    },
                    (FileSystemOperation::Move { dest: a, .. }, FileSystemOperation::Move { dest: b, .. }) => {
                        if a.same_as(b) {
                            assert(v[i as int] is Move && v[j as int] is Move && v[i as int]->Move_dest
                                == v[j as int]->Move_dest);
                            return true;
                        }
                    },
                    _ => {},
                }
                i = i + 1;
            }
            j = j + 1;
        }
        false
    }

    fn invalid(msg: String) -> (r: (ValidationStatus, Vec<String>, Vec<usize>, Counts))
        ensures
            r.0@ == StatusView::Invalid(msg@),
            r.1@.len() == 0,
            r.2@.len() == 0,
            counts_view(r.3) == invalid_tally(),
    {
        (ValidationStatus::Invalid(msg), Vec::new(), Vec::new(), counts(0, 0, 0, 1, 0))
    }

    fn valid_with(deps: Vec<usize>) -> (r: (ValidationStatus, Vec<String>, Vec<usize>, Counts))
        ensures
            r.0@ == StatusView::Valid,
            r.1@.len() == 0,
            r.2@ == deps@,
            counts_view(r.3) == no_tally(),
    {
        (ValidationStatus::Valid, Vec::new(), deps, counts(0, 0, 0, 0, 0))
    }

    fn move_first(
        ops: &Vec<FileSystemOperation>,
        i: usize,
        source: &FsPath,
        dest: &FsPath,
        scope: &FsPath,
        fs: &FsSnapshot,
    ) -> (r: (ValidationStatus, Vec<String>, Vec<usize>, Counts))
        requires
            i < ops@.len(),
        ensures
            ({
                let e = move_first_check(ops_view(ops@), i as int, source@, dest@, scope@, fs@);
                &&& r.0@ == e.status
                &&& r.1@.map_values(|s: String| s@) == e.warnings
                &&& r.2@ == e.deps
                &&& counts_view(r.3) == e.tally
            }),
    {
        let r = if !fs.is_present(source) {
            Self::invalid(cat("Source not found: ", source.display().as_str()))
        } else if source.same_as(dest) {
            Self::invalid(cat("Source equals destination: ", source.display().as_str()))
        } else if !Self::is_within_scope(dest, scope) {
            Self::invalid(cat("Destination outside scope: ", dest.display().as_str()))
        } else if fs.is_file(dest) || fs.is_symlink(dest) {
            (ValidationStatus::Conflict(cat("Destination file exists: ", dest.display().as_str())), Vec::new(), Vec::new(), counts(0, 0, 1, 0, 0))
        } else if fs.is_dir(dest) && fs.is_file(source) {
            let parent = match dest.parent() {
                Some(p) => p,
                None => dest.copy(),
            };
            let mut deps: Vec<usize> = Vec::new();
            if !fs.is_present(&parent) {
                match Self::last_registered_index(ops, i, &parent, scope, fs) {
                    Some(idx) => deps.push(idx),
                    None => {},
                }
            }
            Self::valid_with(deps)
        } else {
            Self::valid_with(Vec::new())
        };
        assert(r.1@.map_values(|s: String| s@) =~= Seq::<Seq<char>>::empty());
        r
    }

    fn base(ops: &Vec<FileSystemOperation>, i: usize, scope: &FsPath, fs: &FsSnapshot) -> (r: (ValidationStatus, Vec<String>, Vec<usize>, Counts))
        requires
            i < ops@.len(),
        ensures
            ({
                let e = base_eval(ops_view(ops@), i as int, scope@, fs@);
                &&& r.0@ == e.status
                &&& r.1@.map_values(|s: String| s@) == e.warnings
                &&& r.2@ == e.deps
                &&& counts_view(r.3) == e.tally
                &&& tally_small(e.tally)
            }),
    {
        let ghost v = ops_view(ops@);
        assert(v[i as int] == ops@[i as int]@);
        match &ops[i] {
            FileSystemOperation::Move { source, dest } => {
                let (mut status, warnings0, deps, mut cnt) = Self::move_first(ops, i, source, dest, scope, fs);
                match Self::first_source_index(ops, i, source) {
                    Some(existing) => {
                        let a = cat3("Duplicate source: ", source.display().as_str(), " (also moved in operation #");
                        let m = cat3(a.as_str(), usize_to_text(existing).as_str(), ")");
                        status = ValidationStatus::Conflict(m);
                        cnt.conflicts = cnt.conflicts + 1;
                    },
                    None => {},
                }
                let mut warnings = warnings0;
                if fs.is_dir(source) && !Self::check_path_depth(source) {
                    let mut w: Vec<String> = Vec::new();
                    w.push(cat("Source path is very deep: ", source.display().as_str()));
                    warnings = w;
                    assert(warnings@.map_values(|s: String| s@) =~= seq!["Source path is very deep: "@ + display_spec(source@)]);
                }
                (status, warnings, deps, cnt)
            },
            FileSystemOperation::CreateDir { path } => {
                let r = if fs.is_present(path) {
                    (ValidationStatus::Warning(cat("Directory already exists: ", path.display().as_str())), Vec::new(), Vec::new(), counts(0, 0, 0, 0, 1))
                } else if !Self::is_within_scope(path, scope) {
                    Self::invalid(cat("CreateDir path outside scope: ", path.display().as_str()))
                } else {
                    Self::valid_with(Vec::new())
                };
                assert(r.1@.map_values(|s: String| s@) =~= Seq::<Seq<char>>::empty());
                assert(r.2@ =~= Seq::<usize>::empty());
                r
            },
            FileSystemOperation::Delete { path, .. } => {
                let r = if !fs.is_present(path) {
                    Self::invalid(cat("Delete target not found: ", path.display().as_str()))
                } else if !Self::is_within_scope(path, scope) {
                    Self::invalid(cat("Delete target outside scope: ", path.display().as_str()))
                } else {
                    Self::valid_with(Vec::new())
                };
                assert(r.1@.map_values(|s: String| s@) =~= Seq::<Seq<char>>::empty());
                assert(r.2@ =~= Seq::<usize>::empty());
                r
            },
        }
    }

    fn evaluate(
        ops: &Vec<FileSystemOperation>,
        i: usize,
        scope: &FsPath,
        fs: &FsSnapshot,
        c: &ConstraintSet,
    ) -> (r: (ValidationStatus, Vec<String>, Vec<usize>, Counts))
        requires
            i < ops@.len(),
        ensures
            ({
                let e = eval_op(ops_view(ops@), i as int, scope@, fs@, *c);
                &&& r.0@ == e.status
                &&& r.1@.map_values(|s: String| s@) == e.warnings
                &&& r.2@ == e.deps
                &&& counts_view(r.3) == e.tally
                &&& e.tally.valid <= 1 && e.tally.blocked <= 1 && e.tally.conflicts <= 2 && e.tally.invalid <= 1
                    && e.tally.warnings <= 2
            }),
    {
        let (mut status, mut warnings, deps, mut cnt) = Self::base(ops, i, scope, fs);
        if status.is_valid() && warnings.len() > 0 {
            let ghost before = warnings@.map_values(|s: String| s@);
            let w = warnings.remove(0);
            assert(warnings@.map_values(|s: String| s@) =~= before.drop_first());
            status = ValidationStatus::Warning(w);
            cnt.warnings = cnt.warnings + 1;
        }
        match Self::blocked_under(&ops[i], c) {
            Some(reason) => {
                status = ValidationStatus::BlockedByConstraint(reason);
                cnt.blocked = cnt.blocked + 1;
            },
            None => {},
        }
        if status.is_valid() {
            cnt.valid = cnt.valid + 1;
        }
        (status, warnings, deps, cnt)
    }
}

impl PlanValidator {
    /// Validates each operation of the plan in order against the snapshot
    /// and the intent's constraints, and summarizes the plan.
    pub fn validate(&self, plan: &OperationPlan, intent: &TaskIntent, fs: &FsSnapshot) -> (r: ValidationResult)
        requires
            plan.operations@.len() < usize::MAX / 4,
        ensures
            validation_matches(r, plan.id@, plan.scope@, ops_view(plan.operations@), fs@, intent.constraints),
    {
        self.validate_under(plan, &intent.constraints, fs)
    }

    /// Validates each operation of the plan in order against the snapshot
    /// and the given constraints, and summarizes the plan.
    pub fn validate_under(&self, plan: &OperationPlan, constraints: &ConstraintSet, fs: &FsSnapshot) -> (r: ValidationResult)
        requires
            plan.operations@.len() < usize::MAX / 4,
        ensures
            validation_matches(r, plan.id@, plan.scope@, ops_view(plan.operations@), fs@, *constraints),
    {
        let ops = &plan.operations;
        let c = constraints;
        let scope = &plan.scope;
        let ghost v = ops_view(ops@);
        let n = ops.len();
        let mut validated: Vec<ValidatedOperation> = Vec::new();
        let mut summary = ValidationSummary::new();
        let mut i: usize = 0;
        while i < n
            invariant
                n == ops@.len(),
                n < usize::MAX / 4,
                v == ops_view(ops@),
                i <= n,
                validated@.len() == i,
                forall|j: int|
                    0 <= j < i ==> {
                        let e = eval_op(v, j, scope@, fs@, *c);
                        &&& (#[trigger] validated@[j]).operation@ == v[j]
                        &&& validated@[j].status@ == e.status
                        &&& validated@[j].warnings@.map_values(|s: String| s@) == e.warnings
                        &&& validated@[j].dependencies@ == e.deps
                    },
                ({
                    let t = tally_upto(v, i as int, scope@, fs@, *c);
                    &&& summary.valid == t.valid
                    &&& summary.blocked == t.blocked
                    &&& summary.conflicts == t.conflicts
                    &&& summary.invalid == t.invalid
                    &&& summary.warnings == t.warnings
                }),
                summary.valid <= 2 * i,
                summary.blocked <= 2 * i,
                summary.conflicts <= 2 * i,
                summary.invalid <= 2 * i,
                summary.warnings <= 2 * i,
                summary.total == 0,
            decreases n - i,
        {
            let (status, warnings, deps, cnt) = Self::evaluate(ops, i, scope, fs, c);
            summary.valid = summary.valid + cnt.valid;
            summary.blocked = summary.blocked + cnt.blocked;
            summary.conflicts = summary.conflicts + cnt.conflicts;
            summary.invalid = summary.invalid + cnt.invalid;
            summary.warnings = summary.warnings + cnt.warnings;
            let operation = ops[i].copy();
            assert(v[i as int] == ops@[i as int]@);
            validated.push(ValidatedOperation { operation, status, warnings, dependencies: deps });
            i = i + 1;
        }
        let has_conflicts = Self::detect_op_conflicts(ops);
        let mut has_blocked = false;
        let mut has_invalid = false;
        let mut has_warnings = false;
        let mut k: usize = 0;
        while k < validated.len()
            invariant
                k <= validated@.len(),
                has_blocked == exists|j: int| 0 <= j < k && (#[trigger] validated@[j]).status@ is Blocked,
                has_invalid == exists|j: int| 0 <= j < k && (#[trigger] validated@[j]).status@ is Invalid,
                has_warnings == exists|j: int| 0 <= j < k && (#[trigger] validated@[j]).status@ is Warning,
            decreases validated@.len() - k,
        {
            let st = &validated[k].status;
            if st.is_blocked() {
                has_blocked = true;
            }
            if st.is_invalid() {
                has_invalid = true;
            }
            if st.is_warning() {
                has_warnings = true;
            }
            k = k + 1;
        }
        summary.total = n;
        let executable_operations = summary.valid;
        ValidationResult {
            plan_id: plan.id.clone(),
            scope: scope.copy(),
            validated_operations: validated,
            summary,
            has_blocked,
            has_conflicts,
            has_invalid,
            has_warnings,
            executable_operations,
        }
    }
}

/// Facts about a found first source persist as the prefix grows.
proof fn lemma_first_source_stable(v: Seq<OpView>, j: int, k: int, src: PathView)
    requires
        0 <= j <= k,
        first_source(v, j, src) is Some,
    ensures
        first_source(v, k, src) == first_source(v, j, src),
    decreases k - j,
{
    if k > j {
        lemma_first_source_stable(v, j, k - 1, src);
    }
}


// ------------------------------------------------------ plan consistency

/// Operation `i` is a move whose source an earlier move already moves.
pub open spec fn repeats_source(ops: Seq<OpView>, i: int) -> bool {
    ops[i] is Move && exists|j: int| 0 <= j < i && (#[trigger] ops[j]) is Move && ops[j]->Move_source == ops[i]->Move_source
}

/// Operation `i` creates a directory an earlier operation already creates.
pub open spec fn repeats_create(ops: Seq<OpView>, i: int) -> bool {
    ops[i] is CreateDir && exists|j: int|
        0 <= j < i && (#[trigger] ops[j]) is CreateDir && ops[j]->CreateDir_path == ops[i]->CreateDir_path
}

/// Operation `i` is the first move into its destination.
pub open spec fn first_into_dest(ops: Seq<OpView>, i: int) -> bool {
    ops[i] is Move && !exists|j: int| 0 <= j < i && (#[trigger] ops[j]) is Move && ops[j]->Move_dest == ops[i]->Move_dest
}

/// How many moves among the first `k` operations go to `d`.
pub open spec fn moves_into(ops: Seq<OpView>, k: int, d: PathView) -> nat
    decreases k,
{
    if k <= 0 || k > ops.len() {
        0
    } else {
        moves_into(ops, k - 1, d) + if ops[k - 1] is Move && ops[k - 1]->Move_dest == d {
            1nat
        } else {
            0nat
        }
    }
}

/// A message for each repeated move source among the first `k` operations.
pub open spec fn source_issues(ops: Seq<OpView>, k: int) -> Seq<Seq<char>>
    decreases k,
{
    if k <= 0 || k > ops.len() {
        seq![]
    } else if repeats_source(ops, k - 1) {
        source_issues(ops, k - 1).push("Duplicate source: "@ + display_spec(ops[k - 1]->Move_source))
    } else {
        source_issues(ops, k - 1)
    }
}

/// A message for each repeated directory creation among the first `k` operations.
pub open spec fn create_issues(ops: Seq<OpView>, k: int) -> Seq<Seq<char>>
    decreases k,
{
    if k <= 0 || k > ops.len() {
        seq![]
    } else if repeats_create(ops, k - 1) {
        create_issues(ops, k - 1).push("Duplicate CreateDir: "@ + display_spec(ops[k - 1]->CreateDir_path))
    } else {
        create_issues(ops, k - 1)
    }
}

/// A message for each destination, in order of its first move among the first
/// `k` operations, that more than one move of the plan targets.
pub open spec fn collision_issues(ops: Seq<OpView>, k: int) -> Seq<Seq<char>>
    decreases k,
{
    if k <= 0 || k > ops.len() {
        seq![]
    } else if first_into_dest(ops, k - 1) && moves_into(ops, ops.len() as int, ops[k - 1]->Move_dest) > 1 {
        collision_issues(ops, k - 1).push(
            "Destination "@ + display_spec(ops[k - 1]->Move_dest) + " is target of "@ + decimal(
                moves_into(ops, ops.len() as int, ops[k - 1]->Move_dest),
            ) + " move operations (potential collision)"@,
        )
    } else {
        collision_issues(ops, k - 1)
    }
}

/// The consistency issues of a plan: repeated sources, repeated directory
/// creations, then colliding destinations.
pub open spec fn consistency_issues(ops: Seq<OpView>) -> Seq<Seq<char>> {
    let n = ops.len() as int;
    source_issues(ops, n) + create_issues(ops, n) + collision_issues(ops, n)
}

fn seen_source_before(ops: &Vec<FileSystemOperation>, i: usize, src: &FsPath) -> (b: bool)
    requires
        i <= ops@.len(),
    ensures
        b == exists|j: int|
            0 <= j < i && (#[trigger] ops_view(ops@)[j]) is Move && ops_view(ops@)[j]->Move_source == src@,
{
    let ghost v = ops_view(ops@);
    let mut j: usize = 0;
    while j < i
        invariant
            i <= ops@.len(),
            v == ops_view(ops@),
            j <= i,
            forall|k: int| 0 <= k < j ==> !((#[trigger] v[k]) is Move && v[k]->Move_source == src@),
        decreases i - j,
    {
        assert(v[j as int] == ops@[j as int]@);
        match &ops[j] {
            FileSystemOperation::Move { source, .. } => {
                if source.same_as(src) {
                    return true;
                }
            },
            _ => {},
        }
        j = j + 1;
    }
    false
}

fn seen_create_before(ops: &Vec<FileSystemOperation>, i: usize, path: &FsPath) -> (b: bool)
    requires
        i <= ops@.len(),
    ensures
        b == exists|j: int|
            0 <= j < i && (#[trigger] ops_view(ops@)[j]) is CreateDir && ops_view(ops@)[j]->CreateDir_path == path@,
{
    let ghost v = ops_view(ops@);
    let mut j: usize = 0;
    while j < i
        invariant
            i <= ops@.len(),
            v == ops_view(ops@),
            j <= i,
            forall|k: int| 0 <= k < j ==> !((#[trigger] v[k]) is CreateDir && v[k]->CreateDir_path == path@),
        decreases i - j,
    {
        assert(v[j as int] == ops@[j as int]@);
        match &ops[j] {
            FileSystemOperation::CreateDir { path: p } => {
                if p.same_as(path) {
                    return true;
                }
            },
            _ => {},
        }
        j = j + 1;
    }
    false
}

fn seen_dest_before(ops: &Vec<FileSystemOperation>, i: usize, dest: &FsPath) -> (b: bool)
    requires
        i <= ops@.len(),
    ensures
        b == exists|j: int| 0 <= j < i && (#[trigger] ops_view(ops@)[j]) is Move && ops_view(ops@)[j]->Move_dest == dest@,
{
    let ghost v = ops_view(ops@);
    let mut j: usize = 0;
    while j < i
        invariant
            i <= ops@.len(),
            v == ops_view(ops@),
            j <= i,
            forall|k: int| 0 <= k < j ==> !((#[trigger] v[k]) is Move && v[k]->Move_dest == dest@),
        decreases i - j,
    {
        assert(v[j as int] == ops@[j as int]@);
        match &ops[j] {
            FileSystemOperation::Move { dest: d, .. } => {
                if d.same_as(dest) {
                    return true;
                }
            },
            _ => {},
        }
        j = j + 1;
    }
    false
}

fn count_moves_into(ops: &Vec<FileSystemOperation>, dest: &FsPath) -> (r: usize)
    ensures
        r == moves_into(ops_view(ops@), ops@.len() as int, dest@),
{
    let ghost v = ops_view(ops@);
    let mut c: usize = 0;
    let mut j: usize = 0;
    while j < ops.len()
        invariant
            v == ops_view(ops@),
            j <= ops@.len(),
            c == moves_into(v, j as int, dest@),
            c <= j,
        decreases ops@.len() - j,
    {
        assert(v[j as int] == ops@[j as int]@);
        match &ops[j] {
            FileSystemOperation::Move { dest: d, .. } => {
                if d.same_as(dest) {
                    c = c + 1;
                }
            },
            _ => {},
        }
        j = j + 1;
    }
    c
}

impl PlanValidator {
    /// The plan's internal inconsistencies: a source moved twice, a directory
    /// created twice, and destinations that several moves target.
    pub fn validate_plan_consistency(&self, plan: &OperationPlan) -> (r: Vec<String>)
        ensures
            r@.map_values(|s: String| s@) == consistency_issues(ops_view(plan.operations@)),
    {
        let ops = &plan.operations;
        let ghost v = ops_view(ops@);
        let n = ops.len();
        let mut issues: Vec<String> = Vec::new();
        let mut i: usize = 0;
        while i < n
            invariant
                n == ops@.len(),
                v == ops_view(ops@),
                i <= n,
                issues@.map_values(|s: String| s@) == source_issues(v, i as int),
            decreases n - i,
        {
            assert(v[i as int] == ops@[i as int]@);
            match &ops[i] {
                FileSystemOperation::Move { source, .. } => {
                    if seen_source_before(ops, i, source) {
                        let ghost prev = issues@.map_values(|s: String| s@);
                        issues.push(cat("Duplicate source: ", source.display().as_str()));
                        assert(issues@.map_values(|s: String| s@) =~= prev.push(
                            "Duplicate source: "@ + display_spec(source@),
                        ));
                    }
                },
                _ => {},
            }
            i = i + 1;
        }
        let ghost part1 = issues@.map_values(|s: String| s@);
        let mut i: usize = 0;
        while i < n
            invariant
                n == ops@.len(),
                v == ops_view(ops@),
                i <= n,
                issues@.map_values(|s: String| s@) == part1 + create_issues(v, i as int),
            decreases n - i,
        {
            assert(v[i as int] == ops@[i as int]@);
            match &ops[i] {
                FileSystemOperation::CreateDir { path } => {
                    if seen_create_before(ops, i, path) {
                        let ghost prev = issues@.map_values(|s: String| s@);
                        issues.push(cat("Duplicate CreateDir: ", path.display().as_str()));
                        assert(issues@.map_values(|s: String| s@) =~= prev.push(
                            "Duplicate CreateDir: "@ + display_spec(path@),
                        ));
                    }
                },
                _ => {},
            }
            i = i + 1;
            assert(part1 + create_issues(v, i as int) =~= issues@.map_values(|s: String| s@));
        }
        let ghost part2 = issues@.map_values(|s: String| s@);
        let mut i: usize = 0;
        while i < n
            invariant
                n == ops@.len(),
                v == ops_view(ops@),
                i <= n,
                issues@.map_values(|s: String| s@) == part2 + collision_issues(v, i as int),
            decreases n - i,
        {
            assert(v[i as int] == ops@[i as int]@);
            match &ops[i] {
                FileSystemOperation::Move { dest, .. } => {
                    if !seen_dest_before(ops, i, dest) {
                        let c = count_moves_into(ops, dest);
                        if c > 1 {
                            let a = cat3("Destination ", dest.display().as_str(), " is target of ");
                            let b = cat3(a.as_str(), usize_to_text(c).as_str(), " move operations (potential collision)");
                            let ghost prev = issues@.map_values(|s: String| s@);
                            issues.push(b);
                            assert(issues@.map_values(|s: String| s@) =~= prev.push(b@));
                        }
                    }
                },
                _ => {},
            }
            i = i + 1;
            assert(part2 + collision_issues(v, i as int) =~= issues@.map_values(|s: String| s@));
        }
        assert(consistency_issues(v) =~= part2 + collision_issues(v, n as int));
        issues
    }
}


/// The operations, among the first `k`, that validation lets run: the valid
/// ones and those with a warning, in plan order.
pub open spec fn executable_ops(ops: Seq<OpView>, k: int, scope: PathView, fs: FsView, c: ConstraintSet) -> Seq<OpView>
    decreases k,
{
    if k <= 0 || k > ops.len() {
        seq![]
    } else {
        let prev = executable_ops(ops, k - 1, scope, fs, c);
        let st = eval_op(ops, k - 1, scope, fs, c).status;
        if st is Valid || st is Warning {
            prev.push(ops[k - 1])
        } else {
            prev
        }
    }
}

/// The operations of validated operations whose verdict is valid or a warning, in order.
pub open spec fn runnable_operations(vs: Seq<ValidatedOperation>) -> Seq<OpView>
    decreases vs.len(),
{
    if vs.len() == 0 {
        seq![]
    } else {
        let prev = runnable_operations(vs.drop_last());
        let x = vs.last();
        if x.status@ is Valid || x.status@ is Warning {
            prev.push(x.operation@)
        } else {
            prev
        }
    }
}

proof fn lemma_executable_prefix(r: ValidationResult, plan_id: Seq<char>, scope: PathView, ops: Seq<OpView>, fs: FsView, c: ConstraintSet, k: int)
    requires
        validation_matches(r, plan_id, scope, ops, fs, c),
        0 <= k <= ops.len(),
    ensures
        executable_ops(ops, k, scope, fs, c) == runnable_operations(r.validated_operations@.take(k)),
        executable_ops(ops, k, scope, fs, c).len() <= k,
    decreases k,
{
    let vs = r.validated_operations@;
    if k > 0 {
        lemma_executable_prefix(r, plan_id, scope, ops, fs, c, k - 1);
        assert(vs.take(k).drop_last() =~= vs.take(k - 1));
        assert(vs.take(k).last() == vs[k - 1]);
    } else {
        assert(vs.take(0) =~= Seq::<ValidatedOperation>::empty());
    }
}

/// Filtering keeps what validation lets run: for any result of validating
/// the same operations under the same snapshot and constraints, the
/// operations `filter_executable` keeps are exactly those whose verdict there
/// is valid or a warning, in plan order, and never more than the plan had.
pub proof fn law_filter_keeps_runnable_verdicts(
    r: ValidationResult,
    plan_id: Seq<char>,
    scope: PathView,
    ops: Seq<OpView>,
    fs: FsView,
    c: ConstraintSet,
)
    requires
        validation_matches(r, plan_id, scope, ops, fs, c),
    ensures
        executable_ops(ops, ops.len() as int, scope, fs, c) == runnable_operations(r.validated_operations@),
        executable_ops(ops, ops.len() as int, scope, fs, c).len() <= ops.len(),
{
    lemma_executable_prefix(r, plan_id, scope, ops, fs, c, ops.len() as int);
    assert(r.validated_operations@.take(ops.len() as int) =~= r.validated_operations@);
}

impl PlanValidator {
    /// The plan restricted to the operations validation lets run, under an
    /// id derived from its creation time.
    pub fn filter_executable(&self, plan: &OperationPlan, intent: &TaskIntent, fs: &FsSnapshot) -> (r: OperationPlan)
        requires
            plan.operations@.len() < usize::MAX / 4,
        ensures
            r.id@ == "plan-exec-"@ + decimal(plan.created_at as nat),
            ops_view(r.operations@) == executable_ops(
                ops_view(plan.operations@),
                plan.operations@.len() as int,
                plan.scope@,
                fs@,
                intent.constraints,
            ),
            r.recommendation_id@ == plan.recommendation_id@,
            r.scope@ == plan.scope@,
            r.estimated_impact == plan.estimated_impact,
            warnings_view(r.validation_warnings@) == warnings_view(plan.validation_warnings@),
            r.has_conflicts == plan.has_conflicts,
            unresolved_view(r.unresolved_proposals@) == unresolved_view(plan.unresolved_proposals@),
            r.dry_run == plan.dry_run,
            r.created_at == plan.created_at,
            r.validation_context == plan.validation_context,
    {
        let result = self.validate(plan, intent, fs);
        let ghost v = ops_view(plan.operations@);
        let n = result.validated_operations.len();
        let mut executable: Vec<FileSystemOperation> = Vec::new();
        let mut i: usize = 0;
        while i < n
            invariant
                n == plan.operations@.len(),
                n == result.validated_operations@.len(),
                v == ops_view(plan.operations@),
                validation_matches(result, plan.id@, plan.scope@, v, fs@, intent.constraints),
                i <= n,
                ops_view(executable@) == executable_ops(v, i as int, plan.scope@, fs@, intent.constraints),
            decreases n - i,
        {
            let vo = &result.validated_operations[i];
            assert(vo.operation@ == v[i as int]);
            if vo.status.is_valid() || vo.status.is_warning() {
                let ghost prev = ops_view(executable@);
                executable.push(vo.operation.copy());
                assert(ops_view(executable@) =~= prev.push(v[i as int]));
            }
            i = i + 1;
        }
        OperationPlan {
            id: cat("plan-exec-", u64_to_text(plan.created_at).as_str()),
            recommendation_id: plan.recommendation_id.clone(),
            scope: plan.scope.copy(),
            operations: executable,
            estimated_impact: plan.estimated_impact,
            validation_warnings: copy_warnings(&plan.validation_warnings),
            has_conflicts: plan.has_conflicts,
            unresolved_proposals: copy_unresolved(&plan.unresolved_proposals),
            dry_run: plan.dry_run,
            created_at: plan.created_at,
            validation_context: plan.validation_context,
        }
    }
}


// ------------------------------------------------------ preview

/// The mark in front of an operation's line.
pub open spec fn status_tag(s: StatusView) -> Seq<char> {
    match s {
        StatusView::Valid => "  ✓"@,
        StatusView::Blocked(_) => "  ✗"@,
        StatusView::Conflict(_) => "  ⚠"@,
        StatusView::Invalid(_) => "  ✗"@,
        StatusView::Warning(_) => "  ⚠"@,
    }
}

/// One line per dependency.
pub open spec fn dependency_lines(deps: Seq<usize>) -> Seq<char>
    decreases deps.len(),
{
    if deps.len() == 0 {
        seq![]
    } else {
        dependency_lines(deps.drop_last()) + "    depends on operation #"@ + decimal(deps.last() as nat) + "\n"@
    }
}

/// The line of a validated operation, with its dependency lines.
pub open spec fn operation_lines(v: ValidatedOperation) -> Seq<char> {
    status_tag(v.status@) + " ["@ + status_text(v.status@) + "] "@ + crate::plan::description_spec(v.operation@)
        + "\n"@ + dependency_lines(v.dependencies@)
}

/// The lines of the validated operations, in order.
pub open spec fn all_operation_lines(vs: Seq<ValidatedOperation>) -> Seq<char>
    decreases vs.len(),
{
    if vs.len() == 0 {
        seq![]
    } else {
        all_operation_lines(vs.drop_last()) + operation_lines(vs.last())
    }
}

/// A count followed by a line break.
pub open spec fn num_line(label: Seq<char>, n: nat) -> Seq<char> {
    label + decimal(n) + "\n"@
}

/// The first lines of a preview: plan id, scope, dry-run flag and counts.
pub open spec fn header_spec(plan: OperationPlan, v: ValidationResult) -> Seq<char> {
    "Operation Plan: "@ + plan.id@ + "\n"@ + ("Scope: "@ + display_spec(plan.scope@) + "\n"@) + ("Dry run: "@ + (
    if plan.dry_run {
        "Yes"@
    } else {
        "No"@
    }) + "\n"@) + ("Status: "@ + decimal(v.summary.total as nat) + " total, "@) + (decimal(
        v.executable_operations as nat,
    ) + " executable\n"@) + "\n"@
}

/// The validation-summary block of a preview.
pub open spec fn summary_spec(v: ValidationResult) -> Seq<char> {
    "=== Validation Summary ===\n"@ + num_line("  VALID:     "@, v.summary.valid as nat) + num_line(
        "  BLOCKED:   "@,
        v.summary.blocked as nat,
    ) + num_line("  CONFLICT:  "@, v.summary.conflicts as nat) + num_line("  INVALID:   "@, v.summary.invalid as nat)
        + num_line("  WARNING:   "@, v.summary.warnings as nat) + "\n"@
}

/// The estimated-impact block of a preview.
pub open spec fn impact_spec(plan: OperationPlan) -> Seq<char> {
    "\n"@ + "=== Estimated Impact ===\n"@ + num_line("  Files moved:  "@, plan.estimated_impact.files_moved as nat)
        + num_line("  Dirs created: "@, plan.estimated_impact.dirs_created as nat) + num_line(
        "  Dirs affected: "@,
        plan.estimated_impact.dirs_affected as nat,
    ) + num_line("  Total bytes:  "@, plan.estimated_impact.total_bytes as nat)
}

/// Why a proposed file was left out, in words.
pub open spec fn reason_description(r: UnresolvedReason) -> Seq<char> {
    match r {
        UnresolvedReason::MissingFile => "Missing file"@,
        UnresolvedReason::Ambiguous => "Ambiguous: claimed by more than one category"@,
        UnresolvedReason::AlreadyOrganized => "Already organized"@,
        UnresolvedReason::DestinationOutsideScope => "Destination outside scope"@,
        UnresolvedReason::InvalidDestination => "Invalid destination: another file goes there"@,
        UnresolvedReason::ConflictingDestination => "Conflicting destination: a file already exists there"@,
    }
}

/// The preview line of a proposed file that was left out: the file, why, and its category.
pub open spec fn unresolved_item_line(u: UnresolvedItem) -> Seq<char> {
    "  ⚠️  "@ + display_spec(u.file@) + ": "@ + reason_description(u.reason) + " ("@ + u.category@ + ")\n"@
}

pub open spec fn unresolved_item_lines(us: Seq<UnresolvedItem>) -> Seq<char>
    decreases us.len(),
{
    if us.len() == 0 {
        seq![]
    } else {
        unresolved_item_lines(us.drop_last()) + unresolved_item_line(us.last())
    }
}

/// The block listing the plan's unresolved proposal items, when it has any.
pub open spec fn unresolved_section(us: Seq<UnresolvedItem>) -> Seq<char> {
    if us.len() == 0 {
        seq![]
    } else {
        "\n=== Unresolved Proposal Items ===\n"@ + unresolved_item_lines(us)
    }
}

/// The preview of a plan with its validation: header, validation summary, then
/// the operations with their verdicts, the proposal items left unresolved,
/// and the estimated impact.
pub open spec fn render_spec(plan: OperationPlan, v: ValidationResult) -> Seq<char> {
    if plan.operations@.len() == 0 {
        header_spec(plan, v) + summary_spec(v) + "No operations proposed.\n"@ + unresolved_section(
            plan.unresolved_proposals@,
        )
    } else {
        header_spec(plan, v) + summary_spec(v) + "=== Operations ===\n"@ + all_operation_lines(v.validated_operations@)
            + unresolved_section(plan.unresolved_proposals@) + impact_spec(plan) + if plan.has_conflicts {
            "\n⚠️  Plan has detected conflicts\n"@
        } else {
            seq![]
        }
    }
}

fn header_text(plan: &OperationPlan, validation: &ValidationResult) -> (r: String)
    ensures
        r@ == header_spec(*plan, *validation),
{
    let mut out = cat3("Operation Plan: ", plan.id.as_str(), "\n");
    out.append(cat3("Scope: ", plan.scope.display().as_str(), "\n").as_str());
    out.append(cat3("Dry run: ", if plan.dry_run { "Yes" } else { "No" }, "\n").as_str());
    out.append(cat3("Status: ", usize_to_text(validation.summary.total).as_str(), " total, ").as_str());
    out.append(cat(usize_to_text(validation.executable_operations).as_str(), " executable\n").as_str());
    out.append("\n");
    out
}

fn summary_text(validation: &ValidationResult) -> (r: String)
    ensures
        r@ == summary_spec(*validation),
{
    let mut out = owned("=== Validation Summary ===\n");
    out.append(num_text("  VALID:     ", validation.summary.valid as u64).as_str());
    out.append(num_text("  BLOCKED:   ", validation.summary.blocked as u64).as_str());
    out.append(num_text("  CONFLICT:  ", validation.summary.conflicts as u64).as_str());
    out.append(num_text("  INVALID:   ", validation.summary.invalid as u64).as_str());
    out.append(num_text("  WARNING:   ", validation.summary.warnings as u64).as_str());
    out.append("\n");
    out
}

fn impact_text(plan: &OperationPlan) -> (r: String)
    ensures
        r@ == impact_spec(*plan),
{
    let mut out = owned("\n");
    out.append("=== Estimated Impact ===\n");
    out.append(num_text("  Files moved:  ", plan.estimated_impact.files_moved).as_str());
    out.append(num_text("  Dirs created: ", plan.estimated_impact.dirs_created).as_str());
    out.append(num_text("  Dirs affected: ", plan.estimated_impact.dirs_affected).as_str());
    out.append(num_text("  Total bytes:  ", plan.estimated_impact.total_bytes).as_str());
    out
}

fn reason_description_text(r: UnresolvedReason) -> (s: &'static str)
    ensures
        s@ == reason_description(r),
{
    match r {
        UnresolvedReason::MissingFile => "Missing file",
        UnresolvedReason::Ambiguous => "Ambiguous: claimed by more than one category",
        UnresolvedReason::AlreadyOrganized => "Already organized",
        UnresolvedReason::DestinationOutsideScope => "Destination outside scope",
        UnresolvedReason::InvalidDestination => "Invalid destination: another file goes there",
        UnresolvedReason::ConflictingDestination => "Conflicting destination: a file already exists there",
    }
}

fn unresolved_section_text(us: &Vec<UnresolvedItem>) -> (r: String)
    ensures
        r@ == unresolved_section(us@),
{
    if us.len() == 0 {
        return String::new();
    }
    let mut out = owned("\n=== Unresolved Proposal Items ===\n");
    let mut body = String::new();
    let mut i: usize = 0;
    assert(us@.take(0) =~= Seq::<UnresolvedItem>::empty());
    while i < us.len()
        invariant
            i <= us@.len(),
            body@ == unresolved_item_lines(us@.take(i as int)),
        decreases us@.len() - i,
    {
        let u = &us[i];
        let a = cat3("  ⚠️  ", u.file.display().as_str(), ": ");
        let b = cat3(a.as_str(), reason_description_text(u.reason), " (");
        body.append(cat3(b.as_str(), u.category.as_str(), ")\n").as_str());
        assert(us@.take(i + 1).drop_last() =~= us@.take(i as int));
        i = i + 1;
    }
    assert(us@.take(us@.len() as int) =~= us@);
    out.append(body.as_str());
    out
}

/// Renders a plan together with its validation for the user.
pub struct PlanPreview;

impl Default for PlanPreview {
    fn default() -> (r: PlanPreview) {
        PlanPreview
    }
}

fn num_text(label: &str, n: u64) -> (r: String)
    ensures
        r@ == num_line(label@, n as nat),
{
    cat3(label, u64_to_text(n).as_str(), "\n")
}

fn validated_lines(v: &ValidatedOperation) -> (r: String)
    ensures
        r@ == operation_lines(*v),
{
    let tag = match &v.status {
        ValidationStatus::Valid => "  ✓",
        ValidationStatus::BlockedByConstraint(_) => "  ✗",
        ValidationStatus::Conflict(_) => "  ⚠",
        ValidationStatus::Invalid(_) => "  ✗",
        ValidationStatus::Warning(_) => "  ⚠",
    };
    let mut out = cat3(tag, " [", v.status.to_text().as_str());
    out.append("] ");
    out.append(v.operation.description().as_str());
    out.append("\n");
    let deps = &v.dependencies;
    let mut i: usize = 0;
    let ghost head = out@;
    assert(deps@.take(0) =~= Seq::<usize>::empty());
    while i < deps.len()
        invariant
            i <= deps@.len(),
            out@ == head + dependency_lines(deps@.take(i as int)),
        decreases deps@.len() - i,
    {
        let line = cat3("    depends on operation #", usize_to_text(deps[i]).as_str(), "\n");
        out.append(line.as_str());
        assert(deps@.take(i + 1).drop_last() =~= deps@.take(i as int));
        i = i + 1;
    }
    assert(deps@.take(deps@.len() as int) =~= deps@);
    out
}

impl PlanPreview {
    /// The plan and its validation as text.
    pub fn render(&self, plan: &OperationPlan, validation: &ValidationResult) -> (r: String)
        ensures
            r@ == render_spec(*plan, *validation),
    {
        let mut out = header_text(plan, validation);
        out.append(summary_text(validation).as_str());
        if plan.operations.len() == 0 {
            out.append("No operations proposed.\n");
            out.append(unresolved_section_text(&plan.unresolved_proposals).as_str());
            return out;
        }
        out.append("=== Operations ===\n");
        let vs = &validation.validated_operations;
        let ghost head = out@;
        let mut body = String::new();
        let mut i: usize = 0;
        assert(vs@.take(0) =~= Seq::<ValidatedOperation>::empty());
        while i < vs.len()
            invariant
                i <= vs@.len(),
                body@ == all_operation_lines(vs@.take(i as int)),
            decreases vs@.len() - i,
        {
            body.append(validated_lines(&vs[i]).as_str());
            assert(vs@.take(i + 1).drop_last() =~= vs@.take(i as int));
            i = i + 1;
        }
        assert(vs@.take(vs@.len() as int) =~= vs@);
        out.append(body.as_str());
        out.append(unresolved_section_text(&plan.unresolved_proposals).as_str());
        out.append(impact_text(plan).as_str());
        if plan.has_conflicts {
            out.append("\n⚠️  Plan has detected conflicts\n");
        } else {
            assert(out@ + Seq::<char>::empty() =~= out@);
        }
        out
    }
}


/// The number of validated operations whose verdict is valid.
pub open spec fn valid_count(vs: Seq<ValidatedOperation>) -> nat
    decreases vs.len(),
{
    if vs.len() == 0 {
        0
    } else {
        valid_count(vs.drop_last()) + if vs.last().status@ is Valid { 1nat } else { 0nat }
    }
}

proof fn lemma_valid_tally(r: ValidationResult, plan_id: Seq<char>, scope: PathView, ops: Seq<OpView>, fs: FsView, c: ConstraintSet, k: int)
    requires
        validation_matches(r, plan_id, scope, ops, fs, c),
        0 <= k <= ops.len(),
    ensures
        tally_upto(ops, k, scope, fs, c).valid == valid_count(r.validated_operations@.take(k)),
    decreases k,
{
    let vs = r.validated_operations@;
    if k > 0 {
        lemma_valid_tally(r, plan_id, scope, ops, fs, c, k - 1);
        assert(vs.take(k).drop_last() =~= vs.take(k - 1));
        assert(vs.take(k).last() == vs[k - 1]);
        let e = eval_op(ops, k - 1, scope, fs, c);
        assert(vs[k - 1].status@ == e.status);
        assert(base_eval(ops, k - 1, scope, fs).tally.valid == 0);
    } else {
        assert(vs.take(0) =~= Seq::<ValidatedOperation>::empty());
    }
}

proof fn lemma_valid_count_below(vs: Seq<ValidatedOperation>, i: int)
    requires
        0 <= i < vs.len(),
        !(vs[i].status@ is Valid),
    ensures
        valid_count(vs) < vs.len(),
    decreases vs.len(),
{
    if i < vs.len() - 1 {
        lemma_valid_count_below(vs.drop_last(), i);
    } else {
        lemma_valid_count_at_most(vs.drop_last());
    }
}

proof fn lemma_valid_count_at_most(vs: Seq<ValidatedOperation>)
    ensures
        valid_count(vs) <= vs.len(),
    decreases vs.len(),
{
    if vs.len() > 0 {
        lemma_valid_count_at_most(vs.drop_last());
    }
}

/// While existing folders are preserved, no deletion runs: every delete
/// operation is blocked by a constraint, the plan has blocked operations, the
/// executable operations are exactly those judged valid, and the delete is not
/// among them, so fewer operations are executable than the plan has.
pub proof fn law_preserved_folders_block_deletes(
    r: ValidationResult,
    plan_id: Seq<char>,
    scope: PathView,
    ops: Seq<OpView>,
    fs: FsView,
    c: ConstraintSet,
    i: int,
)
    requires
        validation_matches(r, plan_id, scope, ops, fs, c),
        c.preserve_existing_folders,
        0 <= i < ops.len(),
        ops[i] is Delete,
    ensures
        r.validated_operations@[i].status@ is Blocked,
        r.has_blocked,
        r.executable_operations == valid_count(r.validated_operations@),
        r.executable_operations < ops.len(),
{
    let vs = r.validated_operations@;
    assert(vs[i].status@ == eval_op(ops, i, scope, fs, c).status);
    lemma_valid_tally(r, plan_id, scope, ops, fs, c, ops.len() as int);
    assert(vs.take(ops.len() as int) =~= vs);
    lemma_valid_count_below(vs, i);
}


/// While temporary files may not be deleted, no temporary file is touched:
/// deleting a path whose text mentions `temp` or `tmp`, or moving a file to a
/// `.tmp`, `.temp` or `.crdownload` name, is blocked by a constraint.
pub proof fn law_temp_operations_blocked_without_auto_delete(
    r: ValidationResult,
    plan_id: Seq<char>,
    scope: PathView,
    ops: Seq<OpView>,
    fs: FsView,
    c: ConstraintSet,
    i: int,
)
    requires
        validation_matches(r, plan_id, scope, ops, fs, c),
        !c.auto_delete_temps,
        0 <= i < ops.len(),
        (ops[i] matches OpView::Delete { path, .. } && (seq_contains(lowercase_of(display_spec(path)), "temp"@)
            || seq_contains(lowercase_of(display_spec(path)), "tmp"@))) || (ops[i] matches OpView::Move { dest, .. }
            && (extension_spec(dest) == Some("tmp"@) || extension_spec(dest) == Some("temp"@) || extension_spec(dest)
            == Some("crdownload"@))),
    ensures
        r.validated_operations@[i].status@ == StatusView::Blocked("auto_delete_temps is false"@),
        r.has_blocked,
{
    assert(r.validated_operations@[i].status@ == eval_op(ops, i, scope, fs, c).status);
}

/// Constraints block nothing when temporary files may be deleted and existing
/// folders need not be kept: no operation's verdict is a constraint block.
pub proof fn law_permissive_constraints_block_nothing(
    r: ValidationResult,
    plan_id: Seq<char>,
    scope: PathView,
    ops: Seq<OpView>,
    fs: FsView,
    c: ConstraintSet,
)
    requires
        validation_matches(r, plan_id, scope, ops, fs, c),
        c.auto_delete_temps,
        !c.preserve_existing_folders,
    ensures
        forall|i: int| 0 <= i < ops.len() ==> !(#[trigger] r.validated_operations@[i].status@ is Blocked),
        !r.has_blocked,
{
    assert forall|i: int| 0 <= i < ops.len() implies !(#[trigger] r.validated_operations@[i].status@ is Blocked) by {
        assert(r.validated_operations@[i].status@ == eval_op(ops, i, scope, fs, c).status);
    }
}

} // verus!

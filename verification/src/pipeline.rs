//! The pipeline that ties the stages together: intent parsing, plan
//! generation with its integrity checks, validation, the policy decision,
//! execution, verification and undo. Filesystem work is carried out by the
//! caller between the decisions made here.
use crate::analysis::{analyzer_error_message, AnalyzerError, CandidateCategory, EvidenceAnalyzer};
use crate::clarification::ClarificationEngine;
use crate::executor::{
    apply_error_message, ApplyError, ApplyResult, Executor, OperationLog, StepRecord, UndoRecord, UndoResult,
};
use crate::intent::{intent_error_message, ConstraintSet, Goal, IntentParseError, ScopeEnv, TaskIntent, TaskIntentParser};
use crate::path::{display_spec, join_spec, parse_spec, FsPath, PathView};
use crate::plan::{
    generation_matches, names_of, ops_view, proposed_view, plan_error_message, OpView, OperationPlan, PlanError, PlanErrorView,
    PlanGenerator, PlanValidationContext,
};
use crate::policy::{evaluate_spec, Approval, Policy, PolicyDecision};
use crate::recommendation::{
    normalize_spec, proposal_assigns_files, recommendation_error_message, ClassificationDecision,
    ClassificationOutcome, ProposedOperation, ProposedView, Recommendation, RecommendationEngine, RecommendationError,
};
use crate::snapshot::{exists_in, FsSnapshot, FsView};
use crate::text::{cat, cat3, lowercase_of, owned, seq_contains, str_contains, str_eq, to_lowercase};
use crate::validate::{
    ops_conflict, validation_matches, PlanPreview, PlanValidator, StatusView, ValidatedOperation, ValidationResult,
    ValidationStatus, ValidationSummary,
};
use crate::verification::{CapturedState, ExecutionVerificationResult, ExecutionVerifier};
use vstd::prelude::*;

verus! {

/// Why a pipeline stage failed.
#[derive(Clone, Debug, PartialEq, Eq)]
pub enum PipelineError {
    IntentParse(String),
    Analysis(AnalyzerError),
    Recommendation(RecommendationError),
    Plan(PlanError),
    Apply(ApplyError),
    PolicyRejected,
    ApprovalRequired(Approval),
    ApprovalMismatch,
    Io(String),
}

pub open spec fn pipeline_error_message(e: PipelineError) -> Seq<char> {
    match e {
        PipelineError::IntentParse(m) => "Intent parse error: "@ + m@,
        PipelineError::Analysis(a) => "Analysis error: "@ + analyzer_error_message(a),
        PipelineError::Recommendation(r) => "Recommendation error: "@ + recommendation_error_message(r),
        PipelineError::Plan(p) => "Plan generation error: "@ + plan_error_message(p@),
        PipelineError::Apply(a) => "Apply error: "@ + apply_error_message(a@),
        PipelineError::PolicyRejected => "Plan rejected by policy"@,
        PipelineError::ApprovalRequired(a) => "Plan requires approval (plan_id="@ + a.plan_id@ + ")"@,
        PipelineError::ApprovalMismatch => "Approval mismatch: does not match plan"@,
        PipelineError::Io(m) => "IO error: "@ + m@,
    }
}

impl PipelineError {
    /// The error as shown to users.
    pub fn message(&self) -> (r: String)
        ensures
            r@ == pipeline_error_message(*self),
    {
        match self {
            PipelineError::IntentParse(m) => cat("Intent parse error: ", m.as_str()),
            PipelineError::Analysis(a) => cat("Analysis error: ", a.message().as_str()),
            PipelineError::Recommendation(r) => cat("Recommendation error: ", r.message().as_str()),
            PipelineError::Plan(p) => cat("Plan generation error: ", p.message().as_str()),
            PipelineError::Apply(a) => cat("Apply error: ", a.message().as_str()),
            PipelineError::PolicyRejected => owned("Plan rejected by policy"),
            PipelineError::ApprovalRequired(a) => cat3("Plan requires approval (plan_id=", a.plan_id.as_str(), ")"),
            PipelineError::ApprovalMismatch => owned("Approval mismatch: does not match plan"),
            PipelineError::Io(m) => cat("IO error: ", m.as_str()),
        }
    }
}

/// How a plan is applied: whether blocked operations may be skipped, and
/// whether to stop short of touching the filesystem.
#[derive(Clone, Copy, Debug, PartialEq, Eq)]
pub struct ApplyOptions {
    pub force: bool,
    pub dry_run: bool,
}

impl Default for ApplyOptions {
    fn default() -> (r: ApplyOptions)
        ensures
            !r.force,
            !r.dry_run,
    {
        ApplyOptions { force: false, dry_run: false }
    }
}

/// How a whole run behaves: skipping blocked operations, stopping at a dry
/// run, and whether to execute at all.
#[derive(Clone, Copy, Debug, PartialEq, Eq)]
pub struct PipelineOptions {
    pub force: bool,
    pub dry_run: bool,
    pub execute: bool,
}

impl Default for PipelineOptions {
    fn default() -> (r: PipelineOptions)
        ensures
            !r.force,
            !r.dry_run,
            !r.execute,
    {
        PipelineOptions { force: false, dry_run: false, execute: false }
    }
}

/// What the policy let through: a dry run, answered at once, or an
/// execution the caller carries out.
#[derive(Clone, Debug, PartialEq, Eq)]
pub enum ApplyStart {
    DryRun(ApplyResult),
    Execute,
}

/// What the approval check let through: a dry run, or an execution under
/// the validation made afresh.
#[derive(Clone, Debug, PartialEq, Eq)]
pub enum ApprovedStart {
    DryRun(ApplyResult),
    Execute(ValidationResult),
}

/// The stages, each configured once.
pub struct Pipeline {
    parser: TaskIntentParser,
    analyzer: EvidenceAnalyzer,
    recommender: RecommendationEngine,
    clarifier: ClarificationEngine,
    planner: PlanGenerator,
    validator: PlanValidator,
    policy: Policy,
    executor: Executor,
}

/// The constraints a plan is validated under: those it was planned with, or
/// none when it carries none.
pub open spec fn plan_constraints(ctx: Option<PlanValidationContext>) -> ConstraintSet {
    match ctx {
        Some(c) => ConstraintSet {
            preserve_existing_folders: c.preserve_existing_folders,
            merge_duplicates: false,
            archive_old: None,
            auto_delete_temps: c.auto_delete_temps,
            max_interactive_questions: 0,
        },
        None => ConstraintSet {
            preserve_existing_folders: false,
            merge_duplicates: false,
            archive_old: None,
            auto_delete_temps: false,
            max_interactive_questions: 0,
        },
    }
}

/// The verdict on every operation of a plan that carries no validation
/// context: such a plan cannot be checked against the constraints it was
/// planned with, so it must be regenerated before it can run.
pub const NO_CONTEXT_MESSAGE: &'static str = "Plan has no validation context (made before constraints were recorded); regenerate the plan";

/// The validation of a plan that carries no validation context: every
/// operation invalid with `NO_CONTEXT_MESSAGE`, no warnings or dependencies,
/// the plan marked invalid (also when it has no operation) and nothing executable.
pub open spec fn context_missing_result(r: ValidationResult, plan_id: Seq<char>, scope: PathView, ops: Seq<OpView>) -> bool {
    let vs = r.validated_operations@;
    let n = ops.len();
    &&& r.plan_id@ == plan_id
    &&& r.scope@ == scope
    &&& vs.len() == n
    &&& forall|i: int|
        0 <= i < n ==> {
            &&& (#[trigger] vs[i]).operation@ == ops[i]
            &&& vs[i].status@ == StatusView::Invalid(NO_CONTEXT_MESSAGE@)
            &&& vs[i].warnings@.len() == 0
            &&& vs[i].dependencies@.len() == 0
        }
    &&& r.summary.total == n
    &&& r.summary.invalid == n
    &&& r.summary.valid == 0
    &&& r.summary.blocked == 0
    &&& r.summary.conflicts == 0
    &&& r.summary.warnings == 0
    &&& r.has_invalid
    &&& !r.has_blocked
    &&& !r.has_warnings
    &&& r.has_conflicts == ops_conflict(ops)
    &&& r.executable_operations == 0
}

/// How the pipeline validates a plan: under the constraints it was planned
/// with, or, when it carries none, by rejecting it whole.
pub open spec fn pipeline_validation(r: ValidationResult, plan: OperationPlan, fs: FsView) -> bool {
    match plan.validation_context {
        Some(_) => validation_matches(
            r,
            plan.id@,
            plan.scope@,
            ops_view(plan.operations@),
            fs,
            plan_constraints(plan.validation_context),
        ),
        None => context_missing_result(r, plan.id@, plan.scope@, ops_view(plan.operations@)),
    }
}

/// Rejects every operation of a plan that carries no validation context.
fn reject_without_context(plan: &OperationPlan) -> (r: ValidationResult)
    ensures
        context_missing_result(r, plan.id@, plan.scope@, ops_view(plan.operations@)),
{
    let ops = &plan.operations;
    let ghost v = ops_view(ops@);
    let mut validated: Vec<ValidatedOperation> = Vec::new();
    let mut i: usize = 0;
    while i < ops.len()
        invariant
            v == ops_view(ops@),
            i <= ops@.len(),
            validated@.len() == i,
            forall|j: int|
                0 <= j < i ==> {
                    &&& (#[trigger] validated@[j]).operation@ == v[j]
                    &&& validated@[j].status@ == StatusView::Invalid(NO_CONTEXT_MESSAGE@)
                    &&& validated@[j].warnings@.len() == 0
                    &&& validated@[j].dependencies@.len() == 0
                },
        decreases ops@.len() - i,
    {
        let operation = ops[i].copy();
        assert(v[i as int] == ops@[i as int]@);
        validated.push(ValidatedOperation {
            operation,
            status: ValidationStatus::Invalid(owned(NO_CONTEXT_MESSAGE)),
            warnings: Vec::new(),
            dependencies: Vec::new(),
        });
        i = i + 1;
    }
    let n = ops.len();
    let mut summary = ValidationSummary::new();
    summary.total = n;
    summary.invalid = n;
    ValidationResult {
        plan_id: plan.id.clone(),
        scope: plan.scope.copy(),
        validated_operations: validated,
        summary,
        has_blocked: false,
        has_conflicts: PlanValidator::detect_op_conflicts(ops),
        has_invalid: true,
        has_warnings: false,
        executable_operations: 0,
    }
}

/// The result of a dry run: an empty, finished log and nothing to undo.
pub open spec fn dry_run_result(r: ApplyResult, plan: OperationPlan, executable: usize) -> bool {
    &&& r.plan_id@ == plan.id@
    &&& r.log.plan_id@ == plan.id@
    &&& r.log.entries@.len() == 0
    &&& r.log.completed_at is Some
    &&& !r.is_complete
    &&& !r.can_undo
    &&& r.undo_supported_count == executable
    &&& r.undo_unsupported_count == 0
    &&& r.execution_verification is None
}

pub open spec fn blocked_message() -> Seq<char> {
    "Plan has BLOCKED operations. Use --force to skip them."@
}

/// The directory name a category is created under when checking a plan.
pub open spec fn dir_name_spec(c: Seq<char>) -> Seq<char> {
    if c == "document_storage"@ {
        "Documents"@
    } else if c == "image_storage"@ {
        "Images"@
    } else if c == "archive_storage"@ {
        "Archive"@
    } else if c == "media_storage"@ {
        "Media"@
    } else if c == "code_storage"@ {
        "Code"@
    } else if c == "installer_storage"@ {
        "Installers"@
    } else if c == "data_storage"@ {
        "Data"@
    } else if c == "config_storage"@ {
        "Config"@
    } else if c == "misc_storage"@ {
        "Misc"@
    } else if c == "temp_files"@ {
        "Temp"@
    } else {
        c
    }
}

/// The operation changes the filesystem when carried out.
pub open spec fn is_mutation(op: ProposedView) -> bool {
    op is MoveCategory || op is CreateCategory || op is ArchiveFiles
}

pub open spec fn proposed_ops(rec: Recommendation) -> Seq<ProposedView> {
    proposed_view(rec.proposed_operations@)
}

/// A move of a recommendation names the expected category, compared case-blind
/// or by containment.
pub open spec fn move_names(op: ProposedView, expected: Seq<char>) -> bool {
    match op {
        ProposedView::MoveCategory { to_category, .. } => lowercase_of(to_category) == lowercase_of(expected)
            || seq_contains(lowercase_of(expected), to_category) || seq_contains(lowercase_of(to_category), expected),
        _ => false,
    }
}

/// A category creation of a recommendation names the expected directory key.
pub open spec fn create_names(op: ProposedView, expected: Seq<char>) -> bool {
    match op {
        ProposedView::CreateCategory { name, .. } => lowercase_of(name) == expected || seq_contains(expected, name),
        _ => false,
    }
}

/// The category is proposed at the path `p`.
pub open spec fn targets(c: crate::recommendation::ProposedCategory, p: PathView) -> bool {
    match c.target_path {
        Some(t) => t@ == p,
        None => false,
    }
}

/// The name of the first candidate at `p`.
pub open spec fn candidate_name_at(cands: Seq<CandidateCategory>, p: PathView) -> Option<Seq<char>>
    decreases cands.len(),
{
    if cands.len() == 0 {
        None
    } else if cands[0].path@ == p {
        Some(cands[0].name@)
    } else {
        candidate_name_at(cands.drop_first(), p)
    }
}

/// What a classification requires of a recommendation built on it, as an
/// error message when the recommendation does not comply: leaving files
/// unclassified or asking the user allows no mutation; moving into an existing
/// candidate needs a move naming it (when anything is proposed) and a proposed
/// category at its path (when any is proposed); creating a category needs a
/// creation naming it (when anything is proposed). A proposal that assigns
/// files settles the question by itself.
pub open spec fn integrity_violation(
    rec: Recommendation,
    outcome: Option<ClassificationOutcome>,
    cands: Seq<CandidateCategory>,
) -> Option<Seq<char>> {
    let ops = proposed_ops(rec);
    if proposal_assigns_files(rec.organization_proposal) {
        None
    } else {
        match outcome {
            None => None,
            Some(c) => match c.decision {
                ClassificationDecision::LeaveUnclassified => if exists|i: int| 0 <= i < ops.len() && is_mutation(#[trigger] ops[i]) {
                    Some("Integrity violation: Classification is LeaveUnclassified but recommendation proposes mutations"@)
                } else {
                    None
                },
                ClassificationDecision::AskUser => if exists|i: int| 0 <= i < ops.len() && is_mutation(#[trigger] ops[i]) {
                    Some("Integrity violation: Classification is AskUser but recommendation proposes mutations"@)
                } else {
                    None
                },
                ClassificationDecision::MoveExisting => match c.selected_candidate {
                    None => None,
                    Some(sel) => {
                        let move_problem = match candidate_name_at(cands, sel@) {
                            Some(exp) => !(exists|i: int| 0 <= i < ops.len() && move_names(#[trigger] ops[i], exp))
                                && ops.len() > 0,
                            None => false,
                        };
                        if move_problem {
                            Some(
                                "Integrity violation: Classification MoveExisting targets '"@ + candidate_name_at(
                                    cands,
                                    sel@,
                                )->0 + "' but recommendation moves to different category"@,
                            )
                        } else if !(exists|i: int|
                            0 <= i < rec.proposed_categories@.len() && targets(#[trigger] rec.proposed_categories@[i], sel@))
                            && rec.proposed_categories@.len() > 0 {
                            Some(
                                "Integrity violation: Classification MoveExisting targets candidate but recommendation proposes different category"@,
                            )
                        } else {
                            None
                        }
                    },
                },
                ClassificationDecision::CreateCategory => match c.proposed_category_name {
                    None => None,
                    Some(n) => if !(exists|i: int| 0 <= i < ops.len() && create_names(#[trigger] ops[i], normalize_spec(n@)))
                        && ops.len() > 0 {
                        Some(
                            "Integrity violation: Classification CreateCategory proposes '"@ + n@
                                + "' but recommendation creates different category"@,
                        )
                    } else {
                        None
                    },
                },
            },
        }
    }
}


/// The first problem a plan shows against its recommendation, checking the
/// recommendation's operations from `k` on: a category move needs a plan move
/// whose destination names the category (case-blind); a category creation needs
/// a directory creation naming it, unless its directory already exists.
pub open spec fn plan_violation_from(
    rops: Seq<ProposedView>,
    k: int,
    pops: Seq<OpView>,
    scope: PathView,
    fs: FsView,
) -> Option<Seq<char>>
    decreases rops.len() - k,
{
    if k < 0 || k >= rops.len() {
        None
    } else {
        let here = match rops[k] {
            ProposedView::MoveCategory { to_category, .. } => if exists|i: int|
                0 <= i < pops.len() && (#[trigger] pops[i]) is Move && seq_contains(
                    lowercase_of(display_spec(pops[i]->Move_dest)),
                    lowercase_of(to_category),
                ) {
                None
            } else {
                Some(
                    "Integrity violation: Recommendation proposes MoveCategory to '"@ + to_category
                        + "' but plan has no matching move operation"@,
                )
            },
            ProposedView::CreateCategory { name, .. } => if exists|i: int|
                0 <= i < pops.len() && (#[trigger] pops[i]) is CreateDir && seq_contains(
                    lowercase_of(display_spec(pops[i]->CreateDir_path)),
                    lowercase_of(name),
                ) {
                None
            } else if !exists_in(fs, join_spec(scope, parse_spec(dir_name_spec(name)))) {
                Some(
                    "Integrity violation: Recommendation proposes CreateCategory '"@ + name
                        + "' but plan has no matching create directory operation"@,
                )
            } else {
                None
            },
            _ => None,
        };
        match here {
            Some(m) => Some(m),
            None => plan_violation_from(rops, k + 1, pops, scope, fs),
        }
    }
}

pub open spec fn plan_violation(plan: OperationPlan, rec: Recommendation, fs: FsView) -> Option<Seq<char>> {
    if proposal_assigns_files(rec.organization_proposal) {
        None
    } else {
        plan_violation_from(proposed_ops(rec), 0, ops_view(plan.operations@), plan.scope@, fs)
    }
}

fn dir_name_of(category: &str) -> (r: String)
    ensures
        r@ == dir_name_spec(category@),
{
    if str_eq(category, "document_storage") {
        owned("Documents")
    } else if str_eq(category, "image_storage") {
        owned("Images")
    } else if str_eq(category, "archive_storage") {
        owned("Archive")
    } else if str_eq(category, "media_storage") {
        owned("Media")
    } else if str_eq(category, "code_storage") {
        owned("Code")
    } else if str_eq(category, "installer_storage") {
        owned("Installers")
    } else if str_eq(category, "data_storage") {
        owned("Data")
    } else if str_eq(category, "config_storage") {
        owned("Config")
    } else if str_eq(category, "misc_storage") {
        owned("Misc")
    } else if str_eq(category, "temp_files") {
        owned("Temp")
    } else {
        owned(category)
    }
}

fn any_move_into(ops: &Vec<crate::plan::FileSystemOperation>, category: &str) -> (b: bool)
    ensures
        b == exists|i: int|
            0 <= i < ops@.len() && (#[trigger] ops_view(ops@)[i]) is Move && seq_contains(
                lowercase_of(display_spec(ops_view(ops@)[i]->Move_dest)),
                lowercase_of(category@),
            ),
{
    let ghost v = ops_view(ops@);
    let low = to_lowercase(category);
    let mut i: usize = 0;
    while i < ops.len()
        invariant
            i <= ops@.len(),
            v == ops_view(ops@),
            low@ == lowercase_of(category@),
            forall|k: int|
                0 <= k < i ==> !((#[trigger] v[k]) is Move && seq_contains(
                    lowercase_of(display_spec(v[k]->Move_dest)),
                    lowercase_of(category@),
                )),
        decreases ops@.len() - i,
    {
        assert(v[i as int] == ops@[i as int]@);
        match &ops[i] {
            crate::plan::FileSystemOperation::Move { dest, .. } => {
                let t = to_lowercase(dest.display().as_str());
                if str_contains(t.as_str(), low.as_str()) {
                    return true;
                }
            },
            _ => {},
        }
        i = i + 1;
    }
    false
}

fn any_create_named(ops: &Vec<crate::plan::FileSystemOperation>, name: &str) -> (b: bool)
    ensures
        b == exists|i: int|
            0 <= i < ops@.len() && (#[trigger] ops_view(ops@)[i]) is CreateDir && seq_contains(
                lowercase_of(display_spec(ops_view(ops@)[i]->CreateDir_path)),
                lowercase_of(name@),
            ),
{
    let ghost v = ops_view(ops@);
    let low = to_lowercase(name);
    let mut i: usize = 0;
    while i < ops.len()
        invariant
            i <= ops@.len(),
            v == ops_view(ops@),
            low@ == lowercase_of(name@),
            forall|k: int|
                0 <= k < i ==> !((#[trigger] v[k]) is CreateDir && seq_contains(
                    lowercase_of(display_spec(v[k]->CreateDir_path)),
                    lowercase_of(name@),
                )),
        decreases ops@.len() - i,
    {
        assert(v[i as int] == ops@[i as int]@);
        match &ops[i] {
            crate::plan::FileSystemOperation::CreateDir { path } => {
                let t = to_lowercase(path.display().as_str());
                if str_contains(t.as_str(), low.as_str()) {
                    return true;
                }
            },
            _ => {},
        }
        i = i + 1;
    }
    false
}

impl Pipeline {
    fn validate_plan_integrity(plan: &OperationPlan, recommendation: &Recommendation, fs: &FsSnapshot) -> (r: Result<
        (),
        PipelineError,
    >)
        ensures
            match plan_violation(*plan, *recommendation, fs@) {
                Some(m) => r is Err && r->Err_0 is Plan && r->Err_0->Plan_0@ == PlanErrorView::ConflictingOperations(m),
                None => r is Ok,
            },
    {
        if crate::recommendation::uses_proposal(recommendation) {
            return Ok(());
        }
        let rops = &recommendation.proposed_operations;
        let ghost rv = proposed_ops(*recommendation);
        let ghost pv = ops_view(plan.operations@);
        let mut k: usize = 0;
        assert(plan_violation(*plan, *recommendation, fs@) == plan_violation_from(rv, 0, pv, plan.scope@, fs@));
        while k < rops.len()
            invariant
                k <= rops@.len(),
                rv == proposed_view(rops@),
                pv == ops_view(plan.operations@),
                plan_violation(*plan, *recommendation, fs@) == plan_violation_from(rv, k as int, pv, plan.scope@, fs@),
            decreases rops@.len() - k,
        {
            assert(rv[k as int] == rops@[k as int]@);
            match &rops[k] {
                ProposedOperation::MoveCategory { to_category, .. } => {
                    if !any_move_into(&plan.operations, to_category.as_str()) {
                        let m = cat3(
                            "Integrity violation: Recommendation proposes MoveCategory to '",
                            to_category.as_str(),
                            "' but plan has no matching move operation",
                        );
                        return Err(PipelineError::Plan(PlanError::ConflictingOperations(m)));
                    }
                },
                ProposedOperation::CreateCategory { name, .. } => {
                    if !any_create_named(&plan.operations, name.as_str()) {
                        let dest = plan.scope.join_str(dir_name_of(name.as_str()).as_str());
                        if !fs.is_present(&dest) {
                            let m = cat3(
                                "Integrity violation: Recommendation proposes CreateCategory '",
                                name.as_str(),
                                "' but plan has no matching create directory operation",
                            );
                            return Err(PipelineError::Plan(PlanError::ConflictingOperations(m)));
                        }
                    }
                },
                _ => {},
            }
            k = k + 1;
        }
        Ok(())
    }
}


fn any_mutation(ops: &Vec<ProposedOperation>) -> (b: bool)
    ensures
        b == exists|i: int| 0 <= i < ops@.len() && is_mutation(#[trigger] proposed_view(ops@)[i]),
{
    let ghost v = proposed_view(ops@);
    let mut i: usize = 0;
    while i < ops.len()
        invariant
            i <= ops@.len(),
            v == proposed_view(ops@),
            forall|k: int| 0 <= k < i ==> !is_mutation(#[trigger] v[k]),
        decreases ops@.len() - i,
    {
        assert(v[i as int] == ops@[i as int]@);
        match &ops[i] {
            ProposedOperation::MoveCategory { .. } | ProposedOperation::CreateCategory { .. }
            | ProposedOperation::ArchiveFiles { .. } => {
                return true;
            },
            _ => {},
        }
        i = i + 1;
    }
    false
}

fn any_move_naming(ops: &Vec<ProposedOperation>, expected: &str) -> (b: bool)
    ensures
        b == exists|i: int|
            0 <= i < ops@.len() && move_names(#[trigger] proposed_view(ops@)[i], expected@),
{
    let ghost v = proposed_view(ops@);
    let l_exp = to_lowercase(expected);
    let mut i: usize = 0;
    while i < ops.len()
        invariant
            i <= ops@.len(),
            v == proposed_view(ops@),
            l_exp@ == lowercase_of(expected@),
            forall|k: int| 0 <= k < i ==> !move_names(#[trigger] v[k], expected@),
        decreases ops@.len() - i,
    {
        assert(v[i as int] == ops@[i as int]@);
        match &ops[i] {
            ProposedOperation::MoveCategory { to_category, .. } => {
                let l_to = to_lowercase(to_category.as_str());
                if str_eq(l_to.as_str(), l_exp.as_str()) || str_contains(l_exp.as_str(), to_category.as_str())
                    || str_contains(l_to.as_str(), expected) {
                    return true;
                }
            },
            _ => {},
        }
        i = i + 1;
    }
    false
}

fn any_create_naming(ops: &Vec<ProposedOperation>, expected: &str) -> (b: bool)
    ensures
        b == exists|i: int|
            0 <= i < ops@.len() && create_names(#[trigger] proposed_view(ops@)[i], expected@),
{
    let ghost v = proposed_view(ops@);
    let mut i: usize = 0;
    while i < ops.len()
        invariant
            i <= ops@.len(),
            v == proposed_view(ops@),
            forall|k: int| 0 <= k < i ==> !create_names(#[trigger] v[k], expected@),
        decreases ops@.len() - i,
    {
        assert(v[i as int] == ops@[i as int]@);
        match &ops[i] {
            ProposedOperation::CreateCategory { name, .. } => {
                let l = to_lowercase(name.as_str());
                if str_eq(l.as_str(), expected) || str_contains(expected, name.as_str()) {
                    return true;
                }
            },
            _ => {},
        }
        i = i + 1;
    }
    false
}

fn any_category_at(cats: &Vec<crate::recommendation::ProposedCategory>, p: &FsPath) -> (b: bool)
    ensures
        b == exists|i: int| 0 <= i < cats@.len() && targets(#[trigger] cats@[i], p@),
{
    let mut i: usize = 0;
    while i < cats.len()
        invariant
            i <= cats@.len(),
            forall|k: int| 0 <= k < i ==> !targets(#[trigger] cats@[k], p@),
        decreases cats@.len() - i,
    {
        match &cats[i].target_path {
            Some(t) => {
                if t.same_as(p) {
                    assert(targets(cats@[i as int], p@));
                    return true;
                }
            },
            None => {},
        }
        i = i + 1;
    }
    false
}

fn candidate_name(cands: &Vec<CandidateCategory>, p: &FsPath) -> (r: Option<String>)
    ensures
        match r {
            Some(n) => candidate_name_at(cands@, p@) == Some(n@),
            None => candidate_name_at(cands@, p@) is None,
        },
{
    let mut i: usize = 0;
    assert(cands@.skip(0) =~= cands@);
    while i < cands.len()
        invariant
            i <= cands@.len(),
            candidate_name_at(cands@, p@) == candidate_name_at(cands@.skip(i as int), p@),
        decreases cands@.len() - i,
    {
        assert(cands@.skip(i as int)[0] == cands@[i as int]);
        assert(cands@.skip(i as int).drop_first() =~= cands@.skip(i + 1));
        if cands[i].path.same_as(p) {
            return Some(cands[i].name.clone());
        }
        i = i + 1;
    }
    None
}

pub open spec fn integrity_result(r: Result<(), PipelineError>, v: Option<Seq<char>>) -> bool {
    match v {
        Some(m) => r is Err && r->Err_0 is Plan && r->Err_0->Plan_0@ == PlanErrorView::ConflictingOperations(m),
        None => r is Ok,
    }
}

fn integrity_failure(m: String) -> (r: Result<(), PipelineError>)
    ensures
        integrity_result(r, Some(m@)),
{
    Err(PipelineError::Plan(PlanError::ConflictingOperations(m)))
}

impl Pipeline {
    /// Checks that a recommendation follows the classification it was built
    /// on, as `integrity_violation` says; `outcome` is the first
    /// classification result, if any.
    pub fn validate_recommendation_plan_integrity(
        recommendation: &Recommendation,
        outcome: &Option<ClassificationOutcome>,
        candidates: &Vec<CandidateCategory>,
    ) -> (r: Result<(), PipelineError>)
        ensures
            integrity_result(r, integrity_violation(*recommendation, *outcome, candidates@)),
    {
        if crate::recommendation::uses_proposal(recommendation) {
            return Ok(());
        }
        let ops = &recommendation.proposed_operations;
        let c = match outcome {
            Some(c) => c,
            None => {
                return Ok(());
            },
        };
        match c.decision {
            ClassificationDecision::LeaveUnclassified => {
                if any_mutation(ops) {
                    assert(proposed_view(ops@) == proposed_ops(*recommendation));
                    assert(!proposal_assigns_files(recommendation.organization_proposal));
                    assert(outcome == Some(*c));
                    return integrity_failure(
                        owned(
                            "Integrity violation: Classification is LeaveUnclassified but recommendation proposes mutations",
                        ),
                    );
                }
                Ok(())
            },
            ClassificationDecision::AskUser => {
                if any_mutation(ops) {
                    return integrity_failure(
                        owned("Integrity violation: Classification is AskUser but recommendation proposes mutations"),
                    );
                }
                Ok(())
            },
            ClassificationDecision::MoveExisting => {
                let sel = match &c.selected_candidate {
                    Some(s) => s,
                    None => {
                        return Ok(());
                    },
                };
                match candidate_name(candidates, sel) {
                    Some(exp) => {
                        if !any_move_naming(ops, exp.as_str()) && ops.len() > 0 {
                            return integrity_failure(
                                cat3(
                                    "Integrity violation: Classification MoveExisting targets '",
                                    exp.as_str(),
                                    "' but recommendation moves to different category",
                                ),
                            );
                        }
                    },
                    None => {},
                }
                if !any_category_at(&recommendation.proposed_categories, sel)
                    && recommendation.proposed_categories.len() > 0 {
                    return integrity_failure(
                        owned(
                            "Integrity violation: Classification MoveExisting targets candidate but recommendation proposes different category",
                        ),
                    );
                }
                Ok(())
            },
            ClassificationDecision::CreateCategory => {
                let n = match &c.proposed_category_name {
                    Some(n) => n,
                    None => {
                        return Ok(());
                    },
                };
                let expected = RecommendationEngine::normalize_category_name(n.as_str());
                if !any_create_naming(ops, expected.as_str()) && ops.len() > 0 {
                    return integrity_failure(
                        cat3(
                            "Integrity violation: Classification CreateCategory proposes '",
                            n.as_str(),
                            "' but recommendation creates different category",
                        ),
                    );
                }
                Ok(())
            },
        }
    }
}


impl Default for Pipeline {
    fn default() -> (r: Pipeline)
        ensures
            r.default_scope() == parse_spec("."@),
            r.policy_in_force() == (Policy { auto_approve: true, max_files_moved: None, max_directories_created: None }),
            r.classifier_instruction() is None,
    {
        Pipeline {
            parser: TaskIntentParser::default(),
            analyzer: EvidenceAnalyzer::new(),
            recommender: RecommendationEngine,
            clarifier: ClarificationEngine,
            planner: PlanGenerator,
            validator: PlanValidator,
            policy: Policy::default(),
            executor: Executor,
        }
    }
}

fn dry_run_apply(plan: &OperationPlan, executable: usize) -> (r: ApplyResult)
    ensures
        dry_run_result(r, *plan, executable),
{
    let mut log = OperationLog::new(plan.id.as_str());
    log.finalize();
    ApplyResult {
        plan_id: plan.id.clone(),
        log,
        is_complete: false,
        can_undo: false,
        undo_supported_count: executable,
        undo_unsupported_count: 0,
        execution_verification: None,
    }
}

fn constraints_for(ctx: Option<PlanValidationContext>) -> (c: ConstraintSet)
    ensures
        c == plan_constraints(ctx),
{
    match ctx {
        Some(x) => ConstraintSet {
            preserve_existing_folders: x.preserve_existing_folders,
            merge_duplicates: false,
            archive_old: None,
            auto_delete_temps: x.auto_delete_temps,
            max_interactive_questions: 0,
        },
        None => ConstraintSet::new(),
    }
}

impl Pipeline {
    /// The scope requests fall back to.
    pub closed spec fn default_scope(&self) -> PathView {
        self.parser.default_scope@
    }

    /// The policy that decides which plans may run.
    pub closed spec fn policy_in_force(&self) -> Policy {
        self.policy
    }

    /// The instruction handed to the classifier, if any.
    pub closed spec fn classifier_instruction(&self) -> Option<String> {
        self.analyzer.classifier_instruction
    }

    /// A pipeline whose requests fall back to `scope`, with the default policy.
    pub fn new(scope: &FsPath) -> (r: Pipeline)
        ensures
            r.default_scope() == scope@,
            r.policy_in_force() == (Policy { auto_approve: true, max_files_moved: None, max_directories_created: None }),
            r.classifier_instruction() is None,
    {
        Pipeline {
            parser: TaskIntentParser::new(scope.copy()),
            analyzer: EvidenceAnalyzer::new(),
            recommender: RecommendationEngine,
            clarifier: ClarificationEngine,
            planner: PlanGenerator,
            validator: PlanValidator,
            policy: Policy::default(),
            executor: Executor,
        }
    }

    /// The same pipeline under another policy.
    pub fn with_policy(self, policy: Policy) -> (r: Pipeline)
        ensures
            r.policy_in_force() == policy,
            r.default_scope() == self.default_scope(),
            r.classifier_instruction() == self.classifier_instruction(),
    {
        let mut p = self;
        p.policy = policy;
        p
    }

    /// The same pipeline with a classifier instruction; one that is empty
    /// after trimming counts as none.
    pub fn with_classifier_instruction(self, instruction: Option<String>) -> (r: Pipeline)
        ensures
            r.policy_in_force() == self.policy_in_force(),
            r.default_scope() == self.default_scope(),
            match instruction {
                Some(s) => if crate::analysis::all_whitespace(s@) {
                    r.classifier_instruction() is None
                } else {
                    r.classifier_instruction() == Some(s)
                },
                None => r.classifier_instruction() is None,
            },
    {
        let mut p = self;
        let analyzer = EvidenceAnalyzer { classifier_instruction: p.analyzer.classifier_instruction.clone() };
        p.analyzer = analyzer.with_classifier_instruction(instruction);
        p
    }

    /// Reads a request into an intent.
    pub fn parse_intent(&self, request: &str, env: &ScopeEnv) -> (r: Result<TaskIntent, PipelineError>)
        ensures
            match crate::intent::goal_kind(lowercase_of(request@)) {
                None => r is Err && r->Err_0 is IntentParse && r->Err_0->IntentParse_0@ == intent_error_message(
                    IntentParseError::UnrecognizedIntent,
                ),
                Some(k) => r is Ok && crate::intent::parsed_as(r->Ok_0, request@, k, *env, self.default_scope()),
            },
    {
        match self.parser.parse(request, env) {
            Ok(t) => Ok(t),
            Err(e) => Err(PipelineError::IntentParse(e.message())),
        }
    }

    /// The scope of an intent's goal.
    pub fn extract_scope(&self, intent: &TaskIntent) -> (r: FsPath)
        ensures
            r@ == crate::intent::goal_scope(intent.goal@),
    {
        intent.goal.scope()
    }

    /// Validates a plan against the filesystem under the constraints it was
    /// planned with; a plan that carries none is rejected whole.
    pub fn validate(&self, plan: &OperationPlan, fs: &FsSnapshot) -> (r: ValidationResult)
        requires
            plan.operations@.len() < usize::MAX / 4,
        ensures
            pipeline_validation(r, *plan, fs@),
            plan.validation_context is None ==> r.has_invalid,
    {
        match plan.validation_context {
            Some(_) => {
                let c = constraints_for(plan.validation_context);
                self.validator.validate_under(plan, &c, fs)
            },
            None => reject_without_context(plan),
        }
    }

    /// The policy's decision on a validated plan; nothing is executed.
    pub fn policy_evaluate(&self, plan: &OperationPlan, validation: &ValidationResult) -> (r: PolicyDecision)
        ensures
            r == evaluate_spec(self.policy_in_force(), *plan, *validation),
    {
        self.policy.evaluate(plan, validation)
    }

    /// The preview of a plan with its validation.
    pub fn preview(&self, plan: &OperationPlan, validation: &ValidationResult) -> (r: String)
        ensures
            r@ == crate::validate::render_spec(*plan, *validation),
    {
        PlanPreview.render(plan, validation)
    }

    /// What comes before execution: the policy must approve the plan (a plan
    /// that needs approval is answered with an approval to present, a rejected
    /// one refused); blocked operations need `force`; a dry run is answered at
    /// once with an empty log. Otherwise the caller executes the plan and
    /// finishes with `complete_apply`.
    pub fn apply(&self, plan: &OperationPlan, validation: &ValidationResult, options: &ApplyOptions) -> (r: Result<
        ApplyStart,
        PipelineError,
    >)
        ensures
            match evaluate_spec(self.policy_in_force(), *plan, *validation) {
                PolicyDecision::RequiresApproval => r is Err && r->Err_0 is ApprovalRequired
                    && r->Err_0->ApprovalRequired_0.plan_id@ == plan.id@,
                PolicyDecision::Rejected => r == Err::<ApplyStart, PipelineError>(PipelineError::PolicyRejected),
                PolicyDecision::Approved => if validation.has_blocked && !options.force {
                    r is Err && r->Err_0 is Apply && r->Err_0->Apply_0@ == crate::executor::ApplyErrorView::InvalidPlan(
                        blocked_message(),
                    )
                } else if options.dry_run {
                    r is Ok && r->Ok_0 is DryRun && dry_run_result(
                        r->Ok_0->DryRun_0,
                        *plan,
                        validation.executable_operations,
                    )
                } else {
                    r == Ok::<ApplyStart, PipelineError>(ApplyStart::Execute)
                },
            },
    {
        match self.policy.evaluate(plan, validation) {
            PolicyDecision::Approved => {},
            PolicyDecision::RequiresApproval => {
                return Err(PipelineError::ApprovalRequired(Approval::for_plan(plan)));
            },
            PolicyDecision::Rejected => {
                return Err(PipelineError::PolicyRejected);
            },
        }
        if validation.has_blocked && !options.force {
            return Err(
                PipelineError::Apply(ApplyError::InvalidPlan(owned("Plan has BLOCKED operations. Use --force to skip them."))),
            );
        }
        if options.dry_run {
            return Ok(ApplyStart::DryRun(dry_run_apply(plan, validation.executable_operations)));
        }
        Ok(ApplyStart::Execute)
    }

    /// Finishes an execution that `apply` let through: records the executed plan
    /// from the caller's step records, as `Executor::execute_with_options`
    /// does, and attaches the verification of the filesystem before and after.
    pub fn complete_apply(
        &self,
        plan: &OperationPlan,
        validation: &ValidationResult,
        options: &ApplyOptions,
        steps: &Vec<StepRecord>,
        before: &CapturedState,
        after: &CapturedState,
        now: &FsSnapshot,
        reads: &CapturedState,
    ) -> (r: Result<ApplyResult, PipelineError>)
        requires
            steps@.len() == plan.operations@.len(),
            plan.operations@.len() < usize::MAX,
        ensures
            match crate::executor::apply_refusal(plan.dry_run, *validation, options.force) {
                Some(e) => r is Err && r->Err_0 is Apply && r->Err_0->Apply_0@ == e,
                None => r is Ok && r->Ok_0.plan_id@ == plan.id@ && r->Ok_0.log.entries@.len() == plan.operations@.len()
                    && r->Ok_0.execution_verification is Some && crate::verification::verification_matches(
                    r->Ok_0.execution_verification->0,
                    crate::verification::verification_state(*plan, r->Ok_0.log, before@, after@, now@, reads@),
                ),
            },
    {
        let mut result = match self.executor.execute_with_options(plan, validation, options.force, steps) {
            Ok(res) => res,
            Err(e) => {
                return Err(PipelineError::Apply(e));
            },
        };
        let verification = ExecutionVerifier.verify(plan, &result.log, before, after, now, reads);
        result.execution_verification = Some(verification);
        Ok(result)
    }

    /// What comes before executing a plan under an explicit approval: the
    /// approval must be for this plan; the plan is validated afresh and must
    /// not be rejected by the policy (an approval stands in for the policy's
    /// own); blocked operations need `force`; a dry run is answered at once.
    /// Otherwise the caller executes under the fresh validation.
    pub fn apply_with_approval(
        &self,
        plan: &OperationPlan,
        approval: &Approval,
        options: &ApplyOptions,
        fs: &FsSnapshot,
    ) -> (r: Result<ApprovedStart, PipelineError>)
        requires
            plan.operations@.len() < usize::MAX / 4,
        ensures
            approval.plan_id@ != plan.id@ ==> r == Err::<ApprovedStart, PipelineError>(PipelineError::ApprovalMismatch),
            approval.plan_id@ == plan.id@ ==> exists|v: ValidationResult|
                #[trigger] pipeline_validation(v, *plan, fs@) && if evaluate_spec(self.policy_in_force(), *plan, v) == PolicyDecision::Rejected {
                    r == Err::<ApprovedStart, PipelineError>(PipelineError::PolicyRejected)
                } else if v.has_blocked && !options.force {
                    r is Err && r->Err_0 is Apply && r->Err_0->Apply_0@ == crate::executor::ApplyErrorView::InvalidPlan(
                        blocked_message(),
                    )
                } else if options.dry_run {
                    r is Ok && r->Ok_0 is DryRun && dry_run_result(r->Ok_0->DryRun_0, *plan, v.executable_operations)
                } else {
                    r == Ok::<ApprovedStart, PipelineError>(ApprovedStart::Execute(v))
                },
    {
        if !approval.verify(plan) {
            return Err(PipelineError::ApprovalMismatch);
        }
        let fresh = self.validate(plan, fs);
        match self.policy.evaluate(plan, &fresh) {
            PolicyDecision::Rejected => {
                return Err(PipelineError::PolicyRejected);
            },
            _ => {},
        }
        if fresh.has_blocked && !options.force {
            return Err(
                PipelineError::Apply(ApplyError::InvalidPlan(owned("Plan has BLOCKED operations. Use --force to skip them."))),
            );
        }
        if options.dry_run {
            return Ok(ApprovedStart::DryRun(dry_run_apply(plan, fresh.executable_operations)));
        }
        Ok(ApprovedStart::Execute(fresh))
    }

    /// A recommendation for an analysis, as `RecommendationEngine::recommend`
    /// makes it; its refusal becomes a recommendation error.
    pub fn recommend(
        &self,
        intent: &TaskIntent,
        findings: crate::recommendation::AnalysisFindings,
        warnings: Vec<crate::recommendation::RecommendationWarning>,
        confidence_bits: u64,
        confidence_percent: String,
        generated_at: u64,
    ) -> (r: Result<Recommendation, PipelineError>)
        requires
            findings.evidence_gaps@.len() + intent.unknown_factors@.len() < usize::MAX,
        ensures
            findings.scope@ != crate::intent::goal_scope(intent.goal@) ==> r == Err::<Recommendation, PipelineError>(
                PipelineError::Recommendation(RecommendationError::ScopeMismatch),
            ),
            findings.scope@ == crate::intent::goal_scope(intent.goal@) && findings.content_groups@.len() == 0 ==> r
                == Err::<Recommendation, PipelineError>(PipelineError::Recommendation(RecommendationError::NoContentGroups)),
            findings.scope@ == crate::intent::goal_scope(intent.goal@) && findings.content_groups@.len() > 0 ==> r is Ok
                && crate::recommendation::recommendation_matches(
                r->Ok_0,
                *intent,
                findings,
                warnings@,
                confidence_bits,
                confidence_percent@,
                generated_at,
            ),
    {
        match self.recommender.recommend(intent, findings, warnings, confidence_bits, confidence_percent, generated_at) {
            Ok(rec) => Ok(rec),
            Err(e) => Err(PipelineError::Recommendation(e)),
        }
    }

    /// An approval token for a plan the policy does not reject.
    pub fn create_approval(&self, plan: &OperationPlan, validation: &ValidationResult) -> (r: Result<
        Approval,
        PipelineError,
    >)
        ensures
            evaluate_spec(self.policy_in_force(), *plan, *validation) == PolicyDecision::Rejected ==> r == Err::<
                Approval,
                PipelineError,
            >(PipelineError::PolicyRejected),
            evaluate_spec(self.policy_in_force(), *plan, *validation) != PolicyDecision::Rejected ==> r is Ok
                && r->Ok_0.plan_id@ == plan.id@,
    {
        match self.policy.evaluate(plan, validation) {
            PolicyDecision::Rejected => Err(PipelineError::PolicyRejected),
            _ => Ok(Approval::for_plan(plan)),
        }
    }

    /// The result of undoing a log from what the caller observed at each
    /// undoable entry, as `Executor::undo` describes it.
    pub fn undo(&self, log: &OperationLog, records: &Vec<UndoRecord>, completed_at: u64) -> (r: Result<
        UndoResult,
        PipelineError,
    >)
        requires
            records@.len() == crate::executor::undoable_spec(log.entries@).len(),
        ensures
            r is Ok,
            ({
                let es = crate::executor::undoable_spec(log.entries@);
                let t = crate::executor::undo_fold(es, records@, es.len() as int);
                &&& r->Ok_0.log_id@ == log.id@
                &&& r->Ok_0.applied_undoes@.map_values(|u: crate::executor::UndoLogEntry| u@) == t.applied
                &&& r->Ok_0.conflicts@.map_values(|c: crate::executor::UndoConflict| c@) == t.conflicts
                    + crate::executor::unsupported_conflicts(crate::executor::undo_unsupported_spec(log.entries@))
                &&& r->Ok_0.total_undo_operations == t.attempted
                &&& r->Ok_0.total_undo_operations == crate::executor::reversible_count(es, es.len() as int)
                &&& r->Ok_0.completed_at == completed_at
            }),
    {
        match self.executor.undo(log, records, completed_at) {
            Ok(u) => Ok(u),
            Err(e) => Err(PipelineError::Apply(e)),
        }
    }

    /// A plan for a recommendation: the recommendation must follow its
    /// classification; the plan is generated (at the current time), must carry
    /// out the recommendation, and is stamped with the intent's constraints
    /// and marked for execution.
    pub fn plan(
        &self,
        recommendation: &Recommendation,
        outcome: &Option<ClassificationOutcome>,
        candidates: &Vec<CandidateCategory>,
        scope: &FsPath,
        filename_sample: &Vec<String>,
        partial_scan: bool,
        fs: &FsSnapshot,
        intent: &TaskIntent,
    ) -> (r: Result<OperationPlan, PipelineError>)
        ensures
            integrity_violation(*recommendation, *outcome, candidates@) is Some ==> r is Err && r->Err_0 is Plan
                && r->Err_0->Plan_0@ == PlanErrorView::ConflictingOperations(
                integrity_violation(*recommendation, *outcome, candidates@)->0,
            ),
            integrity_violation(*recommendation, *outcome, candidates@) is None ==> exists|
                g: Result<OperationPlan, PlanError>,
                t: u64,
            |
                #[trigger] generation_matches(
                    g,
                    *recommendation,
                    scope@,
                    candidates@,
                    names_of(filename_sample@),
                    partial_scan,
                    fs@,
                    t,
                ) && match g {
                    Err(e) => r == Err::<OperationPlan, PipelineError>(PipelineError::Plan(e)),
                    Ok(p) => match plan_violation(p, *recommendation, fs@) {
                        Some(m) => r is Err && r->Err_0 is Plan && r->Err_0->Plan_0@ == PlanErrorView::ConflictingOperations(m),
                        None => r == Ok::<OperationPlan, PipelineError>(
                            OperationPlan {
                                dry_run: false,
                                validation_context: Some(
                                    PlanValidationContext {
                                        preserve_existing_folders: intent.constraints.preserve_existing_folders,
                                        auto_delete_temps: intent.constraints.auto_delete_temps,
                                    },
                                ),
                                ..p
                            },
                        ),
                    },
                },
    {
        match Self::validate_recommendation_plan_integrity(recommendation, outcome, candidates) {
            Ok(()) => {},
            Err(e) => {
                return Err(e);
            },
        }
        let now = crate::executor::now_secs();
        let generated = self.planner.generate_at(recommendation, scope, candidates, filename_sample, partial_scan, fs, now);
        let ghost gen = generated;
        assert(generation_matches(gen, *recommendation, scope@, candidates@, names_of(filename_sample@), partial_scan, fs@, now));
        let mut plan = match generated {
            Ok(p) => p,
            Err(e) => {
                return Err(PipelineError::Plan(e));
            },
        };
        match Self::validate_plan_integrity(&plan, recommendation, fs) {
            Ok(()) => {},
            Err(e) => {
                return Err(e);
            },
        }
        plan.validation_context = Some(PlanValidationContext::from_constraints(&intent.constraints));
        plan.dry_run = false;
        Ok(plan)
    }
}

} // verus!

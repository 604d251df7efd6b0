//! Recommendations: the organizing strategy, the proposed operations, the
//! checks of the user's constraints against them, and clarification questions.
use crate::analysis::{Ambiguity, AmbiguityView, CandidateCategory, ContentGroup, EvidenceGap, GapType, GapView};
use crate::intent::{opt_text, ConstraintSet, Goal, GoalView, TaskIntent};
use crate::path::{chars_to_string, display_spec, FsPath, PathView};
use crate::text::{cat, cat3, chars_of, clone_strings, decimal, list_contains, lowercase_of, owned, seq_contains, seq_starts_with, str_contains, str_eq, str_starts_with, to_lowercase, u64_to_text, usize_to_text};
use vstd::prelude::*;

verus! {

#[derive(Clone, Debug, PartialEq, Eq)]
pub enum RecommendationStrategy {
    CategoryBased,
    ProjectBased,
    Chronological,
    BySize,
    ByAuthor,
    ByTitle,
    ByYear,
    PreserveExisting,
    Unknown,
    Custom(String),
}

/// The strategy a language-model classifier can name.
#[derive(Clone, Copy, Debug, PartialEq, Eq)]
pub enum LlmOrganizationStrategy {
    ByAuthor,
    ByTitle,
    ByType,
    ByYear,
    PreserveExisting,
    CategoryBased,
    Unknown,
}

pub enum StrategyView {
    CategoryBased,
    ProjectBased,
    Chronological,
    BySize,
    ByAuthor,
    ByTitle,
    ByYear,
    PreserveExisting,
    Unknown,
    Custom(Seq<char>),
}

impl View for RecommendationStrategy {
    type V = StrategyView;

    open spec fn view(&self) -> StrategyView {
        match self {
            RecommendationStrategy::CategoryBased => StrategyView::CategoryBased,
            RecommendationStrategy::ProjectBased => StrategyView::ProjectBased,
            RecommendationStrategy::Chronological => StrategyView::Chronological,
            RecommendationStrategy::BySize => StrategyView::BySize,
            RecommendationStrategy::ByAuthor => StrategyView::ByAuthor,
            RecommendationStrategy::ByTitle => StrategyView::ByTitle,
            RecommendationStrategy::ByYear => StrategyView::ByYear,
            RecommendationStrategy::PreserveExisting => StrategyView::PreserveExisting,
            RecommendationStrategy::Unknown => StrategyView::Unknown,
            RecommendationStrategy::Custom(s) => StrategyView::Custom(s@),
        }
    }
}

/// The recommendation strategy for a classifier strategy.
pub open spec fn map_llm_strategy_spec(l: LlmOrganizationStrategy) -> StrategyView {
    match l {
        LlmOrganizationStrategy::ByAuthor => StrategyView::ByAuthor,
        LlmOrganizationStrategy::ByTitle => StrategyView::ByTitle,
        LlmOrganizationStrategy::ByType => StrategyView::CategoryBased,
        LlmOrganizationStrategy::ByYear => StrategyView::ByYear,
        LlmOrganizationStrategy::PreserveExisting => StrategyView::PreserveExisting,
        LlmOrganizationStrategy::CategoryBased => StrategyView::CategoryBased,
        LlmOrganizationStrategy::Unknown => StrategyView::Unknown,
    }
}

/// The recommendation strategy for a classifier strategy.
pub fn map_llm_strategy(llm: &LlmOrganizationStrategy) -> (r: RecommendationStrategy)
    ensures
        r@ == map_llm_strategy_spec(*llm),
{
    match llm {
        LlmOrganizationStrategy::ByAuthor => RecommendationStrategy::ByAuthor,
        LlmOrganizationStrategy::ByTitle => RecommendationStrategy::ByTitle,
        LlmOrganizationStrategy::ByType => RecommendationStrategy::CategoryBased,
        LlmOrganizationStrategy::ByYear => RecommendationStrategy::ByYear,
        LlmOrganizationStrategy::PreserveExisting => RecommendationStrategy::PreserveExisting,
        LlmOrganizationStrategy::CategoryBased => RecommendationStrategy::CategoryBased,
        LlmOrganizationStrategy::Unknown => RecommendationStrategy::Unknown,
    }
}

/// An operation a recommendation proposes, before it becomes filesystem work.
#[derive(Clone, Debug, PartialEq, Eq)]
pub enum ProposedOperation {
    MoveCategory { strategy: String, content_type: String, file_count: u64, to_category: String },
    CreateCategory { name: String, purpose: String },
    PreserveDirectory { path: FsPath },
    ArchiveFiles { category: String, file_count: u64 },
    LeaveUnclassified { file_count: u64, reason: String },
}

pub enum ProposedView {
    MoveCategory { strategy: Seq<char>, content_type: Seq<char>, file_count: u64, to_category: Seq<char> },
    CreateCategory { name: Seq<char>, purpose: Seq<char> },
    PreserveDirectory { path: PathView },
    ArchiveFiles { category: Seq<char>, file_count: u64 },
    LeaveUnclassified { file_count: u64, reason: Seq<char> },
}

impl View for ProposedOperation {
    type V = ProposedView;

    open spec fn view(&self) -> ProposedView {
        match self {
            ProposedOperation::MoveCategory { strategy, content_type, file_count, to_category } => ProposedView::MoveCategory {
                strategy: strategy@,
                content_type: content_type@,
                file_count: *file_count,
                to_category: to_category@,
            },
            ProposedOperation::CreateCategory { name, purpose } => ProposedView::CreateCategory { name: name@, purpose: purpose@ },
            ProposedOperation::PreserveDirectory { path } => ProposedView::PreserveDirectory { path: path@ },
            ProposedOperation::ArchiveFiles { category, file_count } => ProposedView::ArchiveFiles {
                category: category@,
                file_count: *file_count,
            },
            ProposedOperation::LeaveUnclassified { file_count, reason } => ProposedView::LeaveUnclassified {
                file_count: *file_count,
                reason: reason@,
            },
        }
    }
}

pub open spec fn proposed_description(op: ProposedView) -> Seq<char> {
    match op {
        ProposedView::MoveCategory { content_type, file_count, to_category, .. } => "Move "@ + decimal(file_count as nat)
            + " "@ + content_type + " files to '"@ + to_category + "'"@,
        ProposedView::CreateCategory { name, purpose } => "Create category '"@ + name + "' for "@ + purpose,
        ProposedView::PreserveDirectory { path } => "Preserve existing directory: "@ + display_spec(path),
        ProposedView::ArchiveFiles { category, file_count } => "Archive "@ + decimal(file_count as nat) + " files under "@
            + category,
        ProposedView::LeaveUnclassified { file_count, reason } => "Leave "@ + decimal(file_count as nat)
            + " files unclassified: "@ + reason,
    }
}

impl ProposedOperation {
    /// A one-line description of the proposed operation.
    pub fn description(&self) -> (r: String)
        ensures
            r@ == proposed_description(self@),
    {
        match self {
            ProposedOperation::MoveCategory { content_type, file_count, to_category, .. } => {
                let a = cat3("Move ", u64_to_text(*file_count).as_str(), " ");
                let b = cat3(a.as_str(), content_type.as_str(), " files to '");
                cat3(b.as_str(), to_category.as_str(), "'")
            },
            ProposedOperation::CreateCategory { name, purpose } => {
                let a = cat3("Create category '", name.as_str(), "' for ");
                cat(a.as_str(), purpose.as_str())
            },
            ProposedOperation::PreserveDirectory { path } => cat("Preserve existing directory: ", path.display().as_str()),
            ProposedOperation::ArchiveFiles { category, file_count } => {
                let a = cat3("Archive ", u64_to_text(*file_count).as_str(), " files under ");
                cat(a.as_str(), category.as_str())
            },
            ProposedOperation::LeaveUnclassified { file_count, reason } => {
                let a = cat3("Leave ", u64_to_text(*file_count).as_str(), " files unclassified: ");
                cat(a.as_str(), reason.as_str())
            },
        }
    }
}

/// One constraint checked against the proposed operations.
#[derive(Clone, Debug, PartialEq, Eq)]
pub struct ConstraintCheck {
    pub name: String,
    pub passed: bool,
    pub message: String,
}

/// A constraint the proposal broke, and the descriptions of the operations it blocks.
#[derive(Clone, Debug, PartialEq, Eq)]
pub struct ConstraintViolation {
    pub constraint: String,
    pub reason: String,
    pub blocked_operations: Vec<String>,
}

/// A question for the user, with the answers offered.
#[derive(Clone, Debug, PartialEq, Eq)]
pub struct ClarificationQuestion {
    pub id: String,
    pub question: String,
    pub context: String,
    pub options: Vec<String>,
}

#[derive(Clone, Copy, Debug, PartialEq, Eq)]
pub enum RecommendationWarning {
    LowEvidence,
    AmbiguousContent,
    NoCandidateCategories,
    ConflictingCategories,
    HighRisk,
    InsufficientContentGroups,
}

#[derive(Clone, Debug, PartialEq, Eq)]
pub enum RecommendationError {
    AnalysisInvalid(String),
    ScopeMismatch,
    NoContentGroups,
}

pub open spec fn recommendation_error_message(e: RecommendationError) -> Seq<char> {
    match e {
        RecommendationError::AnalysisInvalid(m) => "Analysis is invalid: "@ + m@,
        RecommendationError::ScopeMismatch => "Analysis scope does not match intent scope"@,
        RecommendationError::NoContentGroups => "No content groups available for recommendation"@,
    }
}

impl RecommendationError {
    pub fn message(&self) -> (r: String)
        ensures
            r@ == recommendation_error_message(*self),
    {
        match self {
            RecommendationError::AnalysisInvalid(m) => cat("Analysis is invalid: ", m.as_str()),
            RecommendationError::ScopeMismatch => owned("Analysis scope does not match intent scope"),
            RecommendationError::NoContentGroups => owned("No content groups available for recommendation"),
        }
    }
}


/// A proposed operation that is an archive of temporary files.
pub open spec fn is_temp_archive(op: ProposedView) -> bool {
    match op {
        ProposedView::ArchiveFiles { category, .. } => seq_contains(category, "temp"@),
        _ => false,
    }
}

/// A proposed operation that archives files by age.
pub open spec fn is_old_archive(op: ProposedView) -> bool {
    match op {
        ProposedView::ArchiveFiles { category, .. } => seq_starts_with(category, "files_older_than_"@),
        _ => false,
    }
}

pub open spec fn ops_view(v: Seq<ProposedOperation>) -> Seq<ProposedView> {
    v.map_values(|o: ProposedOperation| o@)
}

/// The descriptions of the temporary-file archives among `ops`, in order.
pub open spec fn temp_archive_descriptions(ops: Seq<ProposedView>) -> Seq<Seq<char>>
    decreases ops.len(),
{
    if ops.len() == 0 {
        seq![]
    } else {
        let prev = temp_archive_descriptions(ops.drop_last());
        if is_temp_archive(ops.last()) {
            prev.push(proposed_description(ops.last()))
        } else {
            prev
        }
    }
}

/// The descriptions of the age-based archives among `ops`, in order.
pub open spec fn old_archive_descriptions(ops: Seq<ProposedView>) -> Seq<Seq<char>>
    decreases ops.len(),
{
    if ops.len() == 0 {
        seq![]
    } else {
        let prev = old_archive_descriptions(ops.drop_last());
        if is_old_archive(ops.last()) {
            prev.push(proposed_description(ops.last()))
        } else {
            prev
        }
    }
}

/// `ops` without those whose description is listed in `blocked`, order kept.
pub open spec fn without_descriptions(ops: Seq<ProposedView>, blocked: Seq<Seq<char>>) -> Seq<ProposedView>
    decreases ops.len(),
{
    if ops.len() == 0 {
        seq![]
    } else {
        let prev = without_descriptions(ops.drop_last(), blocked);
        if blocked.contains(proposed_description(ops.last())) {
            prev
        } else {
            prev.push(ops.last())
        }
    }
}

pub struct CheckView {
    pub name: Seq<char>,
    pub passed: bool,
    pub message: Seq<char>,
}

impl View for ConstraintCheck {
    type V = CheckView;

    open spec fn view(&self) -> CheckView {
        CheckView { name: self.name@, passed: self.passed, message: self.message@ }
    }
}

pub struct ViolationView {
    pub constraint: Seq<char>,
    pub reason: Seq<char>,
    pub blocked_operations: Seq<Seq<char>>,
}

impl View for ConstraintViolation {
    type V = ViolationView;

    open spec fn view(&self) -> ViolationView {
        ViolationView {
            constraint: self.constraint@,
            reason: self.reason@,
            blocked_operations: self.blocked_operations@.map_values(|s: String| s@),
        }
    }
}

pub open spec fn opt_violation_view(v: Option<ConstraintViolation>) -> Option<ViolationView> {
    match v {
        Some(x) => Some(x@),
        None => None,
    }
}

/// The four constraint checks reported for a proposal.
pub open spec fn constraint_checks_spec(c: ConstraintSet, ops: Seq<ProposedView>) -> Seq<CheckView> {
    seq![
        CheckView {
            name: "preserve_existing_folders"@,
            passed: c.preserve_existing_folders || !(exists|i: int| 0 <= i < ops.len() && ops[i] is PreserveDirectory),
            message: if c.preserve_existing_folders {
                "Existing directories will be preserved"@
            } else {
                "Preserve constraint not explicitly set"@
            },
        },
        CheckView {
            name: "auto_delete_temps"@,
            passed: c.auto_delete_temps || !(exists|i: int| 0 <= i < ops.len() && is_temp_archive(ops[i])),
            message: if c.auto_delete_temps {
                "Temp file handling permitted by constraint"@
            } else {
                "Temp file auto-deletion disabled"@
            },
        },
        CheckView {
            name: "merge_duplicates"@,
            passed: true,
            message: if c.merge_duplicates {
                "Duplicate merging enabled"@
            } else {
                "Duplicate merging not requested"@
            },
        },
        CheckView {
            name: "archive_old_files"@,
            passed: c.archive_old is Some || !(exists|i: int| 0 <= i < ops.len() && is_old_archive(ops[i])),
            message: if c.archive_old is Some {
                "Old file archiving enabled"@
            } else {
                "Old file archiving not requested"@
            },
        },
    ]
}

/// The constraint a proposal breaks, if any: proposed temporary-file archives
/// when auto-deletion is off come first; otherwise age-based archives when no
/// archive duration is set.
pub open spec fn violation_spec(c: ConstraintSet, ops: Seq<ProposedView>) -> Option<ViolationView> {
    let temps = temp_archive_descriptions(ops);
    let olds = old_archive_descriptions(ops);
    if !c.auto_delete_temps && temps.len() > 0 {
        Some(
            ViolationView {
                constraint: "auto_delete_temps"@,
                reason: "auto_delete_temps is false; temp file deletion proposed"@,
                blocked_operations: temps,
            },
        )
    } else if c.archive_old is None && olds.len() > 0 {
        Some(
            ViolationView {
                constraint: "archive_old_files"@,
                reason: "Archive duration not set; archiving old files proposed"@,
                blocked_operations: olds,
            },
        )
    } else {
        None
    }
}

/// The operations a proposal keeps once its constraint violation is removed.
pub open spec fn kept_operations(c: ConstraintSet, ops: Seq<ProposedView>) -> Seq<ProposedView> {
    match violation_spec(c, ops) {
        Some(v) => without_descriptions(ops, v.blocked_operations),
        None => ops,
    }
}

impl ProposedOperation {
    /// An independent copy of this operation.
    pub fn copy(&self) -> (r: ProposedOperation)
        ensures
            r@ == self@,
    {
        match self {
            ProposedOperation::MoveCategory { strategy, content_type, file_count, to_category } => ProposedOperation::MoveCategory {
                strategy: strategy.clone(),
                content_type: content_type.clone(),
                file_count: *file_count,
                to_category: to_category.clone(),
            },
            ProposedOperation::CreateCategory { name, purpose } => ProposedOperation::CreateCategory {
                name: name.clone(),
                purpose: purpose.clone(),
            },
            ProposedOperation::PreserveDirectory { path } => ProposedOperation::PreserveDirectory { path: path.copy() },
            ProposedOperation::ArchiveFiles { category, file_count } => ProposedOperation::ArchiveFiles {
                category: category.clone(),
                file_count: *file_count,
            },
            ProposedOperation::LeaveUnclassified { file_count, reason } => ProposedOperation::LeaveUnclassified {
                file_count: *file_count,
                reason: reason.clone(),
            },
        }
    }

    fn is_temp_archive(&self) -> (b: bool)
        ensures
            b == is_temp_archive(self@),
    {
        match self {
            ProposedOperation::ArchiveFiles { category, .. } => str_contains(category.as_str(), "temp"),
            _ => false,
        }
    }

    fn is_old_archive(&self) -> (b: bool)
        ensures
            b == is_old_archive(self@),
    {
        match self {
            ProposedOperation::ArchiveFiles { category, .. } => str_starts_with(category.as_str(), "files_older_than_"),
            _ => false,
        }
    }
}

proof fn lemma_temp_descriptions_nonempty(ops: Seq<ProposedView>)
    ensures
        (temp_archive_descriptions(ops).len() > 0) == (exists|i: int| 0 <= i < ops.len() && is_temp_archive(ops[i])),
    decreases ops.len(),
{
    if ops.len() > 0 {
        lemma_temp_descriptions_nonempty(ops.drop_last());
        if exists|i: int| 0 <= i < ops.drop_last().len() && is_temp_archive(ops.drop_last()[i]) {
            let i = choose|i: int| 0 <= i < ops.drop_last().len() && is_temp_archive(ops.drop_last()[i]);
            assert(is_temp_archive(ops[i]));
        }
        if exists|i: int| 0 <= i < ops.len() && is_temp_archive(ops[i]) {
            let i = choose|i: int| 0 <= i < ops.len() && is_temp_archive(ops[i]);
            if i < ops.len() - 1 {
                assert(is_temp_archive(ops.drop_last()[i]));
            }
        }
    }
}

proof fn lemma_old_descriptions_nonempty(ops: Seq<ProposedView>)
    ensures
        (old_archive_descriptions(ops).len() > 0) == (exists|i: int| 0 <= i < ops.len() && is_old_archive(ops[i])),
    decreases ops.len(),
{
    if ops.len() > 0 {
        lemma_old_descriptions_nonempty(ops.drop_last());
        if exists|i: int| 0 <= i < ops.drop_last().len() && is_old_archive(ops.drop_last()[i]) {
            let i = choose|i: int| 0 <= i < ops.drop_last().len() && is_old_archive(ops.drop_last()[i]);
            assert(is_old_archive(ops[i]));
        }
        if exists|i: int| 0 <= i < ops.len() && is_old_archive(ops[i]) {
            let i = choose|i: int| 0 <= i < ops.len() && is_old_archive(ops[i]);
            if i < ops.len() - 1 {
                assert(is_old_archive(ops.drop_last()[i]));
            }
        }
    }
}


/// Builds recommendations from an intent and what analysis found.
pub struct RecommendationEngine;

impl Default for RecommendationEngine {
    fn default() -> (r: RecommendationEngine) {
        RecommendationEngine
    }
}

impl RecommendationEngine {
    /// Checks the user's constraints against the proposed operations, and
    /// removes the operations the violated constraint blocks.
    pub fn enforce_constraints(&self, intent: &TaskIntent, operations: &mut Vec<ProposedOperation>) -> (r: (
        Vec<ConstraintCheck>,
        Option<ConstraintViolation>,
    ))
        ensures
            r.0@.map_values(|c: ConstraintCheck| c@) == constraint_checks_spec(intent.constraints, ops_view(old(operations)@)),
            opt_violation_view(r.1) == violation_spec(intent.constraints, ops_view(old(operations)@)),
            ops_view(final(operations)@) == kept_operations(intent.constraints, ops_view(old(operations)@)),
    {
        let ghost ops0 = ops_view(operations@);
        let c = &intent.constraints;
        let n = operations.len();
        let mut has_preserve = false;
        let mut temps: Vec<String> = Vec::new();
        let mut olds: Vec<String> = Vec::new();
        let mut i: usize = 0;
        while i < n
            invariant
                n == operations@.len(),
                ops0 == ops_view(operations@),
                i <= n,
                has_preserve == (exists|k: int| 0 <= k < i && ops0[k] is PreserveDirectory),
                temps@.map_values(|s: String| s@) == temp_archive_descriptions(ops0.take(i as int)),
                olds@.map_values(|s: String| s@) == old_archive_descriptions(ops0.take(i as int)),
            decreases n - i,
        {
            let op = &operations[i];
            assert(ops0.take(i + 1).drop_last() =~= ops0.take(i as int));
            assert(ops0[i as int] == op@);
            match op {
                ProposedOperation::PreserveDirectory { .. } => {
                    has_preserve = true;
                },
                _ => {},
            }
            if op.is_temp_archive() {
                let ghost prev = temps@.map_values(|s: String| s@);
                temps.push(op.description());
                assert(temps@.map_values(|s: String| s@) =~= prev.push(proposed_description(op@)));
            }
            if op.is_old_archive() {
                let ghost prev = olds@.map_values(|s: String| s@);
                olds.push(op.description());
                assert(olds@.map_values(|s: String| s@) =~= prev.push(proposed_description(op@)));
            }
            i = i + 1;
        }
        assert(ops0.take(n as int) =~= ops0);
        proof {
            lemma_temp_descriptions_nonempty(ops0);
            lemma_old_descriptions_nonempty(ops0);
        }
        let has_temp = temps.len() > 0;
        let has_old = olds.len() > 0;
        let archive = c.archive_old.is_some();
        let mut checks: Vec<ConstraintCheck> = Vec::new();
        checks.push(
            ConstraintCheck {
                name: owned("preserve_existing_folders"),
                passed: c.preserve_existing_folders || !has_preserve,
                message: if c.preserve_existing_folders {
                    owned("Existing directories will be preserved")
                } else {
                    owned("Preserve constraint not explicitly set")
                },
            },
        );
        checks.push(
            ConstraintCheck {
                name: owned("auto_delete_temps"),
                passed: c.auto_delete_temps || !has_temp,
                message: if c.auto_delete_temps {
                    owned("Temp file handling permitted by constraint")
                } else {
                    owned("Temp file auto-deletion disabled")
                },
            },
        );
        checks.push(
            ConstraintCheck {
                name: owned("merge_duplicates"),
                passed: true,
                message: if c.merge_duplicates {
                    owned("Duplicate merging enabled")
                } else {
                    owned("Duplicate merging not requested")
                },
            },
        );
        checks.push(
            ConstraintCheck {
                name: owned("archive_old_files"),
                passed: archive || !has_old,
                message: if archive {
                    owned("Old file archiving enabled")
                } else {
                    owned("Old file archiving not requested")
                },
            },
        );
        assert(checks@.map_values(|c: ConstraintCheck| c@) =~= constraint_checks_spec(intent.constraints, ops0));
        let violation = if !c.auto_delete_temps && has_temp {
            Some(
                ConstraintViolation {
                    constraint: owned("auto_delete_temps"),
                    reason: owned("auto_delete_temps is false; temp file deletion proposed"),
                    blocked_operations: temps,
                },
            )
        } else if !archive && has_old {
            Some(
                ConstraintViolation {
                    constraint: owned("archive_old_files"),
                    reason: owned("Archive duration not set; archiving old files proposed"),
                    blocked_operations: olds,
                },
            )
        } else {
            None
        };
        match &violation {
            Some(v) => {
                let kept = without_listed(operations, &v.blocked_operations);
                *operations = kept;
            },
            None => {},
        }
        (checks, violation)
    }
}

/// `ops` without those whose description is listed in `blocked`, order kept.
fn without_listed(ops: &Vec<ProposedOperation>, blocked: &Vec<String>) -> (r: Vec<ProposedOperation>)
    ensures
        ops_view(r@) == without_descriptions(ops_view(ops@), blocked@.map_values(|s: String| s@)),
{
    let ghost bl = blocked@.map_values(|s: String| s@);
    let ghost ov = ops_view(ops@);
    let mut r: Vec<ProposedOperation> = Vec::new();
    let mut i: usize = 0;
    while i < ops.len()
        invariant
            i <= ops@.len(),
            bl == blocked@.map_values(|s: String| s@),
            ov == ops_view(ops@),
            ops_view(r@) == without_descriptions(ov.take(i as int), bl),
        decreases ops@.len() - i,
    {
        let d = ops[i].description();
        assert(ov.take(i + 1).drop_last() =~= ov.take(i as int));
        let listed = list_contains(blocked, d.as_str());
        assert(listed == bl.contains(d@)) by {
            if listed {
                let k = choose|k: int| 0 <= k < blocked@.len() && #[trigger] blocked@[k]@ == d@;
                assert(bl[k] == d@);
            }
            if bl.contains(d@) {
                let k = choose|k: int| 0 <= k < bl.len() && bl[k] == d@;
                assert(blocked@[k]@ == d@);
            }
        }
        if !listed {
            let ghost prev = ops_view(r@);
            r.push(ops[i].copy());
            assert(ops_view(r@) =~= prev.push(ov[i as int]));
        }
        i = i + 1;
    }
    assert(ov.take(ops@.len() as int) =~= ov);
    r
}


proof fn lemma_without_descriptions(ops: Seq<ProposedView>, blocked: Seq<Seq<char>>)
    ensures
        forall|i: int|
            0 <= i < without_descriptions(ops, blocked).len() ==> ops.contains(
                #[trigger] without_descriptions(ops, blocked)[i],
            ) && !blocked.contains(proposed_description(without_descriptions(ops, blocked)[i])),
    decreases ops.len(),
{
    if ops.len() > 0 {
        lemma_without_descriptions(ops.drop_last(), blocked);
        let prev = without_descriptions(ops.drop_last(), blocked);
        let w = without_descriptions(ops, blocked);
        assert forall|i: int| 0 <= i < w.len() implies ops.contains(#[trigger] w[i]) && !blocked.contains(
            proposed_description(w[i]),
        ) by {
            if i < prev.len() {
                assert(w[i] == prev[i]);
                let j = choose|j: int| 0 <= j < ops.drop_last().len() && ops.drop_last()[j] == prev[i];
                assert(ops[j] == w[i]);
            } else {
                assert(w[i] == ops.last());
                assert(ops[ops.len() - 1] == w[i]);
            }
        }
    }
}

proof fn lemma_temp_listed(ops: Seq<ProposedView>, i: int)
    requires
        0 <= i < ops.len(),
        is_temp_archive(ops[i]),
    ensures
        temp_archive_descriptions(ops).contains(proposed_description(ops[i])),
    decreases ops.len(),
{
    let d = temp_archive_descriptions(ops);
    if i == ops.len() - 1 {
        assert(d[d.len() - 1] == proposed_description(ops[i]));
    } else {
        lemma_temp_listed(ops.drop_last(), i);
        let prev = temp_archive_descriptions(ops.drop_last());
        let k = choose|k: int| 0 <= k < prev.len() && prev[k] == proposed_description(ops.drop_last()[i]);
        assert(d[k] == prev[k]);
    }
}

proof fn lemma_old_listed(ops: Seq<ProposedView>, i: int)
    requires
        0 <= i < ops.len(),
        is_old_archive(ops[i]),
    ensures
        old_archive_descriptions(ops).contains(proposed_description(ops[i])),
    decreases ops.len(),
{
    let d = old_archive_descriptions(ops);
    if i == ops.len() - 1 {
        assert(d[d.len() - 1] == proposed_description(ops[i]));
    } else {
        lemma_old_listed(ops.drop_last(), i);
        let prev = old_archive_descriptions(ops.drop_last());
        let k = choose|k: int| 0 <= k < prev.len() && prev[k] == proposed_description(ops.drop_last()[i]);
        assert(d[k] == prev[k]);
    }
}

/// Constraint enforcement only removes operations; with temporary-file
/// deletion off, no temporary-file archive survives it; with no archive
/// duration set, no age-based archive survives it unless a temporary-file
/// violation was reported first; and without a violation nothing changes.
pub proof fn law_enforcement_removes_blocked(c: ConstraintSet, ops: Seq<ProposedView>)
    ensures
        forall|i: int|
            0 <= i < kept_operations(c, ops).len() ==> ops.contains(#[trigger] kept_operations(c, ops)[i]),
        !c.auto_delete_temps ==> forall|i: int|
            0 <= i < kept_operations(c, ops).len() ==> !is_temp_archive(#[trigger] kept_operations(c, ops)[i]),
        c.archive_old is None && (violation_spec(c, ops) is None || violation_spec(c, ops)->0.constraint
            == "archive_old_files"@) ==> forall|i: int|
            0 <= i < kept_operations(c, ops).len() ==> !is_old_archive(#[trigger] kept_operations(c, ops)[i]),
        violation_spec(c, ops) is None ==> kept_operations(c, ops) == ops,
{
    let kept = kept_operations(c, ops);
    let temps = temp_archive_descriptions(ops);
    let olds = old_archive_descriptions(ops);
    lemma_temp_descriptions_nonempty(ops);
    lemma_old_descriptions_nonempty(ops);
    match violation_spec(c, ops) {
        Some(v) => {
            lemma_without_descriptions(ops, v.blocked_operations);
        },
        None => {},
    }
    assert forall|i: int| 0 <= i < kept.len() implies ops.contains(#[trigger] kept[i]) by {
        if violation_spec(c, ops) is None {
            assert(ops[i] == kept[i]);
        }
    }
    if !c.auto_delete_temps {
        assert forall|i: int| 0 <= i < kept.len() implies !is_temp_archive(#[trigger] kept[i]) by {
            if is_temp_archive(kept[i]) {
                let j = choose|j: int| 0 <= j < ops.len() && ops[j] == kept[i];
                assert(is_temp_archive(ops[j]));
                lemma_temp_listed(ops, j);
            }
        }
    }
    if c.archive_old is None && (violation_spec(c, ops) is None || violation_spec(c, ops)->0.constraint
        == "archive_old_files"@) {
        assert forall|i: int| 0 <= i < kept.len() implies !is_old_archive(#[trigger] kept[i]) by {
            if is_old_archive(kept[i]) {
                let j = choose|j: int| 0 <= j < ops.len() && ops[j] == kept[i];
                assert(is_old_archive(ops[j]));
                lemma_old_listed(ops, j);
                if violation_spec(c, ops) is Some {
                    reveal_strlit("archive_old_files");
                    reveal_strlit("auto_delete_temps");
                    assert("archive_old_files"@[1] != "auto_delete_temps"@[1]);
                    assert(violation_spec(c, ops)->0.blocked_operations == olds);
                }
            }
        }
    }
}


/// The short strategy label that proposed moves carry, from the goal.
pub open spec fn strategy_name_spec(g: GoalView) -> Seq<char> {
    match g {
        GoalView::Organize { purpose, .. } => if purpose == "by_category"@ || purpose == "by_type"@ || purpose
            == "general_organization"@ {
            "category"@
        } else if purpose == "by_project"@ || purpose == "work/project"@ {
            "project"@
        } else if purpose == "by_date"@ {
            "chronological"@
        } else if purpose == "by_size"@ {
            "size"@
        } else {
            purpose
        },
        GoalView::Reorganize { strategy, .. } => match strategy {
            Some(s) => if s == "by_category"@ || s == "by_type"@ {
                "category"@
            } else if s == "by_project"@ {
                "project"@
            } else if s == "by_date"@ {
                "chronological"@
            } else if s == "by_size"@ {
                "size"@
            } else {
                s
            },
            None => "category"@,
        },
        GoalView::Clean { rules, .. } => if rules.len() == 0 {
            "preserve"@
        } else {
            "category"@
        },
    }
}

/// The strategy the goal alone calls for.
pub open spec fn goal_strategy(g: GoalView) -> StrategyView {
    match g {
        GoalView::Organize { purpose, .. } => if purpose == "by_category"@ || purpose == "by_type"@ || purpose
            == "general_organization"@ {
            StrategyView::CategoryBased
        } else if purpose == "by_project"@ || purpose == "work/project"@ {
            StrategyView::ProjectBased
        } else if purpose == "by_date"@ {
            StrategyView::Chronological
        } else if purpose == "by_size"@ {
            StrategyView::BySize
        } else {
            StrategyView::Custom(purpose)
        },
        GoalView::Reorganize { strategy, .. } => match strategy {
            Some(s) => if s == "by_category"@ || s == "by_type"@ {
                StrategyView::CategoryBased
            } else if s == "by_project"@ {
                StrategyView::ProjectBased
            } else if s == "by_date"@ {
                StrategyView::Chronological
            } else if s == "by_size"@ {
                StrategyView::BySize
            } else {
                StrategyView::Custom(s)
            },
            None => StrategyView::CategoryBased,
        },
        GoalView::Clean { rules, .. } => if rules.len() == 0 {
            StrategyView::PreserveExisting
        } else {
            StrategyView::CategoryBased
        },
    }
}

/// The strategy of a recommendation: the classifier's, when it named a known
/// one, else the goal's.
pub open spec fn strategy_spec(g: GoalView, llm: Option<LlmOrganizationStrategy>) -> StrategyView {
    match llm {
        Some(l) => if l != LlmOrganizationStrategy::Unknown {
            map_llm_strategy_spec(l)
        } else {
            goal_strategy(g)
        },
        None => goal_strategy(g),
    }
}

/// A space or hyphen becomes an underscore.
pub open spec fn underscore_separator(c: char) -> char {
    if c == ' ' || c == '-' {
        '_'
    } else {
        c
    }
}

/// A category name as a directory-friendly key: lower-cased, with spaces and
/// hyphens turned into underscores.
pub open spec fn normalize_spec(name: Seq<char>) -> Seq<char> {
    lowercase_of(name).map_values(|c: char| underscore_separator(c))
}

impl RecommendationEngine {
    /// The strategy label of the intent's goal.
    pub fn strategy_name(&self, intent: &TaskIntent) -> (r: String)
        ensures
            r@ == strategy_name_spec(intent.goal@),
    {
        match &intent.goal {
            Goal::Organize { purpose, .. } => {
                let p = purpose.as_str();
                if str_eq(p, "by_category") || str_eq(p, "by_type") || str_eq(p, "general_organization") {
                    owned("category")
                } else if str_eq(p, "by_project") || str_eq(p, "work/project") {
                    owned("project")
                } else if str_eq(p, "by_date") {
                    owned("chronological")
                } else if str_eq(p, "by_size") {
                    owned("size")
                } else {
                    owned(p)
                }
            },
            Goal::Reorganize { strategy, .. } => match strategy {
                Some(st) => {
                    let p = st.as_str();
                    if str_eq(p, "by_category") || str_eq(p, "by_type") {
                        owned("category")
                    } else if str_eq(p, "by_project") {
                        owned("project")
                    } else if str_eq(p, "by_date") {
                        owned("chronological")
                    } else if str_eq(p, "by_size") {
                        owned("size")
                    } else {
                        owned(p)
                    }
                },
                None => owned("category"),
            },
            Goal::Clean { rules, .. } => {
                if rules.len() == 0 {
                    owned("preserve")
                } else {
                    owned("category")
                }
            },
        }
    }

    /// The organizing strategy: the classifier's strategy when it is a known
    /// one, otherwise the one the goal calls for.
    pub fn determine_strategy(&self, intent: &TaskIntent, llm_strategy: Option<LlmOrganizationStrategy>) -> (r:
        RecommendationStrategy)
        ensures
            r@ == strategy_spec(intent.goal@, llm_strategy),
    {
        match llm_strategy {
            Some(l) => {
                match l {
                    LlmOrganizationStrategy::Unknown => {},
                    _ => {
                        return map_llm_strategy(&l);
                    },
                }
            },
            None => {},
        }
        match &intent.goal {
            Goal::Organize { purpose, .. } => {
                let p = purpose.as_str();
                if str_eq(p, "by_category") || str_eq(p, "by_type") || str_eq(p, "general_organization") {
                    RecommendationStrategy::CategoryBased
                } else if str_eq(p, "by_project") || str_eq(p, "work/project") {
                    RecommendationStrategy::ProjectBased
                } else if str_eq(p, "by_date") {
                    RecommendationStrategy::Chronological
                } else if str_eq(p, "by_size") {
                    RecommendationStrategy::BySize
                } else {
                    RecommendationStrategy::Custom(owned(p))
                }
            },
            Goal::Reorganize { strategy, .. } => match strategy {
                Some(st) => {
                    let p = st.as_str();
                    if str_eq(p, "by_category") || str_eq(p, "by_type") {
                        RecommendationStrategy::CategoryBased
                    } else if str_eq(p, "by_project") {
                        RecommendationStrategy::ProjectBased
                    } else if str_eq(p, "by_date") {
                        RecommendationStrategy::Chronological
                    } else if str_eq(p, "by_size") {
                        RecommendationStrategy::BySize
                    } else {
                        RecommendationStrategy::Custom(owned(p))
                    }
                },
                None => RecommendationStrategy::CategoryBased,
            },
            Goal::Clean { rules, .. } => {
                if rules.len() == 0 {
                    RecommendationStrategy::PreserveExisting
                } else {
                    RecommendationStrategy::CategoryBased
                }
            },
        }
    }

    /// A category name as a directory-friendly key.
    pub fn normalize_category_name(name: &str) -> (r: String)
        ensures
            r@ == normalize_spec(name@),
    {
        let low = to_lowercase(name);
        let cs = chars_of(low.as_str());
        let mut out: Vec<char> = Vec::new();
        let mut i: usize = 0;
        while i < cs.len()
            invariant
                i <= cs@.len(),
                cs@ == lowercase_of(name@),
                out@ == cs@.take(i as int).map_values(|c: char| underscore_separator(c)),
            decreases cs@.len() - i,
        {
            let c = cs[i];
            let m = if c == ' ' || c == '-' {
                '_'
            } else {
                c
            };
            out.push(m);
            i = i + 1;
            assert(out@ =~= cs@.take(i as int).map_values(|c: char| underscore_separator(c)));
        }
        assert(cs@.take(cs@.len() as int) =~= cs@);
        chars_to_string(&out)
    }
}


pub struct QuestionView {
    pub id: Seq<char>,
    pub question: Seq<char>,
    pub context: Seq<char>,
    pub options: Seq<Seq<char>>,
}

impl View for ClarificationQuestion {
    type V = QuestionView;

    open spec fn view(&self) -> QuestionView {
        QuestionView {
            id: self.id@,
            question: self.question@,
            context: self.context@,
            options: self.options@.map_values(|s: String| s@),
        }
    }
}

pub open spec fn questions_view(v: Seq<ClarificationQuestion>) -> Seq<QuestionView> {
    v.map_values(|q: ClarificationQuestion| q@)
}

/// The question asked for an evidence gap of the given kind.
pub open spec fn gap_prompt(t: GapType) -> Seq<char> {
    match t {
        GapType::Taxonomy => "What category structure do you prefer?"@,
        GapType::FileDisposition => "How should unclassified files be handled?"@,
        GapType::DuplicateHandling => "How should duplicate files be handled?"@,
        GapType::ArchivePolicy => "What is your archive policy for old files?"@,
        GapType::ScopeBoundary => "Should the scope include subdirectories?"@,
    }
}

/// The answers offered for an evidence gap of the given kind.
pub open spec fn gap_options(t: GapType) -> Seq<Seq<char>> {
    match t {
        GapType::Taxonomy => seq!["By file type"@, "By project"@, "By date"@],
        GapType::FileDisposition => seq!["Leave in place"@, "Move to 'misc' folder"@, "Archive"@],
        GapType::DuplicateHandling => seq!["Keep newer"@, "Keep larger"@, "Merge if identical"@],
        GapType::ArchivePolicy => seq!["Archive after 90 days"@, "Archive after 1 year"@, "Do not archive"@],
        GapType::ScopeBoundary => seq!["Yes, include all"@, "No, top-level only"@],
    }
}

/// How many of the gaps need the user's input.
pub open spec fn required_count(gaps: Seq<EvidenceGap>) -> nat
    decreases gaps.len(),
{
    if gaps.len() == 0 {
        0
    } else {
        required_count(gaps.drop_last()) + if gaps.last().requires_user_input {
            1nat
        } else {
            0nat
        }
    }
}

/// One question per gap that needs the user's input, numbered `q1`, `q2`, ...
pub open spec fn gap_questions(gaps: Seq<EvidenceGap>) -> Seq<QuestionView>
    decreases gaps.len(),
{
    if gaps.len() == 0 {
        seq![]
    } else {
        let prev = gap_questions(gaps.drop_last());
        let g = gaps.last();
        if g.requires_user_input {
            prev.push(
                QuestionView {
                    id: "q"@ + decimal(required_count(gaps)),
                    question: gap_prompt(g.gap_type),
                    context: g.description@,
                    options: gap_options(g.gap_type),
                },
            )
        } else {
            prev
        }
    }
}

/// Some question already asked mentions `u`.
pub open spec fn asked_about(qs: Seq<QuestionView>, u: Seq<char>) -> bool {
    exists|i: int| 0 <= i < qs.len() && seq_contains(#[trigger] qs[i].question, u)
}

/// `base` followed by a question for each unknown factor that no question so
/// far mentions; the `k`-th unknown is numbered `start + k`, asked or not.
pub open spec fn unknown_questions(base: Seq<QuestionView>, unknowns: Seq<Seq<char>>, start: nat) -> Seq<QuestionView>
    decreases unknowns.len(),
{
    if unknowns.len() == 0 {
        base
    } else {
        let prev = unknown_questions(base, unknowns.drop_last(), start);
        let u = unknowns.last();
        if asked_about(prev, u) {
            prev
        } else {
            prev.push(
                QuestionView {
                    id: "q"@ + decimal(start + unknowns.len()),
                    question: "Please specify your preference for: "@ + u,
                    context: "Unknown factor identified during intent parsing"@,
                    options: seq!["Leave as-is"@, "Use default"@],
                },
            )
        }
    }
}

/// The clarification questions of a recommendation, at most `max` of them.
pub open spec fn questions_spec(gaps: Seq<EvidenceGap>, unknowns: Seq<Seq<char>>, max: nat) -> Seq<QuestionView> {
    let all = unknown_questions(gap_questions(gaps), unknowns, required_count(gaps));
    if all.len() <= max {
        all
    } else {
        all.take(max as int)
    }
}

proof fn lemma_required_count_bound(gaps: Seq<EvidenceGap>)
    ensures
        required_count(gaps) <= gaps.len(),
    decreases gaps.len(),
{
    if gaps.len() > 0 {
        lemma_required_count_bound(gaps.drop_last());
    }
}

fn gap_question(g: &EvidenceGap, idx: usize) -> (q: ClarificationQuestion)
    ensures
        q@ == (QuestionView {
            id: "q"@ + decimal(idx as nat),
            question: gap_prompt(g.gap_type),
            context: g.description@,
            options: gap_options(g.gap_type),
        }),
{
    let (question, options) = match g.gap_type {
        GapType::Taxonomy => (
            owned("What category structure do you prefer?"),
            vec![owned("By file type"), owned("By project"), owned("By date")],
        ),
        GapType::FileDisposition => (
            owned("How should unclassified files be handled?"),
            vec![owned("Leave in place"), owned("Move to 'misc' folder"), owned("Archive")],
        ),
        GapType::DuplicateHandling => (
            owned("How should duplicate files be handled?"),
            vec![owned("Keep newer"), owned("Keep larger"), owned("Merge if identical")],
        ),
        GapType::ArchivePolicy => (
            owned("What is your archive policy for old files?"),
            vec![owned("Archive after 90 days"), owned("Archive after 1 year"), owned("Do not archive")],
        ),
        GapType::ScopeBoundary => (
            owned("Should the scope include subdirectories?"),
            vec![owned("Yes, include all"), owned("No, top-level only")],
        ),
    };
    let q = ClarificationQuestion {
        id: cat("q", usize_to_text(idx).as_str()),
        question,
        context: g.description.clone(),
        options,
    };
    assert(q@.options =~= gap_options(g.gap_type));
    q
}

fn asked_about_exec(qs: &Vec<ClarificationQuestion>, u: &str) -> (b: bool)
    ensures
        b == asked_about(questions_view(qs@), u@),
{
    let ghost qv = questions_view(qs@);
    let mut i: usize = 0;
    while i < qs.len()
        invariant
            i <= qs@.len(),
            qv == questions_view(qs@),
            forall|k: int| 0 <= k < i ==> !seq_contains(#[trigger] qv[k].question, u@),
        decreases qs@.len() - i,
    {
        if str_contains(qs[i].question.as_str(), u) {
            assert(seq_contains(qv[i as int].question, u@));
            return true;
        }
        i = i + 1;
    }
    false
}

impl RecommendationEngine {
    /// The clarification questions for the gaps that need the user's input and
    /// for the intent's unknown factors, at most the intent's question limit.
    pub fn generate_questions(&self, intent: &TaskIntent, gaps: &Vec<EvidenceGap>) -> (r: Vec<ClarificationQuestion>)
        requires
            gaps@.len() + intent.unknown_factors@.len() < usize::MAX,
        ensures
            questions_view(r@) == questions_spec(
                gaps@,
                intent.unknown_factors@.map_values(|s: String| s@),
                intent.constraints.max_interactive_questions as nat,
            ),
    {
        let mut questions: Vec<ClarificationQuestion> = Vec::new();
        let mut idx: usize = 0;
        let mut i: usize = 0;
        while i < gaps.len()
            invariant
                i <= gaps@.len(),
                idx == required_count(gaps@.take(i as int)),
                idx <= i,
                questions_view(questions@) == gap_questions(gaps@.take(i as int)),
            decreases gaps@.len() - i,
        {
            let g = &gaps[i];
            assert(gaps@.take(i + 1).drop_last() =~= gaps@.take(i as int));
            assert(gaps@.take(i + 1).last() == *g);
            if g.requires_user_input {
                idx = idx + 1;
                let q = gap_question(g, idx);
                let ghost prev = questions_view(questions@);
                questions.push(q);
                assert(questions_view(questions@) =~= prev.push(q@));
            }
            i = i + 1;
        }
        assert(gaps@.take(gaps@.len() as int) =~= gaps@);
        proof {
            lemma_required_count_bound(gaps@);
        }
        let ghost base = questions_view(questions@);
        let ghost start = required_count(gaps@);
        let ghost us = intent.unknown_factors@.map_values(|s: String| s@);
        let unknowns = &intent.unknown_factors;
        let mut j: usize = 0;
        while j < unknowns.len()
            invariant
                j <= unknowns@.len(),
                us == unknowns@.map_values(|s: String| s@),
                base == gap_questions(gaps@),
                start == required_count(gaps@),
                start <= gaps@.len(),
                gaps@.len() + unknowns@.len() < usize::MAX,
                idx == start + j,
                questions_view(questions@) == unknown_questions(base, us.take(j as int), start),
            decreases unknowns@.len() - j,
        {
            assert(us.take(j + 1).drop_last() =~= us.take(j as int));
            assert(us.take(j + 1).last() == unknowns@[j as int]@);
            idx = idx + 1;
            let u = unknowns[j].as_str();
            if !asked_about_exec(&questions, u) {
                let q = ClarificationQuestion {
                    id: cat("q", usize_to_text(idx).as_str()),
                    question: cat("Please specify your preference for: ", u),
                    context: owned("Unknown factor identified during intent parsing"),
                    options: vec![owned("Leave as-is"), owned("Use default")],
                };
                assert(q@.options =~= seq!["Leave as-is"@, "Use default"@]);
                let ghost prev = questions_view(questions@);
                questions.push(q);
                assert(questions_view(questions@) =~= prev.push(q@));
            }
            j = j + 1;
        }
        assert(us.take(unknowns@.len() as int) =~= us);
        let ghost all = questions_view(questions@);
        questions.truncate(intent.constraints.max_interactive_questions);
        assert(questions_view(questions@) =~= questions_spec(
            gaps@,
            us,
            intent.constraints.max_interactive_questions as nat,
        ));
        questions
    }
}


/// What the classifier decided for the files in scope.
#[derive(Clone, Copy, Debug, PartialEq, Eq)]
pub enum ClassificationDecision {
    MoveExisting,
    CreateCategory,
    LeaveUnclassified,
    AskUser,
}

/// The part of a classification result that proposals are built from.
#[derive(Clone, Debug, PartialEq, Eq)]
pub struct ClassificationOutcome {
    pub decision: ClassificationDecision,
    pub selected_candidate: Option<FsPath>,
    pub proposed_category_name: Option<String>,
}

/// The index of the first candidate whose path is `p`.
pub open spec fn candidate_index(cands: Seq<CandidateCategory>, p: PathView) -> Option<int>
    decreases cands.len(),
{
    if cands.len() == 0 {
        None
    } else if cands[0].path@ == p {
        Some(0)
    } else {
        match candidate_index(cands.subrange(1, cands.len() as int), p) {
            Some(k) => Some(k + 1),
            None => None,
        }
    }
}

/// A move of each content group into the category `to`.
pub open spec fn group_moves(strategy: Seq<char>, groups: Seq<ContentGroup>, to: Seq<char>) -> Seq<ProposedView> {
    groups.map_values(
        |g: ContentGroup|
            ProposedView::MoveCategory {
                strategy: strategy,
                content_type: g.extension@,
                file_count: g.file_count,
                to_category: to,
            },
    )
}

/// The operations a classification outcome proposes: moves into the selected
/// existing category followed by keeping that directory, or creating the
/// proposed category followed by moves into it; nothing otherwise.
pub open spec fn operations_spec(
    strategy: Seq<char>,
    outcome: Option<ClassificationOutcome>,
    cands: Seq<CandidateCategory>,
    groups: Seq<ContentGroup>,
) -> Seq<ProposedView> {
    match outcome {
        Some(o) => match o.decision {
            ClassificationDecision::MoveExisting => match o.selected_candidate {
                Some(sel) => match candidate_index(cands, sel@) {
                    Some(k) => group_moves(strategy, groups, cands[k].name@).push(
                        ProposedView::PreserveDirectory { path: sel@ },
                    ),
                    None => seq![],
                },
                None => seq![],
            },
            ClassificationDecision::CreateCategory => match o.proposed_category_name {
                Some(n) => seq![ProposedView::CreateCategory { name: normalize_spec(n@), purpose: n@ }] + group_moves(
                    strategy,
                    groups,
                    normalize_spec(n@),
                ),
                None => seq![],
            },
            _ => seq![],
        },
        None => seq![],
    }
}

fn find_candidate(cands: &Vec<CandidateCategory>, p: &FsPath) -> (r: Option<usize>)
    ensures
        match r {
            Some(k) => candidate_index(cands@, p@) == Some(k as int) && k < cands@.len(),
            None => candidate_index(cands@, p@) is None,
        },
{
    let mut i: usize = 0;
    assert(cands@.subrange(0, cands@.len() as int) =~= cands@);
    while i < cands.len()
        invariant
            i <= cands@.len(),
            candidate_index(cands@, p@) == match candidate_index(cands@.subrange(i as int, cands@.len() as int), p@) {
                Some(k) => Some(k + i),
                None => None,
            },
        decreases cands@.len() - i,
    {
        let ghost rest = cands@.subrange(i as int, cands@.len() as int);
        if cands[i].path.same_as(p) {
            assert(rest[0] == cands@[i as int]);
            return Some(i);
        }
        assert(rest.subrange(1, rest.len() as int) =~= cands@.subrange(i + 1, cands@.len() as int));
        i = i + 1;
    }
    None
}

fn push_group_moves(
    ops: &mut Vec<ProposedOperation>,
    strategy: &String,
    groups: &Vec<ContentGroup>,
    to: &String,
)
    ensures
        ops_view(final(ops)@) == ops_view(old(ops)@) + group_moves(strategy@, groups@, to@),
{
    let ghost start = ops_view(ops@);
    let mut i: usize = 0;
    while i < groups.len()
        invariant
            i <= groups@.len(),
            ops_view(ops@) == start + group_moves(strategy@, groups@.take(i as int), to@),
        decreases groups@.len() - i,
    {
        let g = &groups[i];
        let ghost prev = ops_view(ops@);
        ops.push(
            ProposedOperation::MoveCategory {
                strategy: strategy.clone(),
                content_type: g.extension.clone(),
                file_count: g.file_count,
                to_category: to.clone(),
            },
        );
        let ghost mv = ProposedView::MoveCategory {
            strategy: strategy@,
            content_type: g.extension@,
            file_count: g.file_count,
            to_category: to@,
        };
        assert(ops_view(ops@) =~= prev.push(mv));
        assert(group_moves(strategy@, groups@.take(i + 1), to@) =~= group_moves(strategy@, groups@.take(i as int), to@).push(mv));
        i = i + 1;
    }
    assert(groups@.take(groups@.len() as int) =~= groups@);
}

impl RecommendationEngine {
    /// The operations the classification outcome proposes for the content groups.
    pub fn generate_operations(
        &self,
        intent: &TaskIntent,
        outcome: &Option<ClassificationOutcome>,
        candidates: &Vec<CandidateCategory>,
        groups: &Vec<ContentGroup>,
    ) -> (r: Vec<ProposedOperation>)
        ensures
            ops_view(r@) == operations_spec(strategy_name_spec(intent.goal@), *outcome, candidates@, groups@),
    {
        let mut operations: Vec<ProposedOperation> = Vec::new();
        match outcome {
            Some(o) => match o.decision {
                ClassificationDecision::MoveExisting => match &o.selected_candidate {
                    Some(sel) => match find_candidate(candidates, sel) {
                        Some(k) => {
                            let strategy = self.strategy_name(intent);
                            push_group_moves(&mut operations, &strategy, groups, &candidates[k].name);
                            let ghost prev = ops_view(operations@);
                            operations.push(ProposedOperation::PreserveDirectory { path: sel.copy() });
                            assert(ops_view(operations@) =~= prev.push(ProposedView::PreserveDirectory { path: sel@ }));
                        },
                        None => {},
                    },
                    None => {},
                },
                ClassificationDecision::CreateCategory => match &o.proposed_category_name {
                    Some(n) => {
                        let name = Self::normalize_category_name(n.as_str());
                        operations.push(ProposedOperation::CreateCategory { name: name.clone(), purpose: n.clone() });
                        let strategy = self.strategy_name(intent);
                        push_group_moves(&mut operations, &strategy, groups, &name);
                    },
                    None => {},
                },
                _ => {},
            },
            None => {},
        }
        operations
    }
}


// ------------------------------------------------------ organization proposals

/// A category a proposal puts files into. `confidence_bits` is the bit
/// pattern of the classifier's confidence (an IEEE-754 double), carried
/// through unchanged.
#[derive(Clone, Debug, PartialEq, Eq)]
pub struct ProposedCategory {
    pub name: String,
    pub purpose: String,
    pub target_content_types: Vec<String>,
    pub confidence_bits: u64,
    pub is_existing: bool,
    pub target_path: Option<FsPath>,
    pub source_files: Vec<FsPath>,
}

#[verifier::ext_equal]
pub struct CategoryView {
    pub name: Seq<char>,
    pub purpose: Seq<char>,
    pub target_content_types: Seq<Seq<char>>,
    pub confidence_bits: u64,
    pub is_existing: bool,
    pub target_path: Option<PathView>,
    pub source_files: Seq<PathView>,
}

impl View for ProposedCategory {
    type V = CategoryView;

    open spec fn view(&self) -> CategoryView {
        CategoryView {
            name: self.name@,
            purpose: self.purpose@,
            target_content_types: self.target_content_types@.map_values(|s: String| s@),
            confidence_bits: self.confidence_bits,
            is_existing: self.is_existing,
            target_path: match self.target_path {
                Some(p) => Some(p@),
                None => None,
            },
            source_files: self.source_files@.map_values(|p: FsPath| p@),
        }
    }
}

pub open spec fn paths_view(v: Seq<FsPath>) -> Seq<PathView> {
    v.map_values(|p: FsPath| p@)
}

/// A copy of a list of paths.
pub fn copy_paths(v: &Vec<FsPath>) -> (r: Vec<FsPath>)
    ensures
        paths_view(r@) == paths_view(v@),
{
    let mut r: Vec<FsPath> = Vec::new();
    let mut i: usize = 0;
    while i < v.len()
        invariant
            i <= v@.len(),
            paths_view(r@) == paths_view(v@.take(i as int)),
        decreases v@.len() - i,
    {
        let ghost prev = paths_view(r@);
        r.push(v[i].copy());
        assert(paths_view(r@) =~= prev.push(v@[i as int]@));
        assert(paths_view(v@.take(i + 1)) =~= paths_view(v@.take(i as int)).push(v@[i as int]@));
        i = i + 1;
    }
    assert(v@.take(v@.len() as int) =~= v@);
    r
}

impl ProposedCategory {
    /// An independent copy.
    pub fn copy(&self) -> (r: ProposedCategory)
        ensures
            r@ == self@,
    {
        let target_path = match &self.target_path {
            Some(p) => Some(p.copy()),
            None => None,
        };
        let r = ProposedCategory {
            name: self.name.clone(),
            purpose: self.purpose.clone(),
            target_content_types: clone_strings(&self.target_content_types),
            confidence_bits: self.confidence_bits,
            is_existing: self.is_existing,
            target_path,
            source_files: copy_paths(&self.source_files),
        };
        assert(r@.target_content_types =~= self@.target_content_types);
        assert(r@ =~= self@);
        r
    }
}

/// A proposal to organize files: the strategy, its rationale, the categories
/// with their files, and what analysis left open.
#[derive(Clone, Debug, PartialEq, Eq)]
pub struct OrganizationProposal {
    pub strategy: RecommendationStrategy,
    pub rationale: String,
    pub proposed_categories: Vec<ProposedCategory>,
    pub evidence_gaps: Vec<EvidenceGap>,
    pub ambiguities: Vec<Ambiguity>,
}

#[verifier::ext_equal]
pub struct ProposalView {
    pub strategy: StrategyView,
    pub rationale: Seq<char>,
    pub categories: Seq<CategoryView>,
    pub evidence_gaps: Seq<GapView>,
    pub ambiguities: Seq<AmbiguityView>,
}

pub open spec fn categories_view(v: Seq<ProposedCategory>) -> Seq<CategoryView> {
    v.map_values(|c: ProposedCategory| c@)
}

impl View for OrganizationProposal {
    type V = ProposalView;

    open spec fn view(&self) -> ProposalView {
        ProposalView {
            strategy: self.strategy@,
            rationale: self.rationale@,
            categories: categories_view(self.proposed_categories@),
            evidence_gaps: self.evidence_gaps@.map_values(|g: EvidenceGap| g@),
            ambiguities: self.ambiguities@.map_values(|a: Ambiguity| a@),
        }
    }
}

impl RecommendationStrategy {
    /// An independent copy.
    pub fn copy(&self) -> (r: RecommendationStrategy)
        ensures
            r@ == self@,
    {
        match self {
            RecommendationStrategy::CategoryBased => RecommendationStrategy::CategoryBased,
            RecommendationStrategy::ProjectBased => RecommendationStrategy::ProjectBased,
            RecommendationStrategy::Chronological => RecommendationStrategy::Chronological,
            RecommendationStrategy::BySize => RecommendationStrategy::BySize,
            RecommendationStrategy::ByAuthor => RecommendationStrategy::ByAuthor,
            RecommendationStrategy::ByTitle => RecommendationStrategy::ByTitle,
            RecommendationStrategy::ByYear => RecommendationStrategy::ByYear,
            RecommendationStrategy::PreserveExisting => RecommendationStrategy::PreserveExisting,
            RecommendationStrategy::Unknown => RecommendationStrategy::Unknown,
            RecommendationStrategy::Custom(s) => RecommendationStrategy::Custom(s.clone()),
        }
    }
}

fn copy_gaps(v: &Vec<EvidenceGap>) -> (r: Vec<EvidenceGap>)
    ensures
        r@.map_values(|g: EvidenceGap| g@) == v@.map_values(|g: EvidenceGap| g@),
{
    let mut r: Vec<EvidenceGap> = Vec::new();
    let mut i: usize = 0;
    while i < v.len()
        invariant
            i <= v@.len(),
            r@.map_values(|g: EvidenceGap| g@) == v@.take(i as int).map_values(|g: EvidenceGap| g@),
        decreases v@.len() - i,
    {
        let ghost prev = r@.map_values(|g: EvidenceGap| g@);
        r.push(v[i].copy());
        assert(r@.map_values(|g: EvidenceGap| g@) =~= prev.push(v@[i as int]@));
        assert(v@.take(i + 1).map_values(|g: EvidenceGap| g@) =~= v@.take(i as int).map_values(|g: EvidenceGap| g@).push(v@[i as int]@));
        i = i + 1;
    }
    assert(v@.take(v@.len() as int) =~= v@);
    r
}

fn copy_ambiguities(v: &Vec<Ambiguity>) -> (r: Vec<Ambiguity>)
    ensures
        r@.map_values(|a: Ambiguity| a@) == v@.map_values(|a: Ambiguity| a@),
{
    let mut r: Vec<Ambiguity> = Vec::new();
    let mut i: usize = 0;
    while i < v.len()
        invariant
            i <= v@.len(),
            r@.map_values(|a: Ambiguity| a@) == v@.take(i as int).map_values(|a: Ambiguity| a@),
        decreases v@.len() - i,
    {
        let ghost prev = r@.map_values(|a: Ambiguity| a@);
        r.push(v[i].copy());
        assert(r@.map_values(|a: Ambiguity| a@) =~= prev.push(v@[i as int]@));
        assert(v@.take(i + 1).map_values(|a: Ambiguity| a@) =~= v@.take(i as int).map_values(|a: Ambiguity| a@).push(v@[i as int]@));
        i = i + 1;
    }
    assert(v@.take(v@.len() as int) =~= v@);
    r
}

impl OrganizationProposal {
    /// The same proposal with its categories replaced.
    pub fn with_categories(&self, categories: Vec<ProposedCategory>) -> (r: OrganizationProposal)
        ensures
            r@ == (ProposalView { categories: categories_view(categories@), ..self@ }),
    {
        let r = OrganizationProposal {
            strategy: self.strategy.copy(),
            rationale: self.rationale.clone(),
            proposed_categories: categories,
            evidence_gaps: copy_gaps(&self.evidence_gaps),
            ambiguities: copy_ambiguities(&self.ambiguities),
        };
        assert(r@ =~= (ProposalView { categories: categories_view(categories@), ..self@ }));
        r
    }
}


// ------------------------------------------------------ recommendations

/// The strategy a classifier suggested; `confidence_bits` is the bit pattern
/// of its confidence (an IEEE-754 double), carried through unchanged.
#[derive(Clone, Debug, PartialEq, Eq)]
pub struct StrategyInfo {
    pub strategy: RecommendationStrategy,
    pub confidence_bits: u64,
    pub reason: Option<String>,
}

/// A recommendation: strategy, proposed categories and operations, the
/// constraint checks, questions still open, and warnings. `confidence_bits` is
/// the bit pattern of the overall confidence (an IEEE-754 double), carried
/// through unchanged.
#[derive(Clone, Debug, PartialEq, Eq)]
pub struct Recommendation {
    pub id: String,
    pub strategy: RecommendationStrategy,
    pub strategy_info: Option<StrategyInfo>,
    pub rationale: String,
    pub proposed_categories: Vec<ProposedCategory>,
    pub proposed_operations: Vec<ProposedOperation>,
    pub unresolved_questions: Vec<ClarificationQuestion>,
    pub confidence_bits: u64,
    pub constraint_checks: Vec<ConstraintCheck>,
    pub constraint_violation: Option<ConstraintViolation>,
    pub warnings: Vec<RecommendationWarning>,
    pub generated_at: u64,
    pub organization_proposal: Option<OrganizationProposal>,
}

/// The proposal has a category with files assigned to it.
pub open spec fn proposal_assigns_files(p: Option<OrganizationProposal>) -> bool {
    match p {
        Some(x) => exists|i: int|
            0 <= i < x.proposed_categories@.len() && (#[trigger] x.proposed_categories@[i]).source_files@.len() > 0,
        None => false,
    }
}

/// Whether the recommendation carries a proposal with files assigned.
pub fn uses_proposal(recommendation: &Recommendation) -> (b: bool)
    ensures
        b == proposal_assigns_files(recommendation.organization_proposal),
{
    match &recommendation.organization_proposal {
        Some(p) => {
            let mut i: usize = 0;
            while i < p.proposed_categories.len()
                invariant
                    recommendation.organization_proposal == Some(*p),
                    i <= p.proposed_categories@.len(),
                    forall|k: int| 0 <= k < i ==> (#[trigger] p.proposed_categories@[k]).source_files@.len() == 0,
                decreases p.proposed_categories@.len() - i,
            {
                if p.proposed_categories[i].source_files.len() > 0 {
                    assert(p.proposed_categories@[i as int].source_files@.len() > 0);
                    return true;
                }
                i = i + 1;
            }
            false
        },
        None => false,
    }
}


// ------------------------------------------------------ categories and checks

/// The file extensions of the content groups, in order.
pub open spec fn extensions_of(groups: Seq<ContentGroup>) -> Seq<Seq<char>> {
    groups.map_values(|g: ContentGroup| g.extension@)
}

/// The categories a classification outcome proposes: the selected existing
/// candidate, or the new category under its normalized name; each targets
/// every content group's extension and carries the classifier's confidence.
pub open spec fn categories_spec(
    outcome: Option<ClassificationOutcome>,
    confidence_bits: u64,
    cands: Seq<CandidateCategory>,
    groups: Seq<ContentGroup>,
) -> Seq<CategoryView> {
    match outcome {
        Some(o) => match o.decision {
            ClassificationDecision::MoveExisting => match o.selected_candidate {
                Some(sel) => match candidate_index(cands, sel@) {
                    Some(k) => seq![
                        CategoryView {
                            name: cands[k].name@,
                            purpose: cands[k].name@,
                            target_content_types: extensions_of(groups),
                            confidence_bits,
                            is_existing: true,
                            target_path: Some(sel@),
                            source_files: seq![],
                        },
                    ],
                    None => seq![],
                },
                None => seq![],
            },
            ClassificationDecision::CreateCategory => match o.proposed_category_name {
                Some(n) => seq![
                    CategoryView {
                        name: normalize_spec(n@),
                        purpose: n@,
                        target_content_types: extensions_of(groups),
                        confidence_bits,
                        is_existing: false,
                        target_path: None,
                        source_files: seq![],
                    },
                ],
                None => seq![],
            },
            _ => seq![],
        },
        None => seq![],
    }
}

fn extensions_exec(groups: &Vec<ContentGroup>) -> (r: Vec<String>)
    ensures
        r@.map_values(|s: String| s@) == extensions_of(groups@),
{
    let mut r: Vec<String> = Vec::new();
    let mut i: usize = 0;
    while i < groups.len()
        invariant
            i <= groups@.len(),
            r@.map_values(|s: String| s@) == extensions_of(groups@.take(i as int)),
        decreases groups@.len() - i,
    {
        let ghost prev = r@.map_values(|s: String| s@);
        r.push(groups[i].extension.clone());
        assert(r@.map_values(|s: String| s@) =~= prev.push(groups@[i as int].extension@));
        assert(extensions_of(groups@.take(i + 1)) =~= extensions_of(groups@.take(i as int)).push(
            groups@[i as int].extension@,
        ));
        i = i + 1;
    }
    assert(groups@.take(groups@.len() as int) =~= groups@);
    r
}

/// A copy of a list of questions.
pub fn copy_questions(qs: &Vec<ClarificationQuestion>) -> (r: Vec<ClarificationQuestion>)
    ensures
        questions_view(r@) == questions_view(qs@),
{
    let mut r: Vec<ClarificationQuestion> = Vec::new();
    let mut i: usize = 0;
    while i < qs.len()
        invariant
            i <= qs@.len(),
            questions_view(r@) == questions_view(qs@.take(i as int)),
        decreases qs@.len() - i,
    {
        let q = &qs[i];
        let c = ClarificationQuestion {
            id: q.id.clone(),
            question: q.question.clone(),
            context: q.context.clone(),
            options: clone_strings(&q.options),
        };
        let ghost prev = questions_view(r@);
        r.push(c);
        assert(questions_view(r@) =~= prev.push(qs@[i as int]@));
        assert(questions_view(qs@.take(i + 1)) =~= questions_view(qs@.take(i as int)).push(qs@[i as int]@));
        i = i + 1;
    }
    assert(qs@.take(qs@.len() as int) =~= qs@);
    r
}

impl RecommendationEngine {
    /// The categories a classification outcome proposes (see `categories_spec`);
    /// `confidence_bits` is the classifier's confidence, carried over.
    pub fn propose_categories(
        &self,
        outcome: &Option<ClassificationOutcome>,
        confidence_bits: u64,
        candidates: &Vec<CandidateCategory>,
        groups: &Vec<ContentGroup>,
    ) -> (r: Vec<ProposedCategory>)
        ensures
            categories_view(r@) == categories_spec(*outcome, confidence_bits, candidates@, groups@),
    {
        let mut cats: Vec<ProposedCategory> = Vec::new();
        match outcome {
            Some(o) => match o.decision {
                ClassificationDecision::MoveExisting => match &o.selected_candidate {
                    Some(sel) => match find_candidate(candidates, sel) {
                        Some(k) => {
                            let c = ProposedCategory {
                                name: candidates[k].name.clone(),
                                purpose: candidates[k].name.clone(),
                                target_content_types: extensions_exec(groups),
                                confidence_bits,
                                is_existing: true,
                                target_path: Some(sel.copy()),
                                source_files: Vec::new(),
                            };
                            assert(c@.source_files =~= Seq::<PathView>::empty());
                            cats.push(c);
                            assert(categories_view(cats@) =~= seq![c@]);
                            assert(categories_view(cats@) =~= categories_spec(
                                *outcome,
                                confidence_bits,
                                candidates@,
                                groups@,
                            ));
                        },
                        None => {},
                    },
                    None => {},
                },
                ClassificationDecision::CreateCategory => match &o.proposed_category_name {
                    Some(n) => {
                        let c = ProposedCategory {
                            name: Self::normalize_category_name(n.as_str()),
                            purpose: n.clone(),
                            target_content_types: extensions_exec(groups),
                            confidence_bits,
                            is_existing: false,
                            target_path: None,
                            source_files: Vec::new(),
                        };
                        assert(c@.source_files =~= Seq::<PathView>::empty());
                        cats.push(c);
                        assert(categories_view(cats@) =~= seq![c@]);
                        assert(categories_view(cats@) =~= categories_spec(
                            *outcome,
                            confidence_bits,
                            candidates@,
                            groups@,
                        ));
                    },
                    None => {},
                },
                _ => {},
            },
            None => {},
        }
        assert(categories_view(cats@) =~= categories_spec(*outcome, confidence_bits, candidates@, groups@));
        cats
    }

    /// Checks that an analysis fits the intent: it must be of the intent's
    /// scope, and must have found some content.
    pub fn validate_analysis(&self, intent: &TaskIntent, analysis_scope: &FsPath, groups: &Vec<ContentGroup>) -> (r:
        Result<(), RecommendationError>)
        ensures
            analysis_scope@ != crate::intent::goal_scope(intent.goal@) ==> r == Err::<(), RecommendationError>(
                RecommendationError::ScopeMismatch,
            ),
            analysis_scope@ == crate::intent::goal_scope(intent.goal@) && groups@.len() == 0 ==> r == Err::<
                (),
                RecommendationError,
            >(RecommendationError::NoContentGroups),
            analysis_scope@ == crate::intent::goal_scope(intent.goal@) && groups@.len() > 0 ==> r is Ok,
    {
        let scope = intent.goal.scope();
        if !analysis_scope.same_as(&scope) {
            return Err(RecommendationError::ScopeMismatch);
        }
        if groups.len() == 0 {
            return Err(RecommendationError::NoContentGroups);
        }
        Ok(())
    }
}


// ------------------------------------------------------ rationale

/// The strategy as the rationale names it.
pub open spec fn strategy_label(s: StrategyView) -> Seq<char> {
    match s {
        StrategyView::CategoryBased => "category-based"@,
        StrategyView::ProjectBased => "project-based"@,
        StrategyView::Chronological => "chronological"@,
        StrategyView::BySize => "by-size"@,
        StrategyView::ByAuthor => "by-author"@,
        StrategyView::ByTitle => "by-title"@,
        StrategyView::ByYear => "by-year"@,
        StrategyView::PreserveExisting => "preserve existing"@,
        StrategyView::Unknown => "unknown"@,
        StrategyView::Custom(c) => c,
    }
}

/// The purpose the rationale quotes: the organize purpose, the reorganize
/// strategy, "clean-up" for a clean goal, and "general" otherwise.
pub open spec fn purpose_label(g: GoalView) -> Seq<char> {
    match g {
        GoalView::Organize { purpose, .. } => purpose,
        GoalView::Reorganize { strategy, .. } => match strategy {
            Some(st) => st,
            None => "general"@,
        },
        GoalView::Clean { .. } => "clean-up"@,
    }
}

/// What the rationale reports of an analysis: the scope, its file and
/// subdirectory counts, how many content groups and ambiguities it found, its
/// evidence gaps, the reason given for the strategy, and the classification
/// confidence already written as a whole percentage.
#[derive(Clone, Debug, PartialEq, Eq)]
pub struct RationaleFacts {
    pub scope: FsPath,
    pub total_files: u64,
    pub total_directories: u64,
    pub content_groups: usize,
    pub ambiguities: usize,
    pub evidence_gaps: Vec<EvidenceGap>,
    pub strategy_reason: Option<String>,
    pub confidence_percent: String,
}

pub open spec fn gap_descriptions(gaps: Seq<EvidenceGap>) -> Seq<Seq<char>> {
    gaps.map_values(|g: EvidenceGap| g.description@)
}

/// The rationale of a recommendation, in one paragraph, from what it reports
/// of the analysis (see `RationaleFacts`; `gaps` are the descriptions of the
/// evidence gaps).
pub open spec fn rationale_spec(
    goal: GoalView,
    strategy: StrategyView,
    num_categories: nat,
    scope: PathView,
    total_files: nat,
    total_directories: nat,
    content_groups: nat,
    ambiguities: nat,
    gaps: Seq<Seq<char>>,
    strategy_reason: Option<Seq<char>>,
    confidence_percent: Seq<char>,
) -> Seq<char> {
    let reason_text = match strategy_reason {
        Some(r) => " Strategy reason: "@ + r + "."@,
        None => seq![],
    };
    let gaps_text = if gaps.len() > 0 {
        " Evidence gaps: "@ + crate::verification::joined(gaps) + "."@
    } else {
        seq![]
    };
    "Analyzed "@ + display_spec(scope) + " directory ("@ + decimal(total_files) + " files, "@ + decimal(total_directories)
        + " subdirectories). Detected "@ + decimal(content_groups) + " content type groups. Strategy: "@
        + strategy_label(strategy) + " (purpose: "@ + purpose_label(goal) + ")."@ + reason_text + " Proposed "@
        + decimal(num_categories) + " categories. Classification confidence: "@ + confidence_percent + "%. "@
        + decimal(ambiguities) + " ambiguities and "@ + decimal(gaps.len()) + " evidence gaps require attention."@
        + gaps_text
}

/// The rationale for facts held in a `RationaleFacts`.
pub open spec fn facts_rationale(goal: GoalView, strategy: StrategyView, num_categories: nat, f: RationaleFacts) -> Seq<char> {
    rationale_spec(
        goal,
        strategy,
        num_categories,
        f.scope@,
        f.total_files as nat,
        f.total_directories as nat,
        f.content_groups as nat,
        f.ambiguities as nat,
        gap_descriptions(f.evidence_gaps@),
        opt_text(f.strategy_reason),
        f.confidence_percent@,
    )
}

fn strategy_label_exec(s: &RecommendationStrategy) -> (r: String)
    ensures
        r@ == strategy_label(s@),
{
    match s {
        RecommendationStrategy::CategoryBased => owned("category-based"),
        RecommendationStrategy::ProjectBased => owned("project-based"),
        RecommendationStrategy::Chronological => owned("chronological"),
        RecommendationStrategy::BySize => owned("by-size"),
        RecommendationStrategy::ByAuthor => owned("by-author"),
        RecommendationStrategy::ByTitle => owned("by-title"),
        RecommendationStrategy::ByYear => owned("by-year"),
        RecommendationStrategy::PreserveExisting => owned("preserve existing"),
        RecommendationStrategy::Unknown => owned("unknown"),
        RecommendationStrategy::Custom(c) => c.clone(),
    }
}

fn purpose_label_exec(g: &Goal) -> (r: String)
    ensures
        r@ == purpose_label(g@),
{
    match g {
        Goal::Organize { purpose, .. } => purpose.clone(),
        Goal::Reorganize { strategy, .. } => match strategy {
            Some(st) => st.clone(),
            None => owned("general"),
        },
        Goal::Clean { .. } => owned("clean-up"),
    }
}

impl RecommendationEngine {
    /// The rationale shown with a recommendation (see `rationale_spec`).
    pub fn build_rationale(
        &self,
        intent: &TaskIntent,
        strategy: &RecommendationStrategy,
        num_categories: usize,
        facts: &RationaleFacts,
    ) -> (r: String)
        ensures
            r@ == facts_rationale(intent.goal@, strategy@, num_categories as nat, *facts),
    {
        let reason_text = match &facts.strategy_reason {
            Some(r) => cat3(" Strategy reason: ", r.as_str(), "."),
            None => String::new(),
        };
        let gaps_text = if facts.evidence_gaps.len() > 0 {
            let mut ds: Vec<String> = Vec::new();
            let mut i: usize = 0;
            while i < facts.evidence_gaps.len()
                invariant
                    i <= facts.evidence_gaps@.len(),
                    ds@.map_values(|m: String| m@) == gap_descriptions(facts.evidence_gaps@.take(i as int)),
                decreases facts.evidence_gaps@.len() - i,
            {
                let ghost prev = ds@.map_values(|m: String| m@);
                ds.push(facts.evidence_gaps[i].description.clone());
                assert(ds@.map_values(|m: String| m@) =~= prev.push(facts.evidence_gaps@[i as int].description@));
                assert(gap_descriptions(facts.evidence_gaps@.take(i + 1)) =~= gap_descriptions(
                    facts.evidence_gaps@.take(i as int),
                ).push(facts.evidence_gaps@[i as int].description@));
                i = i + 1;
            }
            assert(facts.evidence_gaps@.take(facts.evidence_gaps@.len() as int) =~= facts.evidence_gaps@);
            let joined = crate::verification::join_messages(&ds);
            cat3(" Evidence gaps: ", joined.as_str(), ".")
        } else {
            String::new()
        };
        let a = cat3("Analyzed ", facts.scope.display().as_str(), " directory (");
        let a = cat3(a.as_str(), u64_to_text(facts.total_files).as_str(), " files, ");
        let a = cat3(a.as_str(), u64_to_text(facts.total_directories).as_str(), " subdirectories). Detected ");
        let a = cat3(a.as_str(), usize_to_text(facts.content_groups).as_str(), " content type groups. Strategy: ");
        let a = cat3(a.as_str(), strategy_label_exec(strategy).as_str(), " (purpose: ");
        let a = cat3(a.as_str(), purpose_label_exec(&intent.goal).as_str(), ").");
        let a = cat3(a.as_str(), reason_text.as_str(), " Proposed ");
        let a = cat3(a.as_str(), usize_to_text(num_categories).as_str(), " categories. Classification confidence: ");
        let a = cat3(a.as_str(), facts.confidence_percent.as_str(), "%. ");
        let a = cat3(a.as_str(), usize_to_text(facts.ambiguities).as_str(), " ambiguities and ");
        let a = cat3(a.as_str(), usize_to_text(facts.evidence_gaps.len()).as_str(), " evidence gaps require attention.");
        let r = cat(a.as_str(), gaps_text.as_str());
        proof {
            let f = *facts;
            assert(r@ =~= facts_rationale(intent.goal@, strategy@, num_categories as nat, f));
        }
        r
    }
}


// ------------------------------------------------------ recommending

/// The strategy a classifier suggested, as it gave it: the strategy, its
/// confidence (the bit pattern of an IEEE-754 double) and its reason.
#[derive(Clone, Debug, PartialEq, Eq)]
pub struct SuggestedStrategy {
    pub strategy: LlmOrganizationStrategy,
    pub confidence_bits: u64,
    pub reason: Option<String>,
}

/// What recommending reads of an analysis: the scope and its counts, the
/// content groups and candidate categories, the first classification with its
/// confidence, the suggested strategy and proposal, the ambiguities and the
/// evidence gaps.
pub struct AnalysisFindings {
    pub scope: FsPath,
    pub total_files: u64,
    pub total_directories: u64,
    pub content_groups: Vec<ContentGroup>,
    pub candidate_categories: Vec<CandidateCategory>,
    pub classification: Option<ClassificationOutcome>,
    pub classification_confidence_bits: u64,
    pub organization_strategy: Option<SuggestedStrategy>,
    pub organization_proposal: Option<OrganizationProposal>,
    pub ambiguities: Vec<Ambiguity>,
    pub evidence_gaps: Vec<EvidenceGap>,
}

pub open spec fn suggested_of(s: Option<SuggestedStrategy>) -> Option<LlmOrganizationStrategy> {
    match s {
        Some(x) => Some(x.strategy),
        None => None,
    }
}

pub open spec fn reason_of(s: Option<SuggestedStrategy>) -> Option<Seq<char>> {
    match s {
        Some(x) => opt_text(x.reason),
        None => None,
    }
}

/// A recommendation for an analysis that fits the intent: the strategy, the
/// proposed categories and the operations that survive the constraints, the
/// constraint checks and violation, the open questions, the rationale, the
/// suggested strategy as adopted, the proposal carried over, and the
/// warnings, confidence and time supplied.
pub open spec fn recommendation_matches(
    r: Recommendation,
    intent: TaskIntent,
    f: AnalysisFindings,
    warnings: Seq<RecommendationWarning>,
    confidence_bits: u64,
    confidence_percent: Seq<char>,
    generated_at: u64,
) -> bool {
    let goal = intent.goal@;
    let strategy = strategy_spec(goal, suggested_of(f.organization_strategy));
    let cats = categories_spec(f.classification, f.classification_confidence_bits, f.candidate_categories@, f.content_groups@);
    let ops = operations_spec(strategy_name_spec(goal), f.classification, f.candidate_categories@, f.content_groups@);
    &&& r.id@ == "rec-"@ + decimal(generated_at as nat)
    &&& r.strategy@ == strategy
    &&& categories_view(r.proposed_categories@) == cats
    &&& ops_view(r.proposed_operations@) == kept_operations(intent.constraints, ops)
    &&& r.constraint_checks@.map_values(|c: ConstraintCheck| c@) == constraint_checks_spec(intent.constraints, ops)
    &&& opt_violation_view(r.constraint_violation) == violation_spec(intent.constraints, ops)
    &&& questions_view(r.unresolved_questions@) == questions_spec(
        f.evidence_gaps@,
        intent.unknown_factors@.map_values(|s: String| s@),
        intent.constraints.max_interactive_questions as nat,
    )
    &&& r.rationale@ == rationale_spec(
        goal,
        strategy,
        cats.len(),
        f.scope@,
        f.total_files as nat,
        f.total_directories as nat,
        f.content_groups@.len(),
        f.ambiguities@.len(),
        gap_descriptions(f.evidence_gaps@),
        reason_of(f.organization_strategy),
        confidence_percent,
    )
    &&& match f.organization_strategy {
        Some(sg) => r.strategy_info matches Some(i) && i.strategy@ == map_llm_strategy_spec(sg.strategy)
            && i.confidence_bits == sg.confidence_bits && opt_text(i.reason) == opt_text(sg.reason),
        None => r.strategy_info is None,
    }
    &&& r.organization_proposal == f.organization_proposal
    &&& r.warnings@ == warnings
    &&& r.confidence_bits == confidence_bits
    &&& r.generated_at == generated_at
}

proof fn lemma_same_descriptions(a: Seq<EvidenceGap>, b: Seq<EvidenceGap>)
    requires
        a.map_values(|g: EvidenceGap| g@) == b.map_values(|g: EvidenceGap| g@),
    ensures
        gap_descriptions(a) == gap_descriptions(b),
{
    assert(a.len() == a.map_values(|g: EvidenceGap| g@).len());
    assert(b.len() == b.map_values(|g: EvidenceGap| g@).len());
    assert forall|k: int| 0 <= k < a.len() implies gap_descriptions(a)[k] == gap_descriptions(b)[k] by {
        assert(a.map_values(|g: EvidenceGap| g@)[k] == a[k]@);
        assert(b.map_values(|g: EvidenceGap| g@)[k] == b[k]@);
        assert(a[k]@.description == b[k]@.description);
    }
    assert(gap_descriptions(a) =~= gap_descriptions(b));
}

fn clone_reason(o: &Option<String>) -> (r: Option<String>)
    ensures
        opt_text(r) == opt_text(*o),
{
    match o {
        Some(s) => Some(s.clone()),
        None => None,
    }
}

impl RecommendationEngine {
    /// A recommendation for an analysis. The analysis must be of the intent's
    /// scope and have found content. The caller supplies the warnings, the
    /// overall confidence (as the bits of an `f64`), the classification
    /// confidence as the whole percentage the rationale quotes, and the time.
    pub fn recommend(
        &self,
        intent: &TaskIntent,
        findings: AnalysisFindings,
        warnings: Vec<RecommendationWarning>,
        confidence_bits: u64,
        confidence_percent: String,
        generated_at: u64,
    ) -> (r: Result<Recommendation, RecommendationError>)
        requires
            findings.evidence_gaps@.len() + intent.unknown_factors@.len() < usize::MAX,
        ensures
            findings.scope@ != crate::intent::goal_scope(intent.goal@) ==> r == Err::<
                Recommendation,
                RecommendationError,
            >(RecommendationError::ScopeMismatch),
            findings.scope@ == crate::intent::goal_scope(intent.goal@) && findings.content_groups@.len() == 0 ==> r
                == Err::<Recommendation, RecommendationError>(RecommendationError::NoContentGroups),
            findings.scope@ == crate::intent::goal_scope(intent.goal@) && findings.content_groups@.len() > 0 ==> r is Ok
                && recommendation_matches(
                r->Ok_0,
                *intent,
                findings,
                warnings@,
                confidence_bits,
                confidence_percent@,
                generated_at,
            ),
    {
        match self.validate_analysis(intent, &findings.scope, &findings.content_groups) {
            Err(e) => {
                return Err(e);
            },
            Ok(()) => {},
        }
        let ghost f = findings;
        let llm = match &findings.organization_strategy {
            Some(sg) => Some(sg.strategy),
            None => None,
        };
        let strategy = self.determine_strategy(intent, llm);
        let proposed_categories = self.propose_categories(
            &findings.classification,
            findings.classification_confidence_bits,
            &findings.candidate_categories,
            &findings.content_groups,
        );
        let mut proposed_operations = self.generate_operations(
            intent,
            &findings.classification,
            &findings.candidate_categories,
            &findings.content_groups,
        );
        let (constraint_checks, constraint_violation) = self.enforce_constraints(intent, &mut proposed_operations);
        let unresolved_questions = self.generate_questions(intent, &findings.evidence_gaps);
        let facts = RationaleFacts {
            scope: findings.scope.copy(),
            total_files: findings.total_files,
            total_directories: findings.total_directories,
            content_groups: findings.content_groups.len(),
            ambiguities: findings.ambiguities.len(),
            evidence_gaps: copy_gaps(&findings.evidence_gaps),
            strategy_reason: match &findings.organization_strategy {
                Some(sg) => clone_reason(&sg.reason),
                None => None,
            },
            confidence_percent,
        };
        proof {
            lemma_same_descriptions(facts.evidence_gaps@, findings.evidence_gaps@);
        }
        let rationale = self.build_rationale(intent, &strategy, proposed_categories.len(), &facts);
        let strategy_info = match &findings.organization_strategy {
            Some(sg) => Some(
                StrategyInfo {
                    strategy: map_llm_strategy(&sg.strategy),
                    confidence_bits: sg.confidence_bits,
                    reason: clone_reason(&sg.reason),
                },
            ),
            None => None,
        };
        let id = cat("rec-", u64_to_text(generated_at).as_str());
        let AnalysisFindings { organization_proposal, .. } = findings;
        Ok(
            Recommendation {
                id,
                strategy,
                strategy_info,
                rationale,
                proposed_categories,
                proposed_operations,
                unresolved_questions,
                confidence_bits,
                constraint_checks,
                constraint_violation,
                warnings,
                generated_at,
                organization_proposal,
            },
        )
    }
}


/// The warnings that follow from the shape of the analysis, in this order: a
/// partial scan gives too little evidence; more than five ambiguities make the
/// content ambiguous; categories proposed with no existing candidate.
pub open spec fn structural_warnings_spec(
    partial_scan: bool,
    ambiguities: nat,
    no_candidates: bool,
    has_categories: bool,
) -> Seq<RecommendationWarning> {
    let a = if partial_scan {
        seq![RecommendationWarning::LowEvidence]
    } else {
        seq![]
    };
    let b = if ambiguities > 5 {
        seq![RecommendationWarning::AmbiguousContent]
    } else {
        seq![]
    };
    let c = if no_candidates && has_categories {
        seq![RecommendationWarning::NoCandidateCategories]
    } else {
        seq![]
    };
    a + b + c
}

impl RecommendationEngine {
    /// The warnings a recommendation carries for the shape of its analysis
    /// (see `structural_warnings_spec`); those that compare confidences and
    /// proportions come after them.
    pub fn structural_warnings(
        findings: &AnalysisFindings,
        partial_scan: bool,
        proposed_categories: &Vec<ProposedCategory>,
    ) -> (w: Vec<RecommendationWarning>)
        ensures
            w@ == structural_warnings_spec(
                partial_scan,
                findings.ambiguities@.len(),
                findings.candidate_categories@.len() == 0,
                proposed_categories@.len() > 0,
            ),
    {
        let mut w: Vec<RecommendationWarning> = Vec::new();
        if partial_scan {
            w.push(RecommendationWarning::LowEvidence);
        }
        if findings.ambiguities.len() > 5 {
            w.push(RecommendationWarning::AmbiguousContent);
        }
        if findings.candidate_categories.len() == 0 && proposed_categories.len() > 0 {
            w.push(RecommendationWarning::NoCandidateCategories);
        }
        assert(w@ =~= structural_warnings_spec(
            partial_scan,
            findings.ambiguities@.len(),
            findings.candidate_categories@.len() == 0,
            proposed_categories@.len() > 0,
        ));
        w
    }
}


/// With no known classifier strategy, the goal decides: organizing by project
/// (`by_project`, `work/project`) is project based, by date chronological, by
/// size by size, and by category, by type or in general category based.
pub proof fn law_organize_purpose_decides_strategy(scope: PathView, purpose: Seq<char>, llm: Option<LlmOrganizationStrategy>)
    requires
        llm is None || llm == Some(LlmOrganizationStrategy::Unknown),
    ensures
        (purpose == "by_project"@ || purpose == "work/project"@) ==> strategy_spec(
            GoalView::Organize { scope, purpose },
            llm,
        ) == StrategyView::ProjectBased,
        purpose == "by_date"@ ==> strategy_spec(GoalView::Organize { scope, purpose }, llm) == StrategyView::Chronological,
        purpose == "by_size"@ ==> strategy_spec(GoalView::Organize { scope, purpose }, llm) == StrategyView::BySize,
        (purpose == "by_category"@ || purpose == "by_type"@ || purpose == "general_organization"@) ==> strategy_spec(
            GoalView::Organize { scope, purpose },
            llm,
        ) == StrategyView::CategoryBased,
{
    reveal_strlit("by_project");
    reveal_strlit("work/project");
    reveal_strlit("by_date");
    reveal_strlit("by_size");
    reveal_strlit("by_category");
    reveal_strlit("by_type");
    reveal_strlit("general_organization");
    assert("by_date"@[3] != "by_type"@[3]);
    assert("by_size"@[3] != "by_type"@[3]);
    assert("by_size"@[3] != "by_date"@[3]);
    assert("by_project"@.len() != "by_category"@.len() && "by_project"@.len() != "by_type"@.len() && "by_project"@.len()
        != "general_organization"@.len());
    assert("work/project"@.len() != "by_category"@.len() && "work/project"@.len() != "by_type"@.len()
        && "work/project"@.len() != "general_organization"@.len());
    assert("by_date"@.len() != "by_category"@.len() && "by_date"@.len() != "general_organization"@.len()
        && "by_date"@.len() != "by_project"@.len() && "by_date"@.len() != "work/project"@.len());
    assert("by_size"@.len() != "by_category"@.len() && "by_size"@.len() != "general_organization"@.len()
        && "by_size"@.len() != "by_project"@.len() && "by_size"@.len() != "work/project"@.len());
}


/// A classifier strategy other than unknown decides the recommendation's
/// strategy, whatever the goal: by author, by title, by year and preserving
/// keep their names; by type and category based are category based.
pub proof fn law_classifier_strategy_wins(g: GoalView, l: LlmOrganizationStrategy)
    requires
        l != LlmOrganizationStrategy::Unknown,
    ensures
        l == LlmOrganizationStrategy::ByAuthor ==> strategy_spec(g, Some(l)) == StrategyView::ByAuthor,
        l == LlmOrganizationStrategy::ByTitle ==> strategy_spec(g, Some(l)) == StrategyView::ByTitle,
        l == LlmOrganizationStrategy::ByYear ==> strategy_spec(g, Some(l)) == StrategyView::ByYear,
        l == LlmOrganizationStrategy::PreserveExisting ==> strategy_spec(g, Some(l)) == StrategyView::PreserveExisting,
        l == LlmOrganizationStrategy::ByType ==> strategy_spec(g, Some(l)) == StrategyView::CategoryBased,
        l == LlmOrganizationStrategy::CategoryBased ==> strategy_spec(g, Some(l)) == StrategyView::CategoryBased,
{
}

/// Without a known classifier strategy, a cleaning goal with no rules keeps
/// the existing layout and one with rules is category based; a reorganization
/// without a strategy is category based, and by project, by date or by size
/// follow its strategy.
pub proof fn law_other_goals_decide_strategy(g: GoalView, llm: Option<LlmOrganizationStrategy>)
    requires
        llm is None || llm == Some(LlmOrganizationStrategy::Unknown),
    ensures
        g matches GoalView::Clean { rules, .. } ==> strategy_spec(g, llm) == if rules.len() == 0 {
            StrategyView::PreserveExisting
        } else {
            StrategyView::CategoryBased
        },
        g matches GoalView::Reorganize { strategy, .. } ==> (strategy is None ==> strategy_spec(g, llm)
            == StrategyView::CategoryBased),
        g matches GoalView::Reorganize { strategy, .. } ==> (strategy == Some("by_project"@) ==> strategy_spec(g, llm)
            == StrategyView::ProjectBased),
        g matches GoalView::Reorganize { strategy, .. } ==> (strategy == Some("by_date"@) ==> strategy_spec(g, llm)
            == StrategyView::Chronological),
        g matches GoalView::Reorganize { strategy, .. } ==> (strategy == Some("by_size"@) ==> strategy_spec(g, llm)
            == StrategyView::BySize),
{
    reveal_strlit("by_project");
    reveal_strlit("by_date");
    reveal_strlit("by_size");
    reveal_strlit("by_category");
    reveal_strlit("by_type");
    assert("by_date"@[3] != "by_type"@[3]);
    assert("by_size"@[3] != "by_type"@[3]);
    assert("by_size"@[3] != "by_date"@[3]);
    assert("by_project"@.len() != "by_category"@.len() && "by_project"@.len() != "by_type"@.len());
    assert("by_date"@.len() != "by_category"@.len() && "by_date"@.len() != "by_project"@.len());
    assert("by_size"@.len() != "by_category"@.len() && "by_size"@.len() != "by_project"@.len());
}

} // verus!

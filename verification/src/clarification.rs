//! Clarification: the user's answers to open questions, checked against the
//! questions asked, and folded back into the intent.
use crate::analysis::{EvidenceGap, GapType};
use crate::intent::{ConstraintSet, Goal, GoalView, IntentView, TaskIntent};
use crate::recommendation::{copy_questions, questions_view, ClarificationQuestion, ConstraintViolation, QuestionView, Recommendation};
use crate::text::{cat, cat3, clone_strings, decimal, lowercase_of, owned, seq_contains, str_contains, str_eq, to_lowercase, usize_to_text};
use vstd::prelude::*;

verus! {

/// The kind of decision a user is asked to make.
#[derive(Clone, Copy, Debug, PartialEq, Eq, Hash)]
pub enum DecisionCategory {
    PreserveExistingFolders,
    AutoDeleteTemps,
    MergeDuplicates,
    ArchiveOld,
    TaxonomyChoice,
    FileDisposition,
    DuplicateHandling,
    AmbiguousFileResolution,
    CleanupScopeDefinition,
}

pub open spec fn display_name_spec(c: DecisionCategory) -> Seq<char> {
    match c {
        DecisionCategory::PreserveExistingFolders => "Preserve existing folders"@,
        DecisionCategory::AutoDeleteTemps => "Auto-delete temporary files"@,
        DecisionCategory::MergeDuplicates => "Merge duplicate files"@,
        DecisionCategory::ArchiveOld => "Archive old files"@,
        DecisionCategory::TaxonomyChoice => "Category structure"@,
        DecisionCategory::FileDisposition => "File disposition policy"@,
        DecisionCategory::DuplicateHandling => "Duplicate handling strategy"@,
        DecisionCategory::AmbiguousFileResolution => "Ambiguous file resolution"@,
        DecisionCategory::CleanupScopeDefinition => "Cleanup scope definition"@,
    }
}

/// The constraint a yes/no decision of this kind sets, if any.
pub open spec fn constraint_name_spec(c: DecisionCategory) -> Option<Seq<char>> {
    match c {
        DecisionCategory::PreserveExistingFolders => Some("preserve_existing_folders"@),
        DecisionCategory::AutoDeleteTemps => Some("auto_delete_temps"@),
        DecisionCategory::MergeDuplicates => Some("merge_duplicates"@),
        DecisionCategory::ArchiveOld => Some("archive_old"@),
        _ => None,
    }
}

impl DecisionCategory {
    /// The name shown to the user.
    pub fn display_name(&self) -> (r: &'static str)
        ensures
            r@ == display_name_spec(*self),
    {
        match self {
            DecisionCategory::PreserveExistingFolders => "Preserve existing folders",
            DecisionCategory::AutoDeleteTemps => "Auto-delete temporary files",
            DecisionCategory::MergeDuplicates => "Merge duplicate files",
            DecisionCategory::ArchiveOld => "Archive old files",
            DecisionCategory::TaxonomyChoice => "Category structure",
            DecisionCategory::FileDisposition => "File disposition policy",
            DecisionCategory::DuplicateHandling => "Duplicate handling strategy",
            DecisionCategory::AmbiguousFileResolution => "Ambiguous file resolution",
            DecisionCategory::CleanupScopeDefinition => "Cleanup scope definition",
        }
    }

    /// The constraint a yes/no decision of this kind sets, if any.
    pub fn maps_to_constraint(&self) -> (r: Option<&'static str>)
        ensures
            match r {
                Some(s) => constraint_name_spec(*self) == Some(s@),
                None => constraint_name_spec(*self) is None,
            },
    {
        match self {
            DecisionCategory::PreserveExistingFolders => Some("preserve_existing_folders"),
            DecisionCategory::AutoDeleteTemps => Some("auto_delete_temps"),
            DecisionCategory::MergeDuplicates => Some("merge_duplicates"),
            DecisionCategory::ArchiveOld => Some("archive_old"),
            _ => None,
        }
    }
}

/// The user's answer; a duration is given in seconds.
#[derive(Clone, Debug, PartialEq, Eq)]
pub enum DecisionAnswer {
    Yes,
    No,
    Choice(String),
    Duration(u64),
    Text(String),
}

impl DecisionAnswer {
    /// The answer as a yes/no, if it is one.
    pub fn as_bool(&self) -> (r: Option<bool>)
        ensures
            r == match *self {
                DecisionAnswer::Yes => Some(true),
                DecisionAnswer::No => Some(false),
                _ => None::<bool>,
            },
    {
        match self {
            DecisionAnswer::Yes => Some(true),
            DecisionAnswer::No => Some(false),
            _ => None,
        }
    }

    /// The chosen option, if the answer is a choice.
    pub fn as_choice(&self) -> (r: Option<&str>)
        ensures
            match *self {
                DecisionAnswer::Choice(c) => r is Some && r->0@ == c@,
                _ => r is None,
            },
    {
        match self {
            DecisionAnswer::Choice(s) => Some(s.as_str()),
            _ => None,
        }
    }

    fn copy(&self) -> (r: DecisionAnswer)
        ensures
            answer_view(r) == answer_view(*self),
    {
        match self {
            DecisionAnswer::Yes => DecisionAnswer::Yes,
            DecisionAnswer::No => DecisionAnswer::No,
            DecisionAnswer::Choice(s) => DecisionAnswer::Choice(s.clone()),
            DecisionAnswer::Duration(d) => DecisionAnswer::Duration(*d),
            DecisionAnswer::Text(s) => DecisionAnswer::Text(s.clone()),
        }
    }
}

pub enum AnswerView {
    Yes,
    No,
    Choice(Seq<char>),
    Duration(u64),
    Text(Seq<char>),
}

pub open spec fn answer_view(a: DecisionAnswer) -> AnswerView {
    match a {
        DecisionAnswer::Yes => AnswerView::Yes,
        DecisionAnswer::No => AnswerView::No,
        DecisionAnswer::Choice(s) => AnswerView::Choice(s@),
        DecisionAnswer::Duration(d) => AnswerView::Duration(d),
        DecisionAnswer::Text(s) => AnswerView::Text(s@),
    }
}

/// An answered question.
#[derive(Clone, Debug, PartialEq, Eq)]
pub struct UserDecision {
    pub category: DecisionCategory,
    pub answer: DecisionAnswer,
    pub question_id: String,
    pub rationale: Option<String>,
}

pub struct DecisionView {
    pub category: DecisionCategory,
    pub answer: AnswerView,
    pub question_id: Seq<char>,
    pub rationale: Option<Seq<char>>,
}

impl View for UserDecision {
    type V = DecisionView;

    open spec fn view(&self) -> DecisionView {
        DecisionView {
            category: self.category,
            answer: answer_view(self.answer),
            question_id: self.question_id@,
            rationale: match self.rationale {
                Some(s) => Some(s@),
                None => None,
            },
        }
    }
}

/// Why an answer was refused.
#[derive(Clone, Debug, PartialEq, Eq)]
pub enum ClarificationError {
    QuestionNotFound(String),
    InvalidAnswer(String),
    SessionCompleted,
}

pub enum ClarificationErrorView {
    QuestionNotFound(Seq<char>),
    InvalidAnswer(Seq<char>),
    SessionCompleted,
}

impl View for ClarificationError {
    type V = ClarificationErrorView;

    open spec fn view(&self) -> ClarificationErrorView {
        match self {
            ClarificationError::QuestionNotFound(s) => ClarificationErrorView::QuestionNotFound(s@),
            ClarificationError::InvalidAnswer(s) => ClarificationErrorView::InvalidAnswer(s@),
            ClarificationError::SessionCompleted => ClarificationErrorView::SessionCompleted,
        }
    }
}

pub open spec fn clarification_error_message(e: ClarificationErrorView) -> Seq<char> {
    match e {
        ClarificationErrorView::QuestionNotFound(id) => "Question not found: "@ + id,
        ClarificationErrorView::InvalidAnswer(m) => "Invalid answer: "@ + m,
        ClarificationErrorView::SessionCompleted => "Clarification session is already complete"@,
    }
}

impl ClarificationError {
    /// The message shown for this error.
    pub fn message(&self) -> (r: String)
        ensures
            r@ == clarification_error_message(self@),
    {
        match self {
            ClarificationError::QuestionNotFound(id) => cat("Question not found: ", id.as_str()),
            ClarificationError::InvalidAnswer(m) => cat("Invalid answer: ", m.as_str()),
            ClarificationError::SessionCompleted => owned("Clarification session is already complete"),
        }
    }
}

/// An intent after clarification, with what was decided and what is still open.
pub struct ClarifiedIntent {
    pub intent: TaskIntent,
    pub decisions: Vec<UserDecision>,
    pub remaining_questions: Vec<ClarificationQuestion>,
    pub blocked_operations_visible: Vec<String>,
    pub constraint_violation: Option<ConstraintViolation>,
}

/// The seconds in a year of 365 days: the archive age a plain "yes" sets.
pub const YEAR_SECS: u64 = 31536000;

/// The hint key a choice of this kind is recorded under, if any.
pub open spec fn hint_key_spec(c: DecisionCategory) -> Option<Seq<char>> {
    match c {
        DecisionCategory::FileDisposition => Some("file_disposition"@),
        DecisionCategory::DuplicateHandling => Some("duplicate_handling"@),
        DecisionCategory::AmbiguousFileResolution => Some("ambiguous_resolution"@),
        DecisionCategory::CleanupScopeDefinition => Some("cleanup_scope"@),
        _ => None,
    }
}

/// The intent after one decision: a yes/no sets its constraint (a yes to
/// archiving sets a year, a duration sets that age), a taxonomy choice sets the
/// purpose or strategy, and the remaining choices are recorded as hints. An
/// answer of the wrong shape changes nothing.
pub open spec fn apply_decision(i: IntentView, d: DecisionView) -> IntentView {
    let c = i.constraints;
    match d.category {
        DecisionCategory::PreserveExistingFolders => match d.answer {
            AnswerView::Yes => IntentView { constraints: ConstraintSet { preserve_existing_folders: true, ..c }, ..i },
            AnswerView::No => IntentView { constraints: ConstraintSet { preserve_existing_folders: false, ..c }, ..i },
            _ => i,
        },
        DecisionCategory::AutoDeleteTemps => match d.answer {
            AnswerView::Yes => IntentView { constraints: ConstraintSet { auto_delete_temps: true, ..c }, ..i },
            AnswerView::No => IntentView { constraints: ConstraintSet { auto_delete_temps: false, ..c }, ..i },
            _ => i,
        },
        DecisionCategory::MergeDuplicates => match d.answer {
            AnswerView::Yes => IntentView { constraints: ConstraintSet { merge_duplicates: true, ..c }, ..i },
            AnswerView::No => IntentView { constraints: ConstraintSet { merge_duplicates: false, ..c }, ..i },
            _ => i,
        },
        DecisionCategory::ArchiveOld => match d.answer {
            AnswerView::Yes => IntentView { constraints: ConstraintSet { archive_old: Some(YEAR_SECS), ..c }, ..i },
            AnswerView::No => IntentView { constraints: ConstraintSet { archive_old: None, ..c }, ..i },
            AnswerView::Duration(s) => IntentView { constraints: ConstraintSet { archive_old: Some(s), ..c }, ..i },
            _ => i,
        },
        DecisionCategory::TaxonomyChoice => match d.answer {
            AnswerView::Choice(ch) => match i.goal {
                GoalView::Organize { scope, .. } => IntentView {
                    goal: GoalView::Organize { scope, purpose: ch },
                    ..i
                },
                GoalView::Reorganize { scope, .. } => IntentView {
                    goal: GoalView::Reorganize { scope, strategy: Some(ch) },
                    ..i
                },
                _ => i,
            },
            _ => i,
        },
        _ => match d.answer {
            AnswerView::Choice(ch) => IntentView { hints: i.hints.push((hint_key_spec(d.category)->0, ch)), ..i },
            _ => i,
        },
    }
}

/// The intent after the decisions, applied in order.
pub open spec fn apply_all(i: IntentView, ds: Seq<DecisionView>) -> IntentView
    decreases ds.len(),
{
    if ds.len() == 0 {
        i
    } else {
        apply_decision(apply_all(i, ds.drop_last()), ds.last())
    }
}

pub open spec fn decisions_view(ds: Seq<UserDecision>) -> Seq<DecisionView> {
    ds.map_values(|d: UserDecision| d@)
}

/// What a question is about, read from its lower-cased text and context.
pub open spec fn infer_category_spec(question: Seq<char>, context: Seq<char>) -> DecisionCategory {
    let t = lowercase_of(question) + " "@ + lowercase_of(context);
    if seq_contains(t, "archive"@) || seq_contains(t, "archive_old"@) || seq_contains(t, "archive policy"@) {
        DecisionCategory::ArchiveOld
    } else if seq_contains(t, "preserve"@) || seq_contains(t, "folder"@) {
        DecisionCategory::PreserveExistingFolders
    } else if seq_contains(t, "duplicate"@) || seq_contains(t, "merge"@) {
        DecisionCategory::DuplicateHandling
    } else if seq_contains(t, "category"@) || seq_contains(t, "structure"@) || seq_contains(t, "taxonomy"@) {
        DecisionCategory::TaxonomyChoice
    } else if seq_contains(t, "disposition"@) || seq_contains(t, "unclassified"@) {
        DecisionCategory::FileDisposition
    } else if seq_contains(t, "temp"@) {
        DecisionCategory::AutoDeleteTemps
    } else if seq_contains(t, "ambiguous"@) {
        DecisionCategory::AmbiguousFileResolution
    } else if seq_contains(t, "cleanup scope"@) || seq_contains(t, "scope definition"@) {
        DecisionCategory::CleanupScopeDefinition
    } else {
        DecisionCategory::FileDisposition
    }
}

/// The position of the first question with the given id.
pub open spec fn question_index(qs: Seq<QuestionView>, id: Seq<char>) -> Option<int>
    decreases qs.len(),
{
    if qs.len() == 0 {
        None
    } else if qs[0].id == id {
        Some(0)
    } else {
        match question_index(qs.subrange(1, qs.len() as int), id) {
            Some(k) => Some(k + 1),
            None => None,
        }
    }
}

/// The outcome of answering question `id` with `a`: the question must exist; a
/// yes/no must be for a question that sets a constraint, a choice must be one
/// of the options offered, a duration must be for an archive question, and
/// free text is always taken.
pub open spec fn resolve_spec(qs: Seq<QuestionView>, id: Seq<char>, a: AnswerView) -> Result<
    DecisionView,
    ClarificationErrorView,
> {
    match question_index(qs, id) {
        None => Err(ClarificationErrorView::QuestionNotFound(id)),
        Some(k) => {
            let q = qs[k];
            let category = infer_category_spec(q.question, q.context);
            let ok = DecisionView { category, answer: a, question_id: id, rationale: None };
            match a {
                AnswerView::Yes | AnswerView::No => if constraint_name_spec(category) is Some {
                    Ok(ok)
                } else {
                    Err(
                        ClarificationErrorView::InvalidAnswer(
                            "Question '"@ + id + "' expects a choice, not yes/no"@,
                        ),
                    )
                },
                AnswerView::Choice(c) => if q.options.contains(c) {
                    Ok(ok)
                } else {
                    Err(
                        ClarificationErrorView::InvalidAnswer(
                            "Choice '"@ + c + "' is not a valid option for question '"@ + id + "'"@,
                        ),
                    )
                },
                AnswerView::Duration(_) => if category == DecisionCategory::ArchiveOld {
                    Ok(ok)
                } else {
                    Err(
                        ClarificationErrorView::InvalidAnswer(
                            "Duration answer not applicable to question '"@ + id + "'"@,
                        ),
                    )
                },
                AnswerView::Text(_) => Ok(ok),
            }
        },
    }
}

pub open spec fn resolve_view(r: Result<UserDecision, ClarificationError>) -> Result<DecisionView, ClarificationErrorView> {
    match r {
        Ok(d) => Ok(d@),
        Err(e) => Err(e@),
    }
}

/// Checks answers against the questions asked and folds them into the intent.
pub struct ClarificationEngine;

impl Default for ClarificationEngine {
    fn default() -> (r: ClarificationEngine) {
        ClarificationEngine
    }
}

fn find_question(qs: &Vec<ClarificationQuestion>, id: &str) -> (r: Option<usize>)
    ensures
        match r {
            Some(k) => question_index(questions_view(qs@), id@) == Some(k as int) && k < qs@.len(),
            None => question_index(questions_view(qs@), id@) is None,
        },
{
    let ghost qv = questions_view(qs@);
    let mut i: usize = 0;
    assert(qv.subrange(0, qv.len() as int) =~= qv);
    while i < qs.len()
        invariant
            i <= qs@.len(),
            qv == questions_view(qs@),
            question_index(qv, id@) == match question_index(qv.subrange(i as int, qv.len() as int), id@) {
                Some(k) => Some(k + i),
                None => None,
            },
        decreases qs@.len() - i,
    {
        let ghost rest = qv.subrange(i as int, qv.len() as int);
        if str_eq(qs[i].id.as_str(), id) {
            assert(rest[0] == qv[i as int]);
            return Some(i);
        }
        assert(rest.subrange(1, rest.len() as int) =~= qv.subrange(i + 1, qv.len() as int));
        i = i + 1;
    }
    None
}

impl ClarificationEngine {
    /// The intent with the decisions applied in order.
    pub fn apply_decisions(&self, intent: &TaskIntent, decisions: &Vec<UserDecision>) -> (r: TaskIntent)
        ensures
            r@ == apply_all(intent@, decisions_view(decisions@)),
    {
        let mut updated = intent.copy();
        let ghost dv = decisions_view(decisions@);
        let mut i: usize = 0;
        while i < decisions.len()
            invariant
                i <= decisions@.len(),
                dv == decisions_view(decisions@),
                updated@ == apply_all(intent@, dv.take(i as int)),
            decreases decisions@.len() - i,
        {
            let d = &decisions[i];
            assert(dv.take(i + 1).drop_last() =~= dv.take(i as int));
            assert(dv.take(i + 1).last() == d@);
            let ghost before = updated@;
            match d.category {
                DecisionCategory::PreserveExistingFolders => {
                    match d.answer.as_bool() {
                        Some(b) => {
                            updated.constraints.preserve_existing_folders = b;
                        },
                        None => {},
                    }
                },
                DecisionCategory::AutoDeleteTemps => {
                    match d.answer.as_bool() {
                        Some(b) => {
                            updated.constraints.auto_delete_temps = b;
                        },
                        None => {},
                    }
                },
                DecisionCategory::MergeDuplicates => {
                    match d.answer.as_bool() {
                        Some(b) => {
                            updated.constraints.merge_duplicates = b;
                        },
                        None => {},
                    }
                },
                DecisionCategory::ArchiveOld => {
                    match d.answer.as_bool() {
                        Some(b) => {
                            if b {
                                updated.constraints.archive_old = Some(YEAR_SECS);
                            } else {
                                updated.constraints.archive_old = None;
                            }
                        },
                        None => {},
                    }
                    match &d.answer {
                        DecisionAnswer::Duration(secs) => {
                            updated.constraints.archive_old = Some(*secs);
                        },
                        _ => {},
                    }
                },
                DecisionCategory::TaxonomyChoice => {
                    match d.answer.as_choice() {
                        Some(choice) => {
                            let g = match &updated.goal {
                                Goal::Organize { scope, .. } => Goal::Organize {
                                    scope: scope.copy(),
                                    purpose: owned(choice),
                                },
                                Goal::Reorganize { scope, .. } => Goal::Reorganize {
                                    scope: scope.copy(),
                                    strategy: Some(owned(choice)),
                                },
                                Goal::Clean { .. } => updated.goal.copy(),
                            };
                            updated.goal = g;
                        },
                        None => {},
                    }
                },
                _ => {
                    match d.answer.as_choice() {
                        Some(choice) => {
                            let key = match d.category {
                                DecisionCategory::FileDisposition => owned("file_disposition"),
                                DecisionCategory::DuplicateHandling => owned("duplicate_handling"),
                                DecisionCategory::AmbiguousFileResolution => owned("ambiguous_resolution"),
                                _ => owned("cleanup_scope"),
                            };
                            updated.user_hints.insert(key, owned(choice));
                        },
                        None => {},
                    }
                },
            }
            assert(updated@ == apply_decision(before, d@));
            i = i + 1;
        }
        assert(dv.take(decisions@.len() as int) =~= dv);
        updated
    }

    /// What a question is about, read from its text and context.
    pub fn infer_category(question: &ClarificationQuestion) -> (r: DecisionCategory)
        ensures
            r == infer_category_spec(question.question@, question.context@),
    {
        let q = to_lowercase(question.question.as_str());
        let c = to_lowercase(question.context.as_str());
        let t = cat3(q.as_str(), " ", c.as_str());
        let t = t.as_str();
        if str_contains(t, "archive") || str_contains(t, "archive_old") || str_contains(t, "archive policy") {
            DecisionCategory::ArchiveOld
        } else if str_contains(t, "preserve") || str_contains(t, "folder") {
            DecisionCategory::PreserveExistingFolders
        } else if str_contains(t, "duplicate") || str_contains(t, "merge") {
            DecisionCategory::DuplicateHandling
        } else if str_contains(t, "category") || str_contains(t, "structure") || str_contains(t, "taxonomy") {
            DecisionCategory::TaxonomyChoice
        } else if str_contains(t, "disposition") || str_contains(t, "unclassified") {
            DecisionCategory::FileDisposition
        } else if str_contains(t, "temp") {
            DecisionCategory::AutoDeleteTemps
        } else if str_contains(t, "ambiguous") {
            DecisionCategory::AmbiguousFileResolution
        } else if str_contains(t, "cleanup scope") || str_contains(t, "scope definition") {
            DecisionCategory::CleanupScopeDefinition
        } else {
            DecisionCategory::FileDisposition
        }
    }

    /// Checks an answer to question `question_id` and turns it into a decision.
    pub fn resolve_question(
        &self,
        questions: &Vec<ClarificationQuestion>,
        question_id: &str,
        answer: DecisionAnswer,
    ) -> (r: Result<UserDecision, ClarificationError>)
        ensures
            resolve_view(r) == resolve_spec(questions_view(questions@), question_id@, answer_view(answer)),
    {
        let k = match find_question(questions, question_id) {
            Some(k) => k,
            None => {
                return Err(ClarificationError::QuestionNotFound(owned(question_id)));
            },
        };
        let q = &questions[k];
        let ghost qv = questions_view(questions@);
        assert(qv[k as int] == q@);
        let category = Self::infer_category(q);
        match &answer {
            DecisionAnswer::Yes | DecisionAnswer::No => match category.maps_to_constraint() {
                Some(_) => {},
                None => {
                    let m = cat3("Question '", question_id, "' expects a choice, not yes/no");
                    return Err(ClarificationError::InvalidAnswer(m));
                },
            },
            DecisionAnswer::Choice(choice) => {
                if !crate::text::list_contains(&q.options, choice.as_str()) {
                    let a = cat3("Choice '", choice.as_str(), "' is not a valid option for question '");
                    let m = cat3(a.as_str(), question_id, "'");
                    proof {
                        assert(!q@.options.contains(choice@)) by {
                            if q@.options.contains(choice@) {
                                let j = choose|j: int| 0 <= j < q@.options.len() && q@.options[j] == choice@;
                                assert(q.options@[j]@ == choice@);
                            }
                        }
                    }
                    return Err(ClarificationError::InvalidAnswer(m));
                }
            },
            DecisionAnswer::Duration(_) => match category {
                DecisionCategory::ArchiveOld => {},
                _ => {
                    let m = cat3("Duration answer not applicable to question '", question_id, "'");
                    return Err(ClarificationError::InvalidAnswer(m));
                },
            },
            DecisionAnswer::Text(_) => {},
        }
        proof {
            if let AnswerView::Choice(c) = answer_view(answer) {
                let j = choose|j: int| 0 <= j < q.options@.len() && #[trigger] q.options@[j]@ == c;
                assert(q@.options[j] == c);
            }
        }
        Ok(UserDecision { category, answer, question_id: owned(question_id), rationale: None })
    }
}

/// The question asked for an evidence gap of the given kind, when gaps are
/// turned straight into questions.
pub open spec fn gap_question_text(t: GapType) -> Seq<char> {
    match t {
        GapType::Taxonomy => "What category structure do you prefer?"@,
        GapType::FileDisposition => "How should unclassified files be handled?"@,
        GapType::DuplicateHandling => "How should duplicate files be handled?"@,
        GapType::ArchivePolicy => "What archive policy for old files?"@,
        GapType::ScopeBoundary => "Should the scope include subdirectories?"@,
    }
}

/// The answers offered for an evidence gap of the given kind, when gaps are
/// turned straight into questions.
pub open spec fn gap_question_options(t: GapType) -> Seq<Seq<char>> {
    match t {
        GapType::Taxonomy => seq!["By file type"@, "By project"@, "By date"@, "By size"@],
        GapType::FileDisposition => seq!["Leave in place"@, "Move to 'misc' folder"@, "Archive"@],
        GapType::DuplicateHandling => seq![
            "Keep newer"@,
            "Keep larger"@,
            "Merge if identical"@,
            "Review manually"@,
        ],
        GapType::ArchivePolicy => seq!["Archive after 90 days"@, "Archive after 1 year"@, "Do not archive"@],
        GapType::ScopeBoundary => seq!["Yes, include all"@, "No, top-level only"@],
    }
}

/// How many of the gaps need the user's input.
pub open spec fn needed_count(gaps: Seq<EvidenceGap>) -> nat
    decreases gaps.len(),
{
    if gaps.len() == 0 {
        0
    } else {
        needed_count(gaps.drop_last()) + if gaps.last().requires_user_input {
            1nat
        } else {
            0nat
        }
    }
}

/// One question per gap that needs the user's input, numbered `gap-1`, `gap-2`, ...
pub open spec fn gap_questions_spec(gaps: Seq<EvidenceGap>) -> Seq<QuestionView>
    decreases gaps.len(),
{
    if gaps.len() == 0 {
        seq![]
    } else {
        let prev = gap_questions_spec(gaps.drop_last());
        let g = gaps.last();
        if g.requires_user_input {
            prev.push(
                QuestionView {
                    id: "gap-"@ + decimal(needed_count(gaps)),
                    question: gap_question_text(g.gap_type),
                    context: g.description@,
                    options: gap_question_options(g.gap_type),
                },
            )
        } else {
            prev
        }
    }
}

fn question_for_gap(g: &EvidenceGap, idx: usize) -> (q: ClarificationQuestion)
    ensures
        q@ == (QuestionView {
            id: "gap-"@ + decimal(idx as nat),
            question: gap_question_text(g.gap_type),
            context: g.description@,
            options: gap_question_options(g.gap_type),
        }),
{
    let (question, options) = match g.gap_type {
        GapType::Taxonomy => (
            owned("What category structure do you prefer?"),
            vec![owned("By file type"), owned("By project"), owned("By date"), owned("By size")],
        ),
        GapType::FileDisposition => (
            owned("How should unclassified files be handled?"),
            vec![owned("Leave in place"), owned("Move to 'misc' folder"), owned("Archive")],
        ),
        GapType::DuplicateHandling => (
            owned("How should duplicate files be handled?"),
            vec![owned("Keep newer"), owned("Keep larger"), owned("Merge if identical"), owned("Review manually")],
        ),
        GapType::ArchivePolicy => (
            owned("What archive policy for old files?"),
            vec![owned("Archive after 90 days"), owned("Archive after 1 year"), owned("Do not archive")],
        ),
        GapType::ScopeBoundary => (
            owned("Should the scope include subdirectories?"),
            vec![owned("Yes, include all"), owned("No, top-level only")],
        ),
    };
    let q = ClarificationQuestion {
        id: cat("gap-", usize_to_text(idx).as_str()),
        question,
        context: g.description.clone(),
        options,
    };
    assert(q@.options =~= gap_question_options(g.gap_type));
    q
}

/// A question for each evidence gap that needs the user's input.
pub fn apply_evidence_gaps_to_questions(gaps: &Vec<EvidenceGap>) -> (r: Vec<ClarificationQuestion>)
    ensures
        questions_view(r@) == gap_questions_spec(gaps@),
{
    let mut questions: Vec<ClarificationQuestion> = Vec::new();
    let mut idx: usize = 0;
    let mut i: usize = 0;
    while i < gaps.len()
        invariant
            i <= gaps@.len(),
            idx == needed_count(gaps@.take(i as int)),
            idx <= i,
            questions_view(questions@) == gap_questions_spec(gaps@.take(i as int)),
        decreases gaps@.len() - i,
    {
        let g = &gaps[i];
        assert(gaps@.take(i + 1).drop_last() =~= gaps@.take(i as int));
        assert(gaps@.take(i + 1).last() == *g);
        if g.requires_user_input {
            idx = idx + 1;
            let q = question_for_gap(g, idx);
            let ghost prev = questions_view(questions@);
            questions.push(q);
            assert(questions_view(questions@) =~= prev.push(q@));
        }
        i = i + 1;
    }
    assert(gaps@.take(gaps@.len() as int) =~= gaps@);
    questions
}


/// Clarification never moves the task: whatever decisions are applied, the
/// goal keeps its scope and the open factors stay as they were.
pub proof fn law_decisions_keep_scope(i: IntentView, ds: Seq<DecisionView>)
    ensures
        crate::intent::goal_scope(apply_all(i, ds).goal) == crate::intent::goal_scope(i.goal),
        apply_all(i, ds).unknowns == i.unknowns,
    decreases ds.len(),
{
    if ds.len() > 0 {
        law_decisions_keep_scope(i, ds.drop_last());
    }
}


impl ClarificationEngine {
    /// The questions a recommendation leaves open.
    pub fn start(&self, recommendation: &Recommendation) -> (r: Vec<ClarificationQuestion>)
        ensures
            questions_view(r@) == questions_view(recommendation.unresolved_questions@),
    {
        copy_questions(&recommendation.unresolved_questions)
    }

    /// Whether a recommendation leaves no question open.
    pub fn is_complete(&self, recommendation: &Recommendation) -> (b: bool)
        ensures
            b == (recommendation.unresolved_questions@.len() == 0),
    {
        recommendation.unresolved_questions.len() == 0
    }

    /// A fresh recommendation once decisions have updated the intent, as
    /// `RecommendationEngine::recommend` makes it.
    pub fn recompute_recommendation(
        &self,
        intent: &TaskIntent,
        findings: crate::recommendation::AnalysisFindings,
        warnings: Vec<crate::recommendation::RecommendationWarning>,
        confidence_bits: u64,
        confidence_percent: String,
        generated_at: u64,
    ) -> (r: Result<Recommendation, crate::recommendation::RecommendationError>)
        requires
            findings.evidence_gaps@.len() + intent.unknown_factors@.len() < usize::MAX,
        ensures
            findings.scope@ != crate::intent::goal_scope(intent.goal@) ==> r == Err::<
                Recommendation,
                crate::recommendation::RecommendationError,
            >(crate::recommendation::RecommendationError::ScopeMismatch),
            findings.scope@ == crate::intent::goal_scope(intent.goal@) && findings.content_groups@.len() == 0 ==> r
                == Err::<Recommendation, crate::recommendation::RecommendationError>(
                crate::recommendation::RecommendationError::NoContentGroups,
            ),
            findings.scope@ == crate::intent::goal_scope(intent.goal@) && findings.content_groups@.len() > 0 ==> r is Ok
                && crate::recommendation::recommendation_matches(
                r->Ok_0,
                *intent,
                findings,
                warnings@,
                confidence_bits,
                confidence_percent@,
                generated_at,
            ),
    {
        let engine = crate::recommendation::RecommendationEngine;
        engine.recommend(intent, findings, warnings, confidence_bits, confidence_percent, generated_at)
    }

    /// The operations a recommendation's constraint violation blocks, if any.
    pub fn blocked_operations(&self, recommendation: &Recommendation) -> (r: Vec<String>)
        ensures
            match recommendation.constraint_violation {
                Some(v) => r@ == v.blocked_operations@,
                None => r@.len() == 0,
            },
    {
        match &recommendation.constraint_violation {
            Some(v) => clone_strings(&v.blocked_operations),
            None => Vec::new(),
        }
    }
}


proof fn lemma_other_decisions_keep_archive_age(i: IntentView, d: DecisionView)
    requires
        d.category != DecisionCategory::ArchiveOld,
    ensures
        apply_decision(i, d).constraints.archive_old == i.constraints.archive_old,
{
}

/// The last answer about archiving old files decides the archive age: yes
/// archives files older than a year (31536000 seconds), no turns archiving
/// off, a duration archives files older than it; later decisions about other
/// things leave it alone.
pub proof fn law_archive_answer_sets_archive_age(i: IntentView, ds: Seq<DecisionView>, k: int)
    requires
        0 <= k < ds.len(),
        ds[k].category == DecisionCategory::ArchiveOld,
        forall|j: int| k < j < ds.len() ==> (#[trigger] ds[j]).category != DecisionCategory::ArchiveOld,
    ensures
        ds[k].answer == AnswerView::Yes ==> apply_all(i, ds).constraints.archive_old == Some(31536000u64),
        ds[k].answer == AnswerView::No ==> apply_all(i, ds).constraints.archive_old is None,
        forall|s: u64| ds[k].answer == AnswerView::Duration(s) ==> apply_all(i, ds).constraints.archive_old == Some(s),
    decreases ds.len(),
{
    if k < ds.len() - 1 {
        assert(ds.drop_last()[k] == ds[k]);
        assert forall|j: int| k < j < ds.drop_last().len() implies (#[trigger] ds.drop_last()[j]).category
            != DecisionCategory::ArchiveOld by {
            assert(ds.drop_last()[j] == ds[j]);
        }
        law_archive_answer_sets_archive_age(i, ds.drop_last(), k);
        assert(ds.last().category != DecisionCategory::ArchiveOld);
        lemma_other_decisions_keep_archive_age(apply_all(i, ds.drop_last()), ds.last());
    } else {
        assert(ds.last() == ds[k]);
    }
}


proof fn lemma_decision_touches_its_own_setting(i: IntentView, d: DecisionView)
    ensures
        d.category != DecisionCategory::PreserveExistingFolders ==> apply_decision(i, d).constraints.preserve_existing_folders
            == i.constraints.preserve_existing_folders,
        d.category != DecisionCategory::AutoDeleteTemps ==> apply_decision(i, d).constraints.auto_delete_temps
            == i.constraints.auto_delete_temps,
        d.category != DecisionCategory::MergeDuplicates ==> apply_decision(i, d).constraints.merge_duplicates
            == i.constraints.merge_duplicates,
        d.category != DecisionCategory::TaxonomyChoice ==> apply_decision(i, d).goal == i.goal,
        (i.goal is Organize) ==> (apply_decision(i, d).goal is Organize),
{
}

/// The last yes or no about keeping existing folders, deleting temporary
/// files or merging duplicates decides that setting: yes turns it on, no
/// turns it off, and later decisions about other things leave it alone.
pub proof fn law_yes_no_answers_set_constraints(i: IntentView, ds: Seq<DecisionView>, k: int)
    requires
        0 <= k < ds.len(),
        forall|j: int| k < j < ds.len() ==> (#[trigger] ds[j]).category != ds[k].category,
    ensures
        ds[k].category == DecisionCategory::PreserveExistingFolders && ds[k].answer == AnswerView::Yes ==> apply_all(
            i,
            ds,
        ).constraints.preserve_existing_folders,
        ds[k].category == DecisionCategory::PreserveExistingFolders && ds[k].answer == AnswerView::No ==> !apply_all(
            i,
            ds,
        ).constraints.preserve_existing_folders,
        ds[k].category == DecisionCategory::AutoDeleteTemps && ds[k].answer == AnswerView::Yes ==> apply_all(
            i,
            ds,
        ).constraints.auto_delete_temps,
        ds[k].category == DecisionCategory::AutoDeleteTemps && ds[k].answer == AnswerView::No ==> !apply_all(
            i,
            ds,
        ).constraints.auto_delete_temps,
        ds[k].category == DecisionCategory::MergeDuplicates && ds[k].answer == AnswerView::Yes ==> apply_all(
            i,
            ds,
        ).constraints.merge_duplicates,
        ds[k].category == DecisionCategory::MergeDuplicates && ds[k].answer == AnswerView::No ==> !apply_all(
            i,
            ds,
        ).constraints.merge_duplicates,
    decreases ds.len(),
{
    if k < ds.len() - 1 {
        assert(ds.drop_last()[k] == ds[k]);
        assert forall|j: int| k < j < ds.drop_last().len() implies (#[trigger] ds.drop_last()[j]).category
            != ds.drop_last()[k].category by {
            assert(ds.drop_last()[j] == ds[j]);
        }
        law_yes_no_answers_set_constraints(i, ds.drop_last(), k);
        assert(ds.last().category != ds[k].category);
        lemma_decision_touches_its_own_setting(apply_all(i, ds.drop_last()), ds.last());
    } else {
        assert(ds.last() == ds[k]);
    }
}

proof fn lemma_organize_stays_organize(i: IntentView, ds: Seq<DecisionView>)
    requires
        i.goal is Organize,
    ensures
        apply_all(i, ds).goal is Organize,
    decreases ds.len(),
{
    if ds.len() > 0 {
        lemma_organize_stays_organize(i, ds.drop_last());
        lemma_decision_touches_its_own_setting(apply_all(i, ds.drop_last()), ds.last());
    }
}

/// The last taxonomy chosen for an organizing intent becomes its purpose.
pub proof fn law_taxonomy_choice_sets_purpose(i: IntentView, ds: Seq<DecisionView>, k: int, ch: Seq<char>)
    requires
        i.goal is Organize,
        0 <= k < ds.len(),
        ds[k].category == DecisionCategory::TaxonomyChoice,
        ds[k].answer == AnswerView::Choice(ch),
        forall|j: int| k < j < ds.len() ==> (#[trigger] ds[j]).category != DecisionCategory::TaxonomyChoice,
    ensures
        apply_all(i, ds).goal matches GoalView::Organize { purpose, .. } && purpose == ch,
    decreases ds.len(),
{
    if k < ds.len() - 1 {
        assert(ds.drop_last()[k] == ds[k]);
        assert forall|j: int| k < j < ds.drop_last().len() implies (#[trigger] ds.drop_last()[j]).category
            != DecisionCategory::TaxonomyChoice by {
            assert(ds.drop_last()[j] == ds[j]);
        }
        law_taxonomy_choice_sets_purpose(i, ds.drop_last(), k, ch);
        assert(ds.last().category != DecisionCategory::TaxonomyChoice);
        lemma_decision_touches_its_own_setting(apply_all(i, ds.drop_last()), ds.last());
    } else {
        assert(ds.last() == ds[k]);
        lemma_organize_stays_organize(i, ds.drop_last());
    }
}

} // verus!

//! The execution policy: which validated plans may run on their own, which
//! need explicit approval, and which are refused; and approvals bound to a plan.
use crate::plan::{EstimatedImpact, OperationPlan};
use crate::validate::ValidationResult;
use vstd::prelude::*;

verus! {

/// The policy's answer for a plan.
#[derive(Clone, Copy, Debug, PartialEq, Eq)]
pub enum PolicyDecision {
    Approved,
    RequiresApproval,
    Rejected,
}

impl PolicyDecision {
    pub fn is_approved(&self) -> (b: bool)
        ensures
            b == (*self is Approved),
    {
        match self {
            PolicyDecision::Approved => true,
            _ => false,
        }
    }

    pub fn is_requires_approval(&self) -> (b: bool)
        ensures
            b == (*self is RequiresApproval),
    {
        match self {
            PolicyDecision::RequiresApproval => true,
            _ => false,
        }
    }

    pub fn is_rejected(&self) -> (b: bool)
        ensures
            b == (*self is Rejected),
    {
        match self {
            PolicyDecision::Rejected => true,
            _ => false,
        }
    }
}

/// Whether eligible plans run without approval, and optional limits on how
/// many files a plan may move and directories it may create.
#[derive(Clone, Copy, Debug, PartialEq, Eq)]
pub struct Policy {
    pub auto_approve: bool,
    pub max_files_moved: Option<u64>,
    pub max_directories_created: Option<u64>,
}

/// A plan fails a hard condition: it is a dry run, validation found invalid
/// or conflicting operations, or it exceeds a limit.
pub open spec fn hard_rejection(p: Policy, dry_run: bool, has_invalid: bool, has_conflicts: bool, impact: EstimatedImpact) -> bool {
    ||| dry_run
    ||| has_invalid
    ||| has_conflicts
    ||| (p.max_files_moved matches Some(m) && impact.files_moved > m)
    ||| (p.max_directories_created matches Some(m) && impact.dirs_created > m)
}

/// The decision: refused on a hard condition, else approved when
/// auto-approval is on, else approval is required.
pub open spec fn decision_spec(p: Policy, dry_run: bool, has_invalid: bool, has_conflicts: bool, impact: EstimatedImpact) -> PolicyDecision {
    if hard_rejection(p, dry_run, has_invalid, has_conflicts, impact) {
        PolicyDecision::Rejected
    } else if !p.auto_approve {
        PolicyDecision::RequiresApproval
    } else {
        PolicyDecision::Approved
    }
}

/// The decision for a plan and its validation.
pub open spec fn evaluate_spec(p: Policy, plan: OperationPlan, v: ValidationResult) -> PolicyDecision {
    decision_spec(p, plan.dry_run, v.has_invalid, v.has_conflicts, plan.estimated_impact)
}

impl Default for Policy {
    fn default() -> (r: Policy)
        ensures
            r.auto_approve,
            r.max_files_moved is None,
            r.max_directories_created is None,
    {
        Policy { auto_approve: true, max_files_moved: None, max_directories_created: None }
    }
}

impl Policy {
    /// Auto-approval on, no limits.
    pub fn new() -> (r: Policy)
        ensures
            r.auto_approve,
            r.max_files_moved is None,
            r.max_directories_created is None,
    {
        Policy::default()
    }

    /// The same policy with auto-approval set.
    pub fn auto_approve(self, enabled: bool) -> (r: Policy)
        ensures
            r == (Policy { auto_approve: enabled, ..self }),
    {
        Policy { auto_approve: enabled, ..self }
    }

    /// The same policy with a limit on moved files.
    pub fn max_files_moved(self, limit: u64) -> (r: Policy)
        ensures
            r == (Policy { max_files_moved: Some(limit), ..self }),
    {
        Policy { max_files_moved: Some(limit), ..self }
    }

    /// The same policy with a limit on created directories.
    pub fn max_directories_created(self, limit: u64) -> (r: Policy)
        ensures
            r == (Policy { max_directories_created: Some(limit), ..self }),
    {
        Policy { max_directories_created: Some(limit), ..self }
    }

    /// Decides whether a validated plan may run. Hard conditions are checked
    /// first and cannot be overridden: a dry run, invalid or conflicting
    /// operations, or a limit exceeded refuse the plan.
    pub fn evaluate(&self, plan: &OperationPlan, validation: &ValidationResult) -> (r: PolicyDecision)
        ensures
            r == evaluate_spec(*self, *plan, *validation),
    {
        if plan.dry_run {
            return PolicyDecision::Rejected;
        }
        if validation.has_invalid {
            return PolicyDecision::Rejected;
        }
        if validation.has_conflicts {
            return PolicyDecision::Rejected;
        }
        match self.max_files_moved {
            Some(max) => {
                if plan.estimated_impact.files_moved > max {
                    return PolicyDecision::Rejected;
                }
            },
            None => {},
        }
        match self.max_directories_created {
            Some(max) => {
                if plan.estimated_impact.dirs_created > max {
                    return PolicyDecision::Rejected;
                }
            },
            None => {},
        }
        if !self.auto_approve {
            return PolicyDecision::RequiresApproval;
        }
        PolicyDecision::Approved
    }
}

/// An approval bound to one plan by its identifier.
#[derive(Clone, Debug, PartialEq, Eq)]
pub struct Approval {
    pub plan_id: String,
}

impl Approval {
    /// An approval for the given plan.
    pub fn for_plan(plan: &OperationPlan) -> (r: Approval)
        ensures
            r.plan_id@ == plan.id@,
    {
        Approval { plan_id: plan.id.clone() }
    }

    /// Whether this approval was made for the given plan.
    pub fn verify(&self, plan: &OperationPlan) -> (b: bool)
        ensures
            b == (self.plan_id@ == plan.id@),
    {
        crate::text::str_eq(self.plan_id.as_str(), plan.id.as_str())
    }
}

/// A plan that fails a hard condition is refused whatever the auto-approval
/// setting: switching auto-approval cannot admit it.
pub proof fn law_hard_conditions_not_overridable(p: Policy, plan: OperationPlan, v: ValidationResult, enabled: bool)
    requires
        hard_rejection(p, plan.dry_run, v.has_invalid, v.has_conflicts, plan.estimated_impact),
    ensures
        evaluate_spec(p, plan, v) is Rejected,
        evaluate_spec(Policy { auto_approve: enabled, ..p }, plan, v) is Rejected,
{
}

/// A dry-run plan, or one whose validation found invalid or conflicting
/// operations, is always refused.
pub proof fn law_dry_run_invalid_conflict_rejected(p: Policy, plan: OperationPlan, v: ValidationResult)
    requires
        plan.dry_run || v.has_invalid || v.has_conflicts,
    ensures
        evaluate_spec(p, plan, v) is Rejected,
{
}

/// A plan that passes the hard conditions is approved exactly when
/// auto-approval is on, and otherwise needs explicit approval.
pub proof fn law_eligible_plans(p: Policy, plan: OperationPlan, v: ValidationResult)
    requires
        !hard_rejection(p, plan.dry_run, v.has_invalid, v.has_conflicts, plan.estimated_impact),
    ensures
        evaluate_spec(p, plan, v) is Approved <==> p.auto_approve,
        evaluate_spec(p, plan, v) is RequiresApproval <==> !p.auto_approve,
{
}

/// Lowering a limit never turns a refused plan into an accepted one.
pub proof fn law_tighter_limits_keep_rejection(p: Policy, plan: OperationPlan, v: ValidationResult, files: u64, dirs: u64)
    requires
        evaluate_spec(p, plan, v) is Rejected,
        p.max_files_moved matches Some(m) ==> files <= m,
        p.max_directories_created matches Some(m) ==> dirs <= m,
    ensures
        evaluate_spec(
            Policy { max_files_moved: Some(files), max_directories_created: Some(dirs), ..p },
            plan,
            v,
        ) is Rejected,
{
}

/// An approval made for a plan verifies exactly the plans with the same identifier.
pub proof fn law_approval_binds_plan(a: Approval, made_for: OperationPlan, other: OperationPlan)
    requires
        a.plan_id@ == made_for.id@,
    ensures
        (a.plan_id@ == other.id@) <==> (made_for.id@ == other.id@),
{
}

} // verus!

use folder_agent::path::FsPath;
use folder_agent::plan::{EstimatedImpact, FileSystemOperation, OperationPlan, PlanValidationContext};
use folder_agent::policy::{Approval, Policy, PolicyDecision};
use folder_agent::validate::{ValidatedOperation, ValidationResult, ValidationStatus, ValidationSummary};

fn p(s: &str) -> FsPath {
    FsPath::parse(s)
}

fn make_valid_plan() -> OperationPlan {
    OperationPlan {
        id: "test-plan".to_string(),
        recommendation_id: "test-rec".to_string(),
        scope: p("/tmp/scope"),
        operations: vec![FileSystemOperation::Move {
            source: p("/tmp/scope/src.txt"),
            dest: p("/tmp/scope/Dest/src.txt"),
        }],
        estimated_impact: EstimatedImpact {
            files_moved: 1,
            dirs_created: 0,
            files_deleted: 0,
            dirs_affected: 1,
            total_bytes: 1024,
        },
        validation_warnings: vec![],
        has_conflicts: false,
        unresolved_proposals: vec![],
        dry_run: false,
        created_at: 0,
        validation_context: Some(PlanValidationContext::new()),
    }
}

fn make_valid_validation() -> ValidationResult {
    ValidationResult {
        plan_id: "test-plan".to_string(),
        scope: p("/tmp/scope"),
        validated_operations: vec![ValidatedOperation {
            operation: FileSystemOperation::Move {
                source: p("/tmp/scope/src.txt"),
                dest: p("/tmp/scope/Dest/src.txt"),
            },
            status: ValidationStatus::Valid,
            warnings: vec![],
            dependencies: vec![],
        }],
        summary: ValidationSummary::new(),
        has_blocked: false,
        has_conflicts: false,
        has_invalid: false,
        has_warnings: false,
        executable_operations: 1,
    }
}

#[test]
fn test_policy_default_approves_valid_plan() {
    let plan = make_valid_plan();
    let validation = make_valid_validation();
    let policy = Policy::default();
    assert_eq!(policy.evaluate(&plan, &validation), PolicyDecision::Approved);
}

#[test]
fn test_policy_rejects_dry_run_plan() {
    let mut plan = make_valid_plan();
    plan.dry_run = true;
    let validation = make_valid_validation();
    let policy = Policy::default();
    assert_eq!(policy.evaluate(&plan, &validation), PolicyDecision::Rejected);
}

#[test]
fn test_policy_rejects_invalid_plan() {
    let plan = make_valid_plan();
    let mut validation = make_valid_validation();
    validation.has_invalid = true;
    let policy = Policy::default();
    assert_eq!(policy.evaluate(&plan, &validation), PolicyDecision::Rejected);
}

#[test]
fn test_policy_rejects_conflict_plan() {
    let plan = make_valid_plan();
    let mut validation = make_valid_validation();
    validation.has_conflicts = true;
    let policy = Policy::default();
    assert_eq!(policy.evaluate(&plan, &validation), PolicyDecision::Rejected);
}

#[test]
fn test_policy_requires_approval_when_auto_disabled() {
    let plan = make_valid_plan();
    let validation = make_valid_validation();
    let policy = Policy::default().auto_approve(false);
    assert_eq!(policy.evaluate(&plan, &validation), PolicyDecision::RequiresApproval);
}

#[test]
fn test_policy_rejects_invalid_even_when_auto_disabled() {
    let plan = make_valid_plan();
    let mut validation = make_valid_validation();
    validation.has_invalid = true;
    let policy = Policy::default().auto_approve(false);
    assert_eq!(policy.evaluate(&plan, &validation), PolicyDecision::Rejected);
}

#[test]
fn test_policy_rejects_conflict_even_when_auto_disabled() {
    let plan = make_valid_plan();
    let mut validation = make_valid_validation();
    validation.has_conflicts = true;
    let policy = Policy::default().auto_approve(false);
    assert_eq!(policy.evaluate(&plan, &validation), PolicyDecision::Rejected);
}

#[test]
fn test_policy_rejects_dry_run_even_when_auto_disabled() {
    let mut plan = make_valid_plan();
    plan.dry_run = true;
    let validation = make_valid_validation();
    let policy = Policy::default().auto_approve(false);
    assert_eq!(policy.evaluate(&plan, &validation), PolicyDecision::Rejected);
}

#[test]
fn test_policy_rejects_over_file_limit() {
    let plan = make_valid_plan();
    let validation = make_valid_validation();
    let policy = Policy::default().max_files_moved(0);
    assert_eq!(policy.evaluate(&plan, &validation), PolicyDecision::Rejected);
}

#[test]
fn test_policy_rejects_over_dir_limit() {
    let mut plan = make_valid_plan();
    plan.estimated_impact.dirs_created = 1;
    let validation = make_valid_validation();
    let policy = Policy::default().max_directories_created(0);
    assert_eq!(policy.evaluate(&plan, &validation), PolicyDecision::Rejected);
}

#[test]
fn test_policy_does_not_mutate_plan_or_validation() {
    let plan = make_valid_plan();
    let validation = make_valid_validation();
    let plan_before = plan.clone();
    let validation_before = validation.clone();

    let policy = Policy::default();
    let _decision = policy.evaluate(&plan, &validation);

    assert_eq!(plan, plan_before, "plan must not be mutated");
    assert_eq!(validation, validation_before, "validation must not be mutated");
}

#[test]
fn test_policy_decision_helpers() {
    assert!(PolicyDecision::Approved.is_approved());
    assert!(!PolicyDecision::Approved.is_requires_approval());
    assert!(!PolicyDecision::Approved.is_rejected());

    assert!(PolicyDecision::RequiresApproval.is_requires_approval());
    assert!(!PolicyDecision::RequiresApproval.is_approved());
    assert!(!PolicyDecision::RequiresApproval.is_rejected());

    assert!(PolicyDecision::Rejected.is_rejected());
    assert!(!PolicyDecision::Rejected.is_approved());
    assert!(!PolicyDecision::Rejected.is_requires_approval());
}

#[test]
fn test_approval_for_plan_contains_plan_id() {
    let plan = make_valid_plan();
    let approval = Approval::for_plan(&plan);
    assert_eq!(approval.plan_id, "test-plan");
}

#[test]
fn test_approval_verify_matches_original_plan() {
    let plan = make_valid_plan();
    let approval = Approval::for_plan(&plan);
    assert!(approval.verify(&plan));
}

#[test]
fn test_approval_verify_rejects_different_plan_id() {
    let plan = make_valid_plan();
    let approval = Approval::for_plan(&plan);

    let mut other = plan.clone();
    other.id = "different-plan".to_string();

    assert!(!approval.verify(&other), "approval must not verify a plan with different ID");
}

#[test]
fn policy_limits_accept_plans_within_them() {
    let plan = make_valid_plan();
    let validation = make_valid_validation();
    let policy = Policy::default().max_files_moved(1).max_directories_created(0);
    assert_eq!(policy.evaluate(&plan, &validation), PolicyDecision::Approved);
}

#[test]
fn policy_new_matches_default() {
    let a = Policy::new();
    let b = Policy::default();
    assert_eq!(a, b);
    assert!(a.auto_approve);
    assert_eq!(a.max_files_moved, None);
    assert_eq!(a.max_directories_created, None);
}

use folder_agent::path::FsPath;
use folder_agent::pipeline::{ApplyOptions, ApplyStart, Pipeline, PipelineError, PipelineOptions};
use folder_agent::plan::{EstimatedImpact, FileSystemOperation, OperationPlan, PlanValidationContext};
use folder_agent::policy::{Approval, Policy, PolicyDecision};
use folder_agent::snapshot::{FsSnapshot, PathStatus};

#[test]
fn test_pipeline_default_constructs() {
    let _pipeline = Pipeline::default();
}

#[test]
fn test_pipeline_options_defaults() {
    let opts = PipelineOptions::default();
    assert!(!opts.force);
    assert!(!opts.dry_run);
    assert!(!opts.execute);
}

#[test]
fn test_apply_options_defaults() {
    let opts = ApplyOptions::default();
    assert!(!opts.force);
    assert!(!opts.dry_run);
}

#[test]
fn test_pipeline_error_display() {
    let err = PipelineError::IntentParse("test".to_string());
    assert!(err.message().contains("Intent parse error"));

    let approval = Approval { plan_id: "p1".to_string() };
    let err = PipelineError::ApprovalRequired(approval);
    assert!(err.message().contains("approval"));

    let err = PipelineError::ApprovalMismatch;
    assert!(err.message().contains("mismatch"));

    let err = PipelineError::PolicyRejected;
    assert!(err.message().contains("rejected"));
}

fn scope_fs() -> FsSnapshot {
    let mut fs = FsSnapshot::new();
    fs.record(FsPath::parse("/tmp/scope"), PathStatus::dir());
    fs.record(FsPath::parse("/tmp/scope/src.txt"), PathStatus::file());
    fs
}

fn plan(dry_run: bool) -> OperationPlan {
    OperationPlan {
        id: "plan-1".to_string(),
        recommendation_id: "rec-1".to_string(),
        scope: FsPath::parse("/tmp/scope"),
        operations: vec![FileSystemOperation::Move {
            source: FsPath::parse("/tmp/scope/src.txt"),
            dest: FsPath::parse("/tmp/scope/Dest/src.txt"),
        }],
        estimated_impact: EstimatedImpact {
            files_moved: 1,
            dirs_created: 0,
            files_deleted: 0,
            dirs_affected: 1,
            total_bytes: 0,
        },
        validation_warnings: vec![],
        has_conflicts: false,
        unresolved_proposals: vec![],
        dry_run,
        created_at: 0,
        validation_context: Some(PlanValidationContext::new()),
    }
}

#[test]
fn apply_refuses_dry_run_plan_by_policy() {
    let pipeline = Pipeline::default();
    let p = plan(true);
    let validation = pipeline.validate(&p, &scope_fs());
    let r = pipeline.apply(&p, &validation, &ApplyOptions::default());
    assert!(matches!(r, Err(PipelineError::PolicyRejected)));
}

#[test]
fn apply_lets_a_valid_plan_through() {
    let pipeline = Pipeline::default();
    let p = plan(false);
    let validation = pipeline.validate(&p, &scope_fs());
    assert!(!validation.has_invalid);
    assert_eq!(pipeline.policy_evaluate(&p, &validation), PolicyDecision::Approved);
    let r = pipeline.apply(&p, &validation, &ApplyOptions::default());
    assert!(matches!(r, Ok(ApplyStart::Execute)));
}

#[test]
fn apply_asks_for_approval_when_auto_approval_is_off() {
    let pipeline = Pipeline::default().with_policy(Policy::default().auto_approve(false));
    let p = plan(false);
    let validation = pipeline.validate(&p, &scope_fs());
    match pipeline.apply(&p, &validation, &ApplyOptions::default()) {
        Err(PipelineError::ApprovalRequired(a)) => assert_eq!(a.plan_id, "plan-1"),
        other => panic!("expected an approval request, got {:?}", other),
    }
}

#[test]
fn missing_source_makes_plan_invalid_and_rejected() {
    let pipeline = Pipeline::default();
    let p = plan(false);
    let mut fs = FsSnapshot::new();
    fs.record(FsPath::parse("/tmp/scope"), PathStatus::dir());
    let validation = pipeline.validate(&p, &fs);
    assert!(validation.has_invalid);
    assert_eq!(pipeline.policy_evaluate(&p, &validation), PolicyDecision::Rejected);
    assert!(pipeline.apply(&p, &validation, &ApplyOptions::default()).is_err());
}

#[test]
fn test_phase6c_legacy_plan_without_context_rejected() {
    let pipeline = Pipeline::default();
    let mut legacy_plan = plan(false);
    legacy_plan.validation_context = None;
    assert!(legacy_plan.validation_context.is_none(), "legacy plan must have None context");

    let result = pipeline.validate(&legacy_plan, &scope_fs());
    assert!(result.has_invalid, "legacy plan without context must be rejected");
    assert!(result.validated_operations.iter().all(|v| v.status.is_invalid()));
    assert_eq!(result.summary.invalid, 1);
    assert_eq!(result.executable_operations, 0);
    assert_eq!(pipeline.policy_evaluate(&legacy_plan, &result), PolicyDecision::Rejected);
}

#[test]
fn legacy_plan_without_operations_is_still_rejected() {
    let pipeline = Pipeline::default();
    let mut legacy_plan = plan(false);
    legacy_plan.operations.clear();
    legacy_plan.validation_context = None;
    let result = pipeline.validate(&legacy_plan, &scope_fs());
    assert!(result.has_invalid);
    assert_eq!(result.summary.total, 0);
}

#[test]
fn test_phase6c_conflict_plus_force_rejected() {
    let pipeline = Pipeline::default();
    let mut conflicted_plan = plan(false);
    let first = conflicted_plan.operations[0].clone();
    conflicted_plan.operations.push(first);

    let validation = pipeline.validate(&conflicted_plan, &scope_fs());
    assert!(validation.has_conflicts, "should have conflicts from duplicated operations");

    let result = pipeline.apply(&conflicted_plan, &validation, &ApplyOptions { force: true, dry_run: false });
    assert!(matches!(result, Err(PipelineError::PolicyRejected)), "CONFLICT + force must still be rejected");
}

//! Executions driven through the library's decisions over a simulated disk
//! on which every requested action succeeds.
use folder_agent::executor::{
    ApplyError, ExecutionStatus, Executor, FsAction, IoOutcome, StepDecision, StepRecord, UndoConflict, UndoRecord,
    UndoStep,
};
use folder_agent::path::FsPath;
use folder_agent::plan::{EstimatedImpact, FileSystemOperation, OperationPlan, PlanValidationContext};
use folder_agent::snapshot::{FsSnapshot, PathStatus};
use folder_agent::validate::{ValidatedOperation, ValidationResult, ValidationStatus, ValidationSummary};

const DIR: &str = "/tmp/exec_scope";

fn p(rel: &str) -> FsPath {
    FsPath::parse(DIR).join_str(rel)
}

fn impact(files_moved: u64, dirs_created: u64, files_deleted: u64) -> EstimatedImpact {
    EstimatedImpact { files_moved, dirs_created, files_deleted, dirs_affected: 1, total_bytes: 1024 }
}

fn plan_of(id: &str, op: FileSystemOperation, dry_run: bool, im: EstimatedImpact) -> OperationPlan {
    OperationPlan {
        id: id.to_string(),
        recommendation_id: "rec-1".to_string(),
        scope: FsPath::parse(DIR),
        operations: vec![op],
        estimated_impact: im,
        validation_warnings: vec![],
        has_conflicts: false,
        unresolved_proposals: vec![],
        dry_run,
        created_at: 1234567890,
        validation_context: None,
    }
}

fn validation_of(plan: &OperationPlan, status: ValidationStatus) -> ValidationResult {
    let mut summary = ValidationSummary::new();
    summary.total = 1;
    let valid = status.is_valid();
    let invalid = status.is_invalid();
    if valid {
        summary.valid = 1;
    }
    if invalid {
        summary.invalid = 1;
    }
    ValidationResult {
        plan_id: plan.id.clone(),
        scope: FsPath::parse(DIR),
        validated_operations: vec![ValidatedOperation {
            operation: plan.operations[0].clone(),
            status,
            warnings: vec![],
            dependencies: vec![],
        }],
        summary,
        has_blocked: false,
        has_conflicts: false,
        has_invalid: invalid,
        has_warnings: false,
        executable_operations: if valid { 1 } else { 0 },
    }
}

fn create_full_plan(dry_run: bool) -> (OperationPlan, ValidationResult) {
    let plan = plan_of(
        "test-plan-1",
        FileSystemOperation::Move { source: p("source.txt"), dest: p("dest.txt") },
        dry_run,
        impact(1, 0, 0),
    );
    let validation = validation_of(&plan, ValidationStatus::Valid);
    (plan, validation)
}

fn disk_with(files: &[&str]) -> FsSnapshot {
    let mut fs = FsSnapshot::new();
    fs.record(FsPath::parse(DIR), PathStatus::dir());
    for f in files {
        fs.record(p(f), PathStatus::file());
    }
    fs
}

/// Runs each operation as the library decides, every action succeeding.
fn run(plan: &OperationPlan, validation: &ValidationResult, force: bool, fs: &FsSnapshot) -> Vec<StepRecord> {
    let mut steps = Vec::new();
    for (idx, op) in plan.operations.iter().enumerate() {
        let _ = (idx, validation, force);
        steps.push(StepRecord { started_at: 100, completed_at: 101, fs: fs.clone(), io: IoOutcome::Done });
    }
    steps
}

#[test]
fn test_execute_move_operation() {
    let (plan, validation) = create_full_plan(false);
    let fs = disk_with(&["source.txt"]);
    assert_eq!(
        Executor::decide(&plan.operations[0], 0, &validation, false, &fs),
        StepDecision::Perform(FsAction::Rename { create_parent: None })
    );

    let executor = Executor::default();
    let steps = run(&plan, &validation, false, &fs);
    let result = executor.execute(&plan, &validation, false, &steps).unwrap();

    assert!(result.is_complete);
    assert!(!result.log.entries.is_empty());
    assert!(result.log.entries[0].status.is_success());
}

#[test]
fn test_execute_create_dir_operation() {
    let plan =
        plan_of("test-plan-2", FileSystemOperation::CreateDir { path: p("new_dir") }, false, impact(0, 1, 0));
    let validation = validation_of(&plan, ValidationStatus::Valid);
    let fs = disk_with(&[]);
    assert_eq!(
        Executor::decide(&plan.operations[0], 0, &validation, false, &fs),
        StepDecision::Perform(FsAction::CreateDirAll)
    );

    let executor = Executor::default();
    let steps = run(&plan, &validation, false, &fs);
    let result = executor.execute(&plan, &validation, false, &steps).unwrap();

    assert!(result.is_complete);
    assert!(result.log.entries[0].status.is_success());
}

#[test]
fn test_execute_delete_operation() {
    let plan = plan_of(
        "test-plan-3",
        FileSystemOperation::Delete { path: p("delete_me.txt"), reason: "cleanup".to_string() },
        false,
        impact(0, 0, 1),
    );
    let validation = validation_of(&plan, ValidationStatus::Valid);
    let fs = disk_with(&["delete_me.txt"]);
    assert_eq!(
        Executor::decide(&plan.operations[0], 0, &validation, false, &fs),
        StepDecision::Perform(FsAction::RemoveFile)
    );

    let executor = Executor::default();
    let steps = run(&plan, &validation, false, &fs);
    let result = executor.execute(&plan, &validation, false, &steps).unwrap();

    assert_eq!(result.log.entries[0].status, ExecutionStatus::UndoNotSupported);
    assert!(!result.log.entries[0].undo_supported);
}

#[test]
fn test_dry_run_rejected() {
    let (plan, validation) = create_full_plan(true);
    let steps = run(&plan, &validation, false, &disk_with(&["source.txt"]));

    let executor = Executor::default();
    let result = executor.execute(&plan, &validation, false, &steps);

    assert!(result.is_err());
    assert_eq!(result.unwrap_err(), ApplyError::DryRunFlagSet);
}

#[test]
fn test_invalid_plan_rejected() {
    let (plan, validation) = create_full_plan(false);

    let mut validation = validation;
    validation.has_invalid = true;
    validation.validated_operations = vec![ValidatedOperation {
        operation: FileSystemOperation::Move { source: p("nonexistent.txt"), dest: p("dest.txt") },
        status: ValidationStatus::Invalid("not found".to_string()),
        warnings: vec![],
        dependencies: vec![],
    }];
    let steps = run(&plan, &validation, false, &disk_with(&[]));

    let executor = Executor::default();
    let result = executor.execute(&plan, &validation, false, &steps);

    assert!(result.is_err());
    match result.unwrap_err() {
        ApplyError::InvalidPlan(msg) => assert!(msg.contains("INVALID")),
        _ => panic!("Expected InvalidPlan error"),
    }
}

#[test]
fn test_undo_with_source_missing() {
    let (plan, validation) = create_full_plan(false);
    let fs = disk_with(&["source.txt"]);
    let executor = Executor::default();
    let steps = run(&plan, &validation, false, &fs);
    let apply_result = executor.execute(&plan, &validation, false, &steps).unwrap();

    let mut log = apply_result.log.clone();
    let entry = &mut log.entries[0];
    entry.original_source = p("gone_source.txt");
    entry.applied_target = p("gone_dest.txt");

    let after = disk_with(&["dest.txt"]);
    let records: Vec<UndoRecord> =
        log.undoable_entries().iter().map(|_| UndoRecord { fs: after.clone(), io: IoOutcome::Done }).collect();
    let undo_result = executor.undo(&log, &records, 200).unwrap();
    assert!(!undo_result.conflicts.is_empty());
    match &undo_result.conflicts[0] {
        UndoConflict::SourceMissing { .. } => {}
        _ => panic!("Expected SourceMissing conflict"),
    }
}

#[test]
fn test_undo_with_blocked_plan_rejected() {
    let (plan, validation) = create_full_plan(false);
    let fs = disk_with(&["source.txt"]);
    let executor = Executor::default();
    let steps = run(&plan, &validation, false, &fs);
    let apply_result = executor.execute(&plan, &validation, false, &steps).unwrap();

    let mut log = apply_result.log.clone();
    log.entries[0].status = ExecutionStatus::Success;
    log.entries[0].operation_type = "unknown_type".to_string();
    log.entries[0].undo_supported = true;

    let after = disk_with(&["dest.txt"]);
    for e in log.undoable_entries() {
        assert!(matches!(executor.undo_step(e, &after), UndoStep::NotUndoable(_)));
    }
    let records: Vec<UndoRecord> =
        log.undoable_entries().iter().map(|_| UndoRecord { fs: after.clone(), io: IoOutcome::Done }).collect();
    let undo_result = executor.undo(&log, &records, 200).unwrap();
    assert_eq!(undo_result.total_undo_operations, 0);
    assert!(matches!(undo_result.conflicts[0], UndoConflict::NotUndoable { .. }));
}

#[test]
fn test_log_entry_structure() {
    let (plan, validation) = create_full_plan(false);
    let fs = disk_with(&["source.txt"]);
    let executor = Executor::default();
    let steps = run(&plan, &validation, false, &fs);
    let result = executor.execute(&plan, &validation, false, &steps).unwrap();

    let entry = &result.log.entries[0];
    assert!(!entry.id.is_empty());
    assert_eq!(entry.plan_id, "test-plan-1");
    assert_eq!(entry.operation_type, "move");
    assert!(entry.started_at > 0);
    assert!(entry.completed_at.is_some());
}

#[test]
fn test_apply_result_summary() {
    let (plan, validation) = create_full_plan(false);
    let fs = disk_with(&["source.txt"]);
    let executor = Executor::default();
    let steps = run(&plan, &validation, false, &fs);
    let result = executor.execute(&plan, &validation, false, &steps).unwrap();

    assert!(result.can_undo);
    assert_eq!(result.undo_supported_count, 1);
    assert_eq!(result.undo_unsupported_count, 0);
}

#[test]
fn test_force_does_not_bypass_invalid() {
    let plan = plan_of(
        "test-force-invalid",
        FileSystemOperation::Move { source: p("nonexistent.txt"), dest: p("dest.txt") },
        false,
        impact(1, 0, 0),
    );
    let validation = validation_of(&plan, ValidationStatus::Invalid("Source not found".to_string()));
    let steps = run(&plan, &validation, true, &disk_with(&[]));

    let executor = Executor::default();
    let result = executor.execute_with_options(&plan, &validation, true, &steps);

    assert!(matches!(result, Err(ApplyError::InvalidPlan(msg)) if msg.contains("INVALID")));
}

#[test]
fn test_execute_move_missing_source() {
    let mut plan = plan_of(
        "test-move-missing",
        FileSystemOperation::Move { source: p("missing.txt"), dest: p("Documents/missing.txt") },
        false,
        impact(1, 0, 0),
    );
    plan.validation_context = Some(PlanValidationContext::new());
    let validation = validation_of(&plan, ValidationStatus::Valid);
    let steps = run(&plan, &validation, false, &disk_with(&[]));

    let executor = Executor::default();
    let result = executor.execute_with_options(&plan, &validation, false, &steps).unwrap();

    assert!(!result.is_complete, "move with missing source should fail");
    assert!(result.log.entries[0].status.is_failed(), "entry should be Failed due to missing source");
}

#[test]
fn move_into_missing_folder_asks_for_its_parent() {
    let plan = plan_of(
        "p",
        FileSystemOperation::Move { source: p("a.txt"), dest: p("Docs/a.txt") },
        false,
        impact(1, 0, 0),
    );
    let validation = validation_of(&plan, ValidationStatus::Valid);
    assert_eq!(
        Executor::decide(&plan.operations[0], 0, &validation, false, &disk_with(&["a.txt"])),
        StepDecision::Perform(FsAction::Rename { create_parent: Some(p("Docs")) })
    );
}

#[test]
fn blocked_operation_is_skipped_under_force() {
    let plan = plan_of(
        "p",
        FileSystemOperation::Move { source: p("a.tmp"), dest: p("Temp/a.tmp") },
        false,
        impact(1, 0, 0),
    );
    let mut validation = validation_of(&plan, ValidationStatus::BlockedByConstraint("auto_delete_temps is false".to_string()));
    validation.has_blocked = true;
    let executor = Executor::default();

    let steps = run(&plan, &validation, false, &disk_with(&["a.tmp"]));
    assert!(matches!(
        executor.execute_with_options(&plan, &validation, false, &steps),
        Err(ApplyError::InvalidPlan(msg)) if msg.contains("BLOCKED")
    ));

    let steps = run(&plan, &validation, true, &disk_with(&["a.tmp"]));
    let result = executor.execute_with_options(&plan, &validation, true, &steps).unwrap();
    assert_eq!(result.log.skipped_count, 1);
    assert!(!result.is_complete);
}

#[test]
fn conclude_reports_rename_failure() {
    let op = FileSystemOperation::Move { source: p("a.txt"), dest: p("b.txt") };
    let r = Executor::conclude(&op, &IoOutcome::Failed("denied".to_string()));
    assert_eq!(r.status, ExecutionStatus::Failed("Rename failed: denied".to_string()));
    assert_eq!(r.error, Some("Rename failed: denied".to_string()));
    // a failed move still counts as undoable, as every move does
    assert!(r.can_undo);
}

fn conflict_validation(plan: &OperationPlan) -> ValidationResult {
    let mut validation = validation_of(plan, ValidationStatus::Conflict("Destination file exists".to_string()));
    validation.summary.conflicts = 1;
    validation.has_conflicts = true;
    validation
}

/// The filesystem actions a caller carries out: none when the plan is
/// refused, else those the library asks for, operation by operation.
fn actions_when_applicable(plan: &OperationPlan, validation: &ValidationResult, force: bool, fs: &FsSnapshot) -> Vec<FsAction> {
    if Executor::check_applicable(plan, validation, force).is_err() {
        return vec![];
    }
    let mut actions = Vec::new();
    for (idx, op) in plan.operations.iter().enumerate() {
        if let StepDecision::Perform(a) = Executor::decide(op, idx, validation, force, fs) {
            actions.push(a);
        }
    }
    actions
}

#[test]
fn test_execute_move_dest_conflict_rejected() {
    let mut plan = plan_of(
        "test-move-conflict",
        FileSystemOperation::Move { source: p("source.txt"), dest: p("Documents/source.txt") },
        false,
        impact(1, 0, 0),
    );
    plan.validation_context = Some(PlanValidationContext::new());
    let validation = conflict_validation(&plan);
    let disk = disk_with(&["source.txt", "Documents/source.txt"]);

    // The refusal comes before any step is carried out.
    let refused = Executor::check_applicable(&plan, &validation, false);
    assert!(matches!(refused, Err(ApplyError::InvalidPlan(ref msg)) if msg.contains("CONFLICT")));

    let executor = Executor::default();
    let steps = run(&plan, &validation, false, &disk);
    let result = executor.execute_with_options(&plan, &validation, false, &steps);
    assert!(
        matches!(result, Err(ApplyError::InvalidPlan(msg)) if msg.contains("CONFLICT")),
        "executor must reject CONFLICT"
    );
    // The move would otherwise be carried out; the refusal comes first, so nothing is.
    assert!(matches!(Executor::decide(&plan.operations[0], 0, &validation, false, &disk), StepDecision::Perform(_)));
    assert!(actions_when_applicable(&plan, &validation, false, &disk).is_empty(), "source must still exist after rejected conflict");
}

#[test]
fn test_phase6c_executor_conflict_plus_force_rejected() {
    let mut plan = plan_of(
        "test-conflict-force",
        FileSystemOperation::Move { source: p("source.txt"), dest: p("dest.txt") },
        false,
        impact(1, 0, 0),
    );
    plan.has_conflicts = true;
    plan.validation_context = Some(PlanValidationContext::new());
    let validation = conflict_validation(&plan);
    let disk = disk_with(&["source.txt", "dest.txt"]);

    let refused = Executor::check_applicable(&plan, &validation, true);
    assert!(matches!(refused, Err(ApplyError::InvalidPlan(ref msg)) if msg.contains("CONFLICT")));

    let executor = Executor::default();
    let steps = run(&plan, &validation, true, &disk);
    let result = executor.execute_with_options(&plan, &validation, true, &steps);
    assert!(
        matches!(result, Err(ApplyError::InvalidPlan(msg)) if msg.contains("CONFLICT")),
        "Executor must reject CONFLICT even with force"
    );
    assert!(matches!(Executor::decide(&plan.operations[0], 0, &validation, true, &disk), StepDecision::Perform(_)));
    assert!(
        actions_when_applicable(&plan, &validation, true, &disk).is_empty(),
        "source must still exist (executor defense-in-depth)"
    );
}

#[test]
fn invalid_is_reported_before_conflict() {
    let plan = plan_of(
        "p",
        FileSystemOperation::Move { source: p("a.txt"), dest: p("b.txt") },
        false,
        impact(1, 0, 0),
    );
    let mut validation = conflict_validation(&plan);
    validation.validated_operations.push(validation.validated_operations[0].clone());
    validation.validated_operations[1].status = ValidationStatus::Invalid("Source not found".to_string());
    let r = Executor::check_applicable(&plan, &validation, true);
    assert!(matches!(r, Err(ApplyError::InvalidPlan(msg)) if msg.contains("INVALID")));
}

#[test]
fn execute_is_execute_with_options_without_force() {
    let (plan, validation) = create_full_plan(false);
    let fs = disk_with(&["source.txt"]);
    let executor = Executor::default();
    let steps = run(&plan, &validation, false, &fs);
    let a = executor.execute(&plan, &validation, true, &steps).unwrap();
    let b = executor.execute_with_options(&plan, &validation, false, &steps).unwrap();
    assert_eq!(a.log.entries.len(), b.log.entries.len());
    assert_eq!(a.log.entries[0].id, b.log.entries[0].id);
    assert_eq!(a.log.entries[0].status, b.log.entries[0].status);
    assert_eq!(a.is_complete, b.is_complete);
    assert_eq!(a.undo_supported_count, b.undo_supported_count);
    assert_eq!(a.undo_unsupported_count, b.undo_unsupported_count);
}

#[test]
fn test_force_bypasses_blocked_not_invalid() {
    let plan = plan_of(
        "p-force",
        FileSystemOperation::Move { source: p("a.tmp"), dest: p("Temp/a.tmp") },
        false,
        impact(1, 0, 0),
    );
    let mut validation =
        validation_of(&plan, ValidationStatus::BlockedByConstraint("auto_delete_temps is false".to_string()));
    validation.has_blocked = true;
    // whatever the caller reports, a blocked operation under force is skipped
    let steps = vec![StepRecord {
        started_at: 1,
        completed_at: 2,
        fs: disk_with(&["a.tmp"]),
        io: IoOutcome::Failed("should not be read".to_string()),
    }];
    let result = Executor::default().execute_with_options(&plan, &validation, true, &steps).unwrap();
    assert!(matches!(result.log.entries[0].status, ExecutionStatus::Skipped(_)));
    assert!(!result.log.entries[0].undo_supported);
    assert_eq!(result.log.skipped_count, 1);
    assert!(!result.is_complete);
}

#[test]
fn execution_concludes_from_the_reported_outcome() {
    let (plan, validation) = create_full_plan(false);
    let steps = vec![StepRecord {
        started_at: 1,
        completed_at: 2,
        fs: disk_with(&["source.txt"]),
        io: IoOutcome::Failed("denied".to_string()),
    }];
    let result = Executor::default().execute(&plan, &validation, false, &steps).unwrap();
    assert_eq!(result.log.entries[0].status, ExecutionStatus::Failed("Rename failed: denied".to_string()));
    assert!(!result.is_complete);
}

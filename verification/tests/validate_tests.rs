use folder_agent::intent::{ConstraintSet, Goal, TaskIntent, UserHints};
use folder_agent::path::FsPath;
use folder_agent::plan::{EstimatedImpact, FileSystemOperation, OperationPlan, PlanValidationContext, WarningType};
use folder_agent::proposal_converter::{UnresolvedItem, UnresolvedReason};
use folder_agent::snapshot::{FsSnapshot, PathStatus};
use folder_agent::validate::{PlanPreview, PlanValidator, ValidationStatus, ValidationSummary};

fn zero_impact() -> EstimatedImpact {
    EstimatedImpact { files_moved: 0, dirs_created: 0, files_deleted: 0, dirs_affected: 0, total_bytes: 0 }
}

fn plan_with(scope: &str, operations: Vec<FileSystemOperation>) -> OperationPlan {
    OperationPlan {
        id: "test".to_string(),
        recommendation_id: "rec".to_string(),
        scope: FsPath::parse(scope),
        operations,
        estimated_impact: zero_impact(),
        validation_warnings: Vec::new(),
        has_conflicts: false,
        unresolved_proposals: Vec::new(),
        dry_run: true,
        created_at: 0,
        validation_context: None,
    }
}

fn organize_intent(scope: &str) -> TaskIntent {
    TaskIntent {
        goal: Goal::Organize { scope: FsPath::parse(scope), purpose: "by_category".to_string() },
        constraints: ConstraintSet::default(),
        user_hints: UserHints::new(),
        unknown_factors: Vec::new(),
    }
}

#[test]
fn test_validate_status_types() {
    assert!(ValidationStatus::Valid.is_valid());
    assert!(!ValidationStatus::Valid.is_blocked());
    assert!(!ValidationStatus::Valid.is_conflict());
    assert!(!ValidationStatus::Valid.is_invalid());
    assert!(!ValidationStatus::Valid.is_warning());

    assert!(ValidationStatus::BlockedByConstraint("test".to_string()).is_blocked());
    assert!(ValidationStatus::Conflict("test".to_string()).is_conflict());
    assert!(ValidationStatus::Invalid("test".to_string()).is_invalid());
    assert!(ValidationStatus::Warning("test".to_string()).is_warning());
}

#[test]
fn test_validate_source_not_found() {
    let plan = plan_with(
        "/tmp/test",
        vec![FileSystemOperation::Move {
            source: FsPath::parse("/nonexistent/file.txt"),
            dest: FsPath::parse("/tmp/test/dest"),
        }],
    );
    let intent = organize_intent("/tmp/test");

    let validator = PlanValidator::default();
    let result = validator.validate(&plan, &intent, &FsSnapshot::new());

    assert!(result.summary.invalid > 0);
    for v in &result.validated_operations {
        if matches!(v.status, ValidationStatus::Invalid(_)) {
            return;
        }
    }
    panic!("Expected an invalid operation");
}

#[test]
fn test_preview_empty_plan() {
    let plan = plan_with("/tmp", Vec::new());
    let intent = organize_intent("/tmp");

    let validator = PlanValidator::default();
    let result = validator.validate(&plan, &intent, &FsSnapshot::new());
    let preview = PlanPreview::default().render(&plan, &result);

    assert!(preview.contains("No operations proposed"));
    assert!(preview.contains("0 total"));
}

#[test]
fn test_validate_plan_consistency_duplicate_sources() {
    let scope = FsPath::parse("/tmp/test_consistency");
    let plan = plan_with(
        "/tmp/test_consistency",
        vec![
            FileSystemOperation::Move { source: scope.join_str("file.txt"), dest: scope.join_str("dir1") },
            FileSystemOperation::Move { source: scope.join_str("file.txt"), dest: scope.join_str("dir2") },
        ],
    );

    let validator = PlanValidator::default();
    let issues = validator.validate_plan_consistency(&plan);

    assert!(!issues.is_empty());
    assert!(issues.iter().any(|i| i.contains("Duplicate source")));
}

#[test]
fn test_validate_create_dir_idempotent() {
    let plan = plan_with(
        "/tmp/test",
        vec![
            FileSystemOperation::CreateDir { path: FsPath::parse("/tmp/new_dir") },
            FileSystemOperation::CreateDir { path: FsPath::parse("/tmp/new_dir") },
        ],
    );

    let validator = PlanValidator::default();
    let issues = validator.validate_plan_consistency(&plan);

    assert!(issues.iter().any(|i| i.contains("Duplicate CreateDir")));
}

#[test]
fn test_validate_warning_type_display() {
    assert_eq!(WarningType::PartialScanScope.label(), "Partial scan scope");
    assert_eq!(WarningType::FileCountEstimate.label(), "File count estimate");
    assert_eq!(WarningType::MissingSourceFile.label(), "Missing source file");
    assert_eq!(WarningType::PathTooDeep.label(), "Path too deep");
}

#[test]
fn test_validate_operation_type_and_description() {
    let move_op = FileSystemOperation::Move { source: FsPath::parse("/src/a.txt"), dest: FsPath::parse("/dest/a.txt") };
    assert_eq!(move_op.operation_type(), "move");
    assert_eq!(move_op.source_path(), Some(&FsPath::parse("/src/a.txt")));
    assert_eq!(move_op.dest_path(), Some(&FsPath::parse("/dest/a.txt")));

    let mkdir_op = FileSystemOperation::CreateDir { path: FsPath::parse("/new") };
    assert_eq!(mkdir_op.operation_type(), "create_dir");
    assert_eq!(mkdir_op.source_path(), None);
    assert_eq!(mkdir_op.dest_path(), Some(&FsPath::parse("/new")));

    let delete_op = FileSystemOperation::Delete { path: FsPath::parse("/old"), reason: "cleanup".to_string() };
    assert_eq!(delete_op.operation_type(), "delete");
    assert_eq!(delete_op.source_path(), Some(&FsPath::parse("/old")));
    assert_eq!(delete_op.dest_path(), None);
}

#[test]
fn test_validate_summary_default() {
    let summary = ValidationSummary::default();
    assert_eq!(summary.total, 0);
    assert_eq!(summary.valid, 0);
    assert_eq!(summary.blocked, 0);
    assert_eq!(summary.conflicts, 0);
    assert_eq!(summary.invalid, 0);
    assert_eq!(summary.warnings, 0);
}

#[test]
fn valid_move_within_scope_is_executable() {
    let plan = plan_with(
        "/tmp/s",
        vec![FileSystemOperation::Move { source: FsPath::parse("/tmp/s/a.txt"), dest: FsPath::parse("/tmp/s/Docs/a.txt") }],
    );
    let mut fs = FsSnapshot::new();
    fs.record(FsPath::parse("/tmp/s"), PathStatus::dir());
    fs.record(FsPath::parse("/tmp/s/a.txt"), PathStatus::file());
    let result = PlanValidator::default().validate(&plan, &organize_intent("/tmp/s"), &fs);
    assert_eq!(result.summary.total, 1);
    assert_eq!(result.summary.valid, 1);
    assert_eq!(result.executable_operations, 1);
    assert!(!result.has_invalid);
}

#[test]
fn existing_destination_is_a_conflict() {
    let plan = plan_with(
        "/tmp/s",
        vec![FileSystemOperation::Move { source: FsPath::parse("/tmp/s/a.txt"), dest: FsPath::parse("/tmp/s/b.txt") }],
    );
    let mut fs = FsSnapshot::new();
    fs.record(FsPath::parse("/tmp/s"), PathStatus::dir());
    fs.record(FsPath::parse("/tmp/s/a.txt"), PathStatus::file());
    fs.record(FsPath::parse("/tmp/s/b.txt"), PathStatus::file());
    let result = PlanValidator::default().validate(&plan, &organize_intent("/tmp/s"), &fs);
    assert!(matches!(result.validated_operations[0].status, ValidationStatus::Conflict(_)));
    assert_eq!(result.summary.conflicts, 1);
    // plan-level conflicts are about operations colliding with each other
    assert!(!result.has_conflicts);
}

#[test]
fn filter_executable_drops_invalid_operations() {
    let plan = plan_with(
        "/tmp/s",
        vec![
            FileSystemOperation::Move { source: FsPath::parse("/tmp/s/a.txt"), dest: FsPath::parse("/tmp/s/Docs/a.txt") },
            FileSystemOperation::Move { source: FsPath::parse("/tmp/s/gone.txt"), dest: FsPath::parse("/tmp/s/Docs/gone.txt") },
        ],
    );
    let mut fs = FsSnapshot::new();
    fs.record(FsPath::parse("/tmp/s"), PathStatus::dir());
    fs.record(FsPath::parse("/tmp/s/a.txt"), PathStatus::file());
    let exec = PlanValidator::default().filter_executable(&plan, &organize_intent("/tmp/s"), &fs);
    assert_eq!(exec.operations.len(), 1);
    assert!(exec.id.starts_with("plan-exec-"));
}

#[test]
fn test_validate_destination_outside_scope() {
    let scope = "/tmp/validate/downloads";
    let outside_plan = plan_with(scope, vec![FileSystemOperation::CreateDir { path: FsPath::parse("/outside/scope/dir") }]);
    let mut fs = FsSnapshot::new();
    fs.record(FsPath::parse(scope), PathStatus::dir());

    let validator = PlanValidator::default();
    let result = validator.validate(&outside_plan, &organize_intent(scope), &fs);

    assert!(result.summary.invalid > 0);
    assert!(result.has_invalid);
}

#[test]
fn test_preview_render() {
    let scope = "/tmp/validate/downloads";
    let plan = plan_with(
        scope,
        vec![
            FileSystemOperation::CreateDir { path: FsPath::parse("/tmp/validate/downloads/Documents") },
            FileSystemOperation::Move {
                source: FsPath::parse("/tmp/validate/downloads/readme.txt"),
                dest: FsPath::parse("/tmp/validate/downloads/Documents/readme.txt"),
            },
        ],
    );
    let mut fs = FsSnapshot::new();
    fs.record(FsPath::parse(scope), PathStatus::dir());
    fs.record(FsPath::parse("/tmp/validate/downloads/readme.txt"), PathStatus::file());

    let validator = PlanValidator::default();
    let result = validator.validate(&plan, &organize_intent(scope), &fs);
    let preview = PlanPreview::default().render(&plan, &result);

    assert!(preview.contains("Operation Plan"));
    assert!(preview.contains("Validation Summary"));
    assert!(preview.contains("VALID"));
    assert!(preview.contains("Estimated Impact"));
}

/// The "downloads" scope of the original tests, as a snapshot: two category
/// folders with files, and two loose files.
fn downloads_snapshot(scope: &str) -> FsSnapshot {
    let mut fs = FsSnapshot::new();
    let root = FsPath::parse(scope);
    fs.record(root.clone(), PathStatus::dir());
    fs.record(root.join_str("documents"), PathStatus::dir());
    fs.record(root.join_str("images"), PathStatus::dir());
    for f in ["documents/doc1.pdf", "documents/doc2.docx", "images/photo1.jpg", "images/photo2.png", "archive.zip", "readme.txt"] {
        fs.record(root.join_str(f), PathStatus::file());
    }
    fs
}

/// The plan that organizing the downloads scope by category gives.
fn downloads_plan(scope: &str) -> OperationPlan {
    let root = FsPath::parse(scope);
    let mut plan = plan_with(
        scope,
        vec![
            FileSystemOperation::CreateDir { path: root.join_str("Archives") },
            FileSystemOperation::Move { source: root.join_str("archive.zip"), dest: root.join_str("Archives/archive.zip") },
            FileSystemOperation::Move { source: root.join_str("readme.txt"), dest: root.join_str("documents/readme.txt") },
        ],
    );
    plan.id = "plan-1234".to_string();
    plan.created_at = 1234;
    plan
}

#[test]
fn test_validate_basic_plan() {
    let scope = "/tmp/validate_basic/downloads";
    let plan = downloads_plan(scope);
    let intent = organize_intent(scope);

    let validator = PlanValidator::default();
    let result = validator.validate(&plan, &intent, &downloads_snapshot(scope));

    assert_eq!(result.plan_id, plan.id);
    assert!(result.summary.total > 0);
    assert!(result.executable_operations > 0);
}

#[test]
fn test_filter_executable() {
    let scope = "/tmp/validate_filter/downloads";
    let mut plan = downloads_plan(scope);
    // one operation whose source is gone, which validation marks invalid
    plan.operations.push(FileSystemOperation::Move {
        source: FsPath::parse(scope).join_str("gone.txt"),
        dest: FsPath::parse(scope).join_str("documents/gone.txt"),
    });
    let intent = organize_intent(scope);
    let fs = downloads_snapshot(scope);

    let validator = PlanValidator::default();
    let exec_plan = validator.filter_executable(&plan, &intent, &fs);

    let validated = validator.validate(&plan, &intent, &fs);
    let runnable: Vec<FileSystemOperation> = validated
        .validated_operations
        .iter()
        .filter(|v| v.status.is_valid() || v.status.is_warning())
        .map(|v| v.operation.clone())
        .collect();
    assert_eq!(exec_plan.operations, runnable);
    assert!(exec_plan.operations.len() <= plan.operations.len());
    assert_eq!(exec_plan.operations.len(), 3);
    assert!(exec_plan.id.starts_with("plan-exec-"));
    assert_eq!(exec_plan.id, "plan-exec-1234");
}

#[test]
fn test_13_preview_renders_unresolved_items() {
    let scope = "/tmp/validate13/scope";
    let mut plan = plan_with(scope, vec![]);
    plan.id = "plan-test-13".to_string();
    plan.recommendation_id = "rec-test-13".to_string();
    plan.unresolved_proposals = vec![UnresolvedItem {
        file: FsPath::parse(scope).join_str("Missing.cbz"),
        category: "Author A".to_string(),
        reason: UnresolvedReason::MissingFile,
    }];
    plan.validation_context = Some(PlanValidationContext::new());
    let mut fs = FsSnapshot::new();
    fs.record(FsPath::parse(scope), PathStatus::dir());

    let validator = PlanValidator::default();
    let validation = validator.validate(&plan, &organize_intent(scope), &fs);
    let preview = PlanPreview.render(&plan, &validation);

    assert!(preview.contains("Unresolved Proposal Items"));
    assert!(preview.contains("Missing file"));
    assert!(preview.contains("Author A"));
    assert!(preview.contains("/tmp/validate13/scope/Missing.cbz: Missing file (Author A)"));
}

#[test]
fn preview_lists_unresolved_items_between_operations_and_impact() {
    let scope = "/tmp/validate13b/scope";
    let mut plan = downloads_plan(scope);
    plan.unresolved_proposals = vec![UnresolvedItem {
        file: FsPath::parse(scope).join_str("x.cbz"),
        category: "Author B".to_string(),
        reason: UnresolvedReason::ConflictingDestination,
    }];
    let validation = PlanValidator::default().validate(&plan, &organize_intent(scope), &downloads_snapshot(scope));
    let preview = PlanPreview.render(&plan, &validation);
    let ops_at = preview.find("=== Operations ===").unwrap();
    let items_at = preview.find("=== Unresolved Proposal Items ===").unwrap();
    let impact_at = preview.find("=== Estimated Impact ===").unwrap();
    assert!(ops_at < items_at && items_at < impact_at);
    assert!(preview.contains("Conflicting destination: a file already exists there (Author B)"));
}

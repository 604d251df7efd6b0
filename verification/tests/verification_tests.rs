use folder_agent::executor::OperationLog;
use folder_agent::path::FsPath;
use folder_agent::plan::{EstimatedImpact, FileSystemOperation, OperationPlan};
use folder_agent::snapshot::{FsSnapshot, PathStatus};
use folder_agent::verification::{CapturedState, ExecutionVerifier, FilesystemState, VerificationStatus};

const SCOPE: &str = "/tmp/verify_scope";

fn p(rel: &str) -> FsPath {
    FsPath::parse(SCOPE).join_str(rel)
}

fn make_plan(operations: Vec<FileSystemOperation>) -> OperationPlan {
    OperationPlan {
        id: "verify-plan".to_string(),
        recommendation_id: "rec".to_string(),
        scope: FsPath::parse(SCOPE),
        operations,
        estimated_impact: EstimatedImpact {
            files_moved: 0,
            dirs_created: 0,
            files_deleted: 0,
            dirs_affected: 0,
            total_bytes: 0,
        },
        validation_warnings: vec![],
        has_conflicts: false,
        unresolved_proposals: vec![],
        dry_run: false,
        created_at: 0,
        validation_context: None,
    }
}

fn finished_log(plan: &OperationPlan) -> OperationLog {
    let mut log = OperationLog::new(&plan.id);
    log.finalize();
    log
}

#[test]
fn test_verify_create_dir_not_created() {
    let plan = make_plan(vec![FileSystemOperation::CreateDir { path: p("subdir") }]);
    let before = CapturedState::new();
    let log = finished_log(&plan);
    // the directory was not created
    let result = ExecutionVerifier.verify(&plan, &log, &before, &before, &FsSnapshot::new(), &CapturedState::new());

    assert!(
        matches!(result.status, VerificationStatus::Failed(_)),
        "verification must fail when directory was not created: {:?}",
        result.checks
    );
}

#[test]
fn test_render_output_for_failure() {
    let plan = make_plan(vec![FileSystemOperation::Move { source: p("missing.txt"), dest: p("Documents/missing.txt") }]);
    let before = CapturedState::new();
    let log = finished_log(&plan);
    let result = ExecutionVerifier.verify(&plan, &log, &before, &before, &FsSnapshot::new(), &CapturedState::new());

    assert!(matches!(result.status, VerificationStatus::Failed(_)), "verification should fail");
    assert!(result.summary.total_failed_checks > 0, "should have failed checks");

    let rendered = result.render();
    assert!(rendered.contains("Verification:"));
    assert!(rendered.contains("Failed checks:"));
}

#[test]
fn completed_move_passes_with_content_preserved() {
    let plan = make_plan(vec![FileSystemOperation::Move { source: p("a.txt"), dest: p("Docs/a.txt") }]);
    let mut before = CapturedState::new();
    before.insert(p("a.txt"), FilesystemState::File(b"hello".to_vec()));
    let mut after = CapturedState::new();
    after.insert(p("Docs"), FilesystemState::Dir);
    after.insert(p("Docs/a.txt"), FilesystemState::File(b"hello".to_vec()));
    let mut now = FsSnapshot::new();
    now.record(p("Docs/a.txt"), PathStatus::file());
    let mut reads = CapturedState::new();
    reads.insert(p("Docs/a.txt"), FilesystemState::File(b"hello".to_vec()));

    let log = finished_log(&plan);
    let result = ExecutionVerifier.verify(&plan, &log, &before, &after, &now, &reads);
    assert!(result.passed());
    assert_eq!(result.summary.moves_verified, 1);
    assert_eq!(result.summary.sources_removed, 1);
    assert_eq!(result.summary.content_preserved, 1);
    assert_eq!(result.summary.destinations_present, 1);
}

#[test]
fn changed_content_fails_with_sizes() {
    let plan = make_plan(vec![FileSystemOperation::Move { source: p("a.txt"), dest: p("Docs/a.txt") }]);
    let mut before = CapturedState::new();
    before.insert(p("a.txt"), FilesystemState::File(b"hello".to_vec()));
    let mut now = FsSnapshot::new();
    now.record(p("Docs/a.txt"), PathStatus::file());
    let mut reads = CapturedState::new();
    reads.insert(p("Docs/a.txt"), FilesystemState::File(b"hi".to_vec()));

    let log = finished_log(&plan);
    let result = ExecutionVerifier.verify(&plan, &log, &before, &before, &now, &reads);
    match result.status {
        VerificationStatus::Failed(m) => {
            assert!(m.contains("Content mismatch at destination: /tmp/verify_scope/Docs/a.txt (expected 5 bytes, got 2 bytes)"))
        }
        other => panic!("expected failure, got {:?}", other),
    }
}

#[test]
fn noop_plan_with_unchanged_scope_passes() {
    let plan = make_plan(vec![]);
    let mut before = CapturedState::new();
    before.insert(p("x.txt"), FilesystemState::File(b"1".to_vec()));
    let log = finished_log(&plan);
    let result = ExecutionVerifier.verify(&plan, &log, &before, &before, &FsSnapshot::new(), &CapturedState::new());
    assert!(result.passed());
    assert_eq!(result.checks.len(), 1);
    assert_eq!(result.checks[0].name, "No-op plan: filesystem unchanged");
}

#[test]
fn noop_plan_with_new_entry_fails() {
    let plan = make_plan(vec![]);
    let mut before = CapturedState::new();
    before.insert(p("x.txt"), FilesystemState::File(b"1".to_vec()));
    let mut after = CapturedState::new();
    after.insert(p("y.txt"), FilesystemState::File(b"1".to_vec()));
    let log = finished_log(&plan);
    let result = ExecutionVerifier.verify(&plan, &log, &before, &after, &FsSnapshot::new(), &CapturedState::new());
    assert!(!result.passed());
    assert_eq!(result.summary.total_failed_checks, 1);
}

#[test]
fn failed_check_count_matches_failed_checks() {
    // the source was captured before and is still there, and the destination is missing
    let plan = make_plan(vec![FileSystemOperation::Move { source: p("a.txt"), dest: p("Docs/a.txt") }]);
    let mut before = CapturedState::new();
    before.insert(p("a.txt"), FilesystemState::File(b"hi".to_vec()));
    let mut now = FsSnapshot::new();
    now.record(p("a.txt"), PathStatus::file());
    let log = finished_log(&plan);
    let result = ExecutionVerifier.verify(&plan, &log, &before, &before, &now, &CapturedState::new());

    let failed = result.checks.iter().filter(|c| !c.passed).count();
    assert_eq!(result.summary.total_failed_checks, failed);
    assert_eq!(failed, 2);
    assert!(!result.passed());
}

#[test]
fn noop_plan_with_reordered_but_equal_capture_passes() {
    let plan = make_plan(vec![]);
    let mut before = CapturedState::new();
    before.insert(p("a.txt"), FilesystemState::File(b"1".to_vec()));
    before.insert(p("d"), FilesystemState::Dir);
    let mut after = CapturedState::new();
    after.insert(p("d"), FilesystemState::Dir);
    after.insert(p("a.txt"), FilesystemState::File(b"1".to_vec()));
    let log = finished_log(&plan);
    let result = ExecutionVerifier.verify(&plan, &log, &before, &after, &FsSnapshot::new(), &CapturedState::new());
    assert!(result.passed());

    let mut changed = CapturedState::new();
    changed.insert(p("d"), FilesystemState::Dir);
    changed.insert(p("a.txt"), FilesystemState::File(b"2".to_vec()));
    let result = ExecutionVerifier.verify(&plan, &log, &before, &changed, &FsSnapshot::new(), &CapturedState::new());
    assert!(!result.passed());
    assert!(result.summary.total_failed_checks >= 1);
}

use folder_agent::executor::{ExecutionStatus, Executor, IoOutcome, LogEntry, OperationLog, UndoConflict, UndoRecord, UndoStep};
use folder_agent::path::FsPath;
use folder_agent::snapshot::{FsSnapshot, PathStatus};

fn entry(id: &str, op: &str, src: &str, dst: &str, status: ExecutionStatus, undo: bool) -> LogEntry {
    LogEntry {
        id: id.to_string(),
        plan_id: "p1".to_string(),
        operation_type: op.to_string(),
        original_source: FsPath::parse(src),
        applied_target: FsPath::parse(dst),
        status,
        started_at: 100,
        completed_at: Some(101),
        error: None,
        undo_supported: undo,
    }
}

#[test]
fn test_execution_status_helpers() {
    assert!(ExecutionStatus::Success.is_success());
    assert!(ExecutionStatus::Failed("err".to_string()).is_failed());
    assert!(ExecutionStatus::Skipped("skip".to_string()).is_skipped());
    assert!(ExecutionStatus::Pending.is_pending());
}

#[test]
fn test_operation_log_counts() {
    let mut log = OperationLog::new("test-log");

    log.add_entry(LogEntry {
        id: "e1".to_string(),
        plan_id: "p1".to_string(),
        operation_type: "move".to_string(),
        original_source: FsPath::parse("/a"),
        applied_target: FsPath::parse("/b"),
        status: ExecutionStatus::Success,
        started_at: 100,
        completed_at: Some(101),
        error: None,
        undo_supported: true,
    });

    log.add_entry(LogEntry {
        id: "e2".to_string(),
        plan_id: "p1".to_string(),
        operation_type: "delete".to_string(),
        original_source: FsPath::parse("/c"),
        applied_target: FsPath::parse("/c"),
        status: ExecutionStatus::Failed("err".to_string()),
        started_at: 102,
        completed_at: Some(103),
        error: Some("err".to_string()),
        undo_supported: false,
    });

    log.add_entry(LogEntry {
        id: "e3".to_string(),
        plan_id: "p1".to_string(),
        operation_type: "create_dir".to_string(),
        original_source: FsPath::parse("/d"),
        applied_target: FsPath::parse("/d"),
        status: ExecutionStatus::Skipped("exists".to_string()),
        started_at: 104,
        completed_at: Some(105),
        error: Some("exists".to_string()),
        undo_supported: false,
    });

    log.finalize();

    assert_eq!(log.success_count, 1);
    assert_eq!(log.failure_count, 1);
    assert_eq!(log.skipped_count, 1);
    assert_eq!(log.total_entries, 3);
    assert_eq!(log.undoable_entries().len(), 1);
    assert_eq!(log.undo_unsupported_entries().len(), 0);
}

#[test]
fn test_undo_conflict_description() {
    let conflict = UndoConflict::SourceMissing {
        path: FsPath::parse("/tmp/test"),
        message: "Source no longer exists".to_string(),
    };
    let desc = conflict.description();
    assert!(desc.contains("Source no longer exists"));
    assert!(desc.contains("/tmp/test"));
}

#[test]
fn test_undo_empty_log() {
    let log = OperationLog::new("empty-log");
    let executor = Executor::default();
    let result = executor.undo(&log, &vec![], 0).unwrap();

    assert_eq!(result.total_undo_operations, 0);
    assert!(result.applied_undoes.is_empty());
    assert!(result.conflicts.is_empty());
}

#[test]
fn undo_step_reverses_a_move() {
    let executor = Executor::default();
    let e = entry("e1", "move", "/s/a.txt", "/s/Docs/a.txt", ExecutionStatus::Success, true);
    let mut fs = FsSnapshot::new();
    fs.record(FsPath::parse("/s/Docs/a.txt"), PathStatus::file());
    fs.record(FsPath::parse("/s"), PathStatus::dir());
    match executor.undo_step(&e, &fs) {
        UndoStep::Perform { source, dest, create_parent, .. } => {
            assert!(source.same_as(&FsPath::parse("/s/Docs/a.txt")));
            assert!(dest.same_as(&FsPath::parse("/s/a.txt")));
            assert!(create_parent.is_none());
        }
        other => panic!("expected a reversal, got {:?}", other),
    }
}

#[test]
fn undo_step_reports_missing_moved_file() {
    let executor = Executor::default();
    let e = entry("e1", "move", "/s/a.txt", "/s/Docs/a.txt", ExecutionStatus::Success, true);
    let fs = FsSnapshot::new();
    assert!(matches!(executor.undo_step(&e, &fs), UndoStep::Conflict(UndoConflict::SourceMissing { .. })));
}

#[test]
fn undo_step_reports_occupied_original_place() {
    let executor = Executor::default();
    let e = entry("e1", "move", "/s/a.txt", "/s/Docs/a.txt", ExecutionStatus::Success, true);
    let mut fs = FsSnapshot::new();
    fs.record(FsPath::parse("/s/Docs/a.txt"), PathStatus::file());
    fs.record(FsPath::parse("/s/a.txt"), PathStatus::file());
    assert!(matches!(executor.undo_step(&e, &fs), UndoStep::Conflict(UndoConflict::TargetExists { .. })));
}

#[test]
fn undo_collects_records_and_unsupported_entries() {
    let executor = Executor::default();
    let mut log = OperationLog::new("p1");
    log.add_entry(entry("e1", "move", "/s/a.txt", "/s/Docs/a.txt", ExecutionStatus::Success, true));
    log.add_entry(entry("e2", "delete", "/s/b.tmp", "/s/b.tmp", ExecutionStatus::Success, false));
    // the moved file is gone from its new place
    let record = UndoRecord { fs: FsSnapshot::new(), io: IoOutcome::Done };
    let result = executor.undo(&log, &vec![record], 77).unwrap();
    assert_eq!(result.total_undo_operations, 1);
    assert!(result.applied_undoes.is_empty());
    assert_eq!(result.conflicts.len(), 2);
    assert!(matches!(&result.conflicts[0], UndoConflict::SourceMissing { path, .. } if *path == FsPath::parse("/s/Docs/a.txt")));
    assert!(matches!(result.conflicts[1], UndoConflict::NotUndoable { .. }));
    assert_eq!(result.completed_at, 77);
}

#[test]
fn undo_reverses_a_move_and_records_the_outcome() {
    let executor = Executor::default();
    let mut log = OperationLog::new("p1");
    log.add_entry(entry("e1", "move", "/s/a.txt", "/s/Docs/a.txt", ExecutionStatus::Success, true));
    log.add_entry(entry("e2", "weird", "/s/c", "/s/d", ExecutionStatus::Success, true));
    let mut fs = FsSnapshot::new();
    fs.record(FsPath::parse("/s"), PathStatus::dir());
    fs.record(FsPath::parse("/s/Docs/a.txt"), PathStatus::file());
    let records = vec![
        UndoRecord { fs: fs.clone(), io: IoOutcome::Done },
        UndoRecord { fs, io: IoOutcome::Failed("ignored".to_string()) },
    ];
    let result = executor.undo(&log, &records, 9).unwrap();
    // one reversal attempted: the entry of unknown kind has none
    assert_eq!(result.total_undo_operations, 1);
    assert_eq!(result.applied_undoes.len(), 1);
    let u = &result.applied_undoes[0];
    assert_eq!(u.entry_id, "e1");
    assert_eq!(u.source, FsPath::parse("/s/Docs/a.txt"));
    assert_eq!(u.dest, FsPath::parse("/s/a.txt"));
    assert!(u.status.is_success());
    assert_eq!(result.conflicts.len(), 1);
    assert!(matches!(&result.conflicts[0], UndoConflict::NotUndoable { operation_type, .. } if operation_type == "weird"));
}

#[test]
fn undo_reports_a_failed_rename() {
    let executor = Executor::default();
    let mut log = OperationLog::new("p1");
    log.add_entry(entry("e1", "move", "/s/a.txt", "/s/Docs/a.txt", ExecutionStatus::Success, true));
    let mut fs = FsSnapshot::new();
    fs.record(FsPath::parse("/s"), PathStatus::dir());
    fs.record(FsPath::parse("/s/Docs/a.txt"), PathStatus::file());
    let result = executor.undo(&log, &vec![UndoRecord { fs, io: IoOutcome::Failed("denied".to_string()) }], 9).unwrap();
    assert_eq!(result.applied_undoes[0].status, ExecutionStatus::Failed("Undo rename failed: denied".to_string()));
    assert_eq!(result.applied_undoes[0].error, Some("Undo rename failed: denied".to_string()));
}

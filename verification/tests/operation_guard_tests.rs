use folder_agent::executor::{FsAction, IoOutcome};
use folder_agent::operation_guard::{
    guard_check, guard_conclude, ExecutionResult, FileMetadata, GuardStep, MetadataProbe, Precondition,
};
use folder_agent::path::FsPath;
use folder_agent::plan::FileSystemOperation;
use folder_agent::snapshot::{FsSnapshot, PathStatus};

#[test]
fn test_file_metadata_capture_nonexistent() {
    let probe = MetadataProbe::new();
    let meta = FileMetadata::capture(&FsPath::parse("/nonexistent/path/file.txt"), &probe);
    assert!(meta.is_none(), "Metadata should be None for nonexistent file");
}

#[test]
fn test_execution_result_variants() {
    assert!(ExecutionResult::Success.is_success());
    assert!(ExecutionResult::Conflict("test".to_string()).is_conflict());
    assert!(ExecutionResult::Failed("test".to_string()).is_failed());
}

fn move_op() -> FileSystemOperation {
    FileSystemOperation::Move { source: FsPath::parse("/s/a.txt"), dest: FsPath::parse("/s/b.txt") }
}

fn world(size: u64) -> (FsSnapshot, MetadataProbe) {
    let mut fs = FsSnapshot::new();
    fs.record(FsPath::parse("/s"), PathStatus::dir());
    fs.record(FsPath::parse("/s/a.txt"), PathStatus::file());
    let mut probe = MetadataProbe::new();
    probe.record(FsPath::parse("/s/a.txt"), FileMetadata { size, mtime_secs: 1000 });
    (fs, probe)
}

#[test]
fn precondition_capture_move_records_source_and_absent_dest() {
    let (fs, probe) = world(12);
    let pre = Precondition::capture(&move_op(), &fs, &probe);
    assert!(pre.source_existed);
    assert_eq!(pre.source_metadata, Some(FileMetadata { size: 12, mtime_secs: 1000 }));
    assert!(!pre.dest_existed);
    assert_eq!(pre.dest_metadata, None);
    assert!(pre.check_unchanged(&move_op(), &fs, &probe));
}

#[test]
fn precondition_detects_changed_size() {
    let (fs, probe) = world(12);
    let pre = Precondition::capture(&move_op(), &fs, &probe);
    let (fs2, probe2) = world(13);
    assert!(!pre.check_unchanged(&move_op(), &fs2, &probe2));
}

#[test]
fn guard_reports_conflict_when_state_drifted() {
    let (fs, probe) = world(12);
    let stored = Precondition::capture(&move_op(), &fs, &probe);
    let (fs2, probe2) = world(13);
    let current = Precondition::capture(&move_op(), &fs2, &probe2);
    match guard_check(&stored, &current, &move_op(), &fs2) {
        GuardStep::Settled(ExecutionResult::Conflict(m)) => {
            assert_eq!(
                m,
                "TOCTOU: Filesystem state changed between precondition capture and execution for move operation"
            );
        }
        other => panic!("expected a conflict, got {:?}", other),
    }
}

#[test]
fn guard_lets_unchanged_move_run() {
    let (fs, probe) = world(12);
    let stored = Precondition::capture(&move_op(), &fs, &probe);
    let current = Precondition::capture(&move_op(), &fs, &probe);
    assert_eq!(
        guard_check(&stored, &current, &move_op(), &fs),
        GuardStep::Perform(FsAction::Rename { create_parent: None })
    );
}

#[test]
fn guard_fails_delete_of_missing_target() {
    let op = FileSystemOperation::Delete { path: FsPath::parse("/s/gone.tmp"), reason: "temp".to_string() };
    let fs = FsSnapshot::new();
    let probe = MetadataProbe::new();
    let pre = Precondition::capture(&op, &fs, &probe);
    match guard_check(&pre, &pre, &op, &fs) {
        GuardStep::Settled(ExecutionResult::Failed(m)) => assert_eq!(m, "Delete target not found: /s/gone.tmp"),
        other => panic!("expected a failure, got {:?}", other),
    }
}

#[test]
fn guard_conclude_reports_io_failures() {
    assert_eq!(guard_conclude(&move_op(), &IoOutcome::Done), ExecutionResult::Success);
    assert_eq!(
        guard_conclude(&move_op(), &IoOutcome::Failed("denied".to_string())),
        ExecutionResult::Failed("Rename failed: denied".to_string())
    );
}

#[test]
fn test_precondition_capture_create_dir() {
    let op = FileSystemOperation::CreateDir { path: FsPath::parse("/tmp/guard/new_dir") };
    let mut fs = FsSnapshot::new();
    fs.record(FsPath::parse("/tmp/guard"), PathStatus::dir());
    let precondition = Precondition::capture(&op, &fs, &MetadataProbe::new());
    assert!(!precondition.dest_existed, "Path should not exist");
    assert!(precondition.dest_metadata.is_none(), "Dest metadata should be None");
}

#[test]
fn test_operation_guard_create_dir() {
    let op = FileSystemOperation::CreateDir { path: FsPath::parse("/tmp/guard/guarded_new_dir") };
    let mut fs = FsSnapshot::new();
    fs.record(FsPath::parse("/tmp/guard"), PathStatus::dir());
    let probe = MetadataProbe::new();
    let stored = Precondition::capture(&op, &fs, &probe);
    let current = Precondition::capture(&op, &fs, &probe);
    let step = guard_check(&stored, &current, &op, &fs);
    assert_eq!(step, GuardStep::Perform(FsAction::CreateDirAll));
    let result = guard_conclude(&op, &IoOutcome::Done);
    assert!(result.is_success(), "CreateDir should succeed under guard");
}

#[test]
fn guard_treats_existing_directory_as_created() {
    let op = FileSystemOperation::CreateDir { path: FsPath::parse("/tmp/guard/there") };
    let mut fs = FsSnapshot::new();
    fs.record(FsPath::parse("/tmp/guard/there"), PathStatus::dir());
    let probe = MetadataProbe::new();
    let pre = Precondition::capture(&op, &fs, &probe);
    assert_eq!(guard_check(&pre, &pre, &op, &fs), GuardStep::Settled(ExecutionResult::Success));
}

#[test]
fn appearing_destination_is_detected() {
    let (fs, probe) = world(12);
    let pre = Precondition::capture(&move_op(), &fs, &probe);
    let mut fs2 = FsSnapshot::new();
    fs2.record(FsPath::parse("/s"), PathStatus::dir());
    fs2.record(FsPath::parse("/s/a.txt"), PathStatus::file());
    fs2.record(FsPath::parse("/s/b.txt"), PathStatus::file());
    assert!(!pre.check_unchanged(&move_op(), &fs2, &probe));
}

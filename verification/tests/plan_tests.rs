use folder_agent::analysis::ContentType;
use folder_agent::path::FsPath;
use folder_agent::plan::{EstimatedImpact, FileSystemOperation, OperationPlan, PlanGenerator};

#[test]
fn test_plan_preview_no_operations() {
    let plan = OperationPlan {
        unresolved_proposals: Vec::new(),
        id: "test-plan".to_string(),
        recommendation_id: "test-rec".to_string(),
        scope: FsPath::parse("/tmp"),
        operations: Vec::new(),
        estimated_impact: EstimatedImpact {
            files_moved: 0,
            dirs_created: 0,
            files_deleted: 0,
            dirs_affected: 0,
            total_bytes: 0,
        },
        validation_warnings: Vec::new(),
        has_conflicts: false,
        dry_run: true,
        created_at: 0,
        validation_context: None,
    };

    let generator = PlanGenerator;
    let preview = generator.preview(&plan);
    assert!(preview.contains("No operations proposed"));
}

#[test]
fn test_plan_scope_validation() {
    let plan = OperationPlan {
        unresolved_proposals: Vec::new(),
        id: "test-plan".to_string(),
        recommendation_id: "test-rec".to_string(),
        scope: FsPath::parse("/tmp/scope"),
        operations: vec![FileSystemOperation::CreateDir { path: FsPath::parse("/tmp/scope/new_dir") }],
        estimated_impact: EstimatedImpact {
            files_moved: 0,
            dirs_created: 1,
            files_deleted: 0,
            dirs_affected: 1,
            total_bytes: 0,
        },
        validation_warnings: Vec::new(),
        has_conflicts: false,
        dry_run: true,
        created_at: 0,
        validation_context: None,
    };

    let generator = PlanGenerator;
    let preview = generator.preview(&plan);
    assert!(preview.contains("new_dir"));
    assert!(preview.contains("Dry run: Yes"));
}

#[test]
fn test_plan_file_system_operation_types() {
    let move_op = FileSystemOperation::Move { source: FsPath::parse("/src/a.txt"), dest: FsPath::parse("/dest/a.txt") };
    assert_eq!(move_op.operation_type(), "move");
    assert!(move_op.description().contains("→"));

    let mkdir_op = FileSystemOperation::CreateDir { path: FsPath::parse("/new") };
    assert_eq!(mkdir_op.operation_type(), "create_dir");

    let delete_op = FileSystemOperation::Delete { path: FsPath::parse("/old"), reason: "cleanup".to_string() };
    assert_eq!(delete_op.operation_type(), "delete");
}

#[test]
fn test_category_to_human_name_mapping() {
    let generator = PlanGenerator;

    assert_eq!(generator.category_to_human_name("document_storage"), "Documents");
    assert_eq!(generator.category_to_human_name("image_storage"), "Images");
    assert_eq!(generator.category_to_human_name("archive_storage"), "Archives");
    assert_eq!(generator.category_to_human_name("code_storage"), "Code");
    assert_eq!(generator.category_to_human_name("media_storage"), "Media");
    assert_eq!(generator.category_to_human_name("installer_storage"), "Installers");
    assert_eq!(generator.category_to_human_name("data_storage"), "Data");
    assert_eq!(generator.category_to_human_name("config_storage"), "Config");
    assert_eq!(generator.category_to_human_name("misc_storage"), "Misc");
}

#[test]
fn test_parse_content_type() {
    let generator = PlanGenerator;

    assert_eq!(generator.parse_content_type("documents"), ContentType::Documents);
    assert_eq!(generator.parse_content_type("images"), ContentType::Images);
    assert_eq!(generator.parse_content_type("code"), ContentType::Code);
    assert_eq!(generator.parse_content_type("unknown"), ContentType::Other);
}

#[test]
fn test_content_type_extensions_non_empty() {
    let generator = PlanGenerator;

    for ct in &[
        ContentType::Documents,
        ContentType::Images,
        ContentType::Archives,
        ContentType::Media,
        ContentType::Code,
        ContentType::Installers,
        ContentType::Data,
        ContentType::Config,
    ] {
        assert!(!generator.content_type_extensions(*ct).is_empty());
    }
}

#[test]
fn move_description_names_both_paths() {
    let move_op = FileSystemOperation::Move { source: FsPath::parse("/src/a.txt"), dest: FsPath::parse("/dest/a.txt") };
    let d = move_op.description();
    assert!(d.contains("/src/a.txt"));
    assert!(d.contains("/dest/a.txt"));
}

#[test]
fn unknown_category_keeps_its_name() {
    let generator = PlanGenerator;
    assert_eq!(generator.category_to_human_name("Author A"), "Author A");
}

#[test]
fn validate_operations_rejects_move_out_of_scope() {
    let generator = PlanGenerator;
    let ops = vec![FileSystemOperation::Move { source: FsPath::parse("/tmp/scope/a.txt"), dest: FsPath::parse("/etc/a.txt") }];
    assert!(generator.validate_operations(&ops, &FsPath::parse("/tmp/scope")).is_err());
}

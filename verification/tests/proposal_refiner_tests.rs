use folder_agent::path::FsPath;
use folder_agent::plan::FileSystemOperation;
use folder_agent::proposal_converter::ProposalConverter;
use folder_agent::proposal_refiner::{ProposalRefinement, ProposalRefinementError, ProposalRefiner};
use folder_agent::recommendation::{OrganizationProposal, ProposedCategory, RecommendationStrategy};
use folder_agent::snapshot::{FsSnapshot, PathStatus};

const CONFIDENCE_0_9: u64 = 0x3FEC_CCCC_CCCC_CCCD;

fn scope() -> FsPath {
    FsPath::parse("/tmp/refiner/scope")
}

fn make_test_proposal(scope: &FsPath) -> OrganizationProposal {
    OrganizationProposal {
        strategy: RecommendationStrategy::ByAuthor,
        rationale: "test rationale".to_string(),
        proposed_categories: vec![
            ProposedCategory {
                name: "Author A".to_string(),
                purpose: "Works by Author A".to_string(),
                target_content_types: vec!["cbz".to_string()],
                confidence_bits: CONFIDENCE_0_9,
                is_existing: false,
                target_path: None,
                source_files: vec![scope.join_str("Manga1.cbz")],
            },
            ProposedCategory {
                name: "Author B".to_string(),
                purpose: "Works by Author B".to_string(),
                target_content_types: vec!["cbz".to_string()],
                confidence_bits: CONFIDENCE_0_9,
                is_existing: false,
                target_path: None,
                source_files: vec![scope.join_str("Manga2.cbz")],
            },
        ],
        evidence_gaps: vec![],
        ambiguities: vec![],
    }
}

#[test]
fn test_1_rename_category() {
    let proposal = make_test_proposal(&scope());
    let refinement = ProposalRefinement::RenameCategory { from: "Author A".to_string(), to: "作者A".to_string() };

    let refiner = ProposalRefiner;
    let revised = refiner.refine(&proposal, &refinement).unwrap();

    assert_eq!(revised.proposed_categories.len(), 2);
    assert!(revised.proposed_categories.iter().any(|c| c.name == "作者A"));
    assert!(revised.proposed_categories.iter().any(|c| c.name == "Author B"));
    assert!(!revised.proposed_categories.iter().any(|c| c.name == "Author A"));
}

#[test]
fn test_2_remove_category() {
    let s = scope();
    let proposal = make_test_proposal(&s);
    let refinement = ProposalRefinement::RemoveCategory { name: "Author B".to_string() };

    let refiner = ProposalRefiner;
    let revised = refiner.refine(&proposal, &refinement).unwrap();

    assert_eq!(revised.proposed_categories.len(), 1);
    assert!(revised.proposed_categories.iter().any(|c| c.name == "Author A"));
    assert!(!revised.proposed_categories.iter().any(|c| c.name == "Author B"));
    let author_a = revised.proposed_categories.iter().find(|c| c.name == "Author A").unwrap();
    assert!(!author_a.source_files.contains(&s.join_str("Manga2.cbz")));
}

#[test]
fn test_3_add_category() {
    let proposal = make_test_proposal(&scope());
    let refinement =
        ProposalRefinement::AddCategory { name: "Author C".to_string(), purpose: "Works by Author C".to_string() };

    let refiner = ProposalRefiner;
    let revised = refiner.refine(&proposal, &refinement).unwrap();

    assert_eq!(revised.proposed_categories.len(), 3);
    assert!(revised.proposed_categories.iter().any(|c| c.name == "Author C"));
    let author_c = revised.proposed_categories.iter().find(|c| c.name == "Author C").unwrap();
    assert!(author_c.source_files.is_empty());
}

#[test]
fn test_4_move_file_between_categories() {
    let s = scope();
    let proposal = make_test_proposal(&s);
    let manga1 = s.join_str("Manga1.cbz");

    let refinement =
        ProposalRefinement::MoveFileToCategory { file: manga1.clone(), category: "Author B".to_string() };

    let refiner = ProposalRefiner;
    let revised = refiner.refine(&proposal, &refinement).unwrap();

    let author_a = revised.proposed_categories.iter().find(|c| c.name == "Author A").unwrap();
    let author_b = revised.proposed_categories.iter().find(|c| c.name == "Author B").unwrap();

    assert!(!author_a.source_files.contains(&manga1));
    assert!(author_b.source_files.contains(&manga1));

    let count = revised.proposed_categories.iter().filter(|c| c.source_files.contains(&manga1)).count();
    assert_eq!(count, 1);
}

#[test]
fn test_5_unknown_category_rejected() {
    let proposal = make_test_proposal(&scope());
    let refiner = ProposalRefiner;

    let refinement = ProposalRefinement::RenameCategory { from: "NonExistent".to_string(), to: "NewName".to_string() };
    let result = refiner.refine(&proposal, &refinement);
    assert!(result.is_err());
    assert_eq!(result.unwrap_err(), ProposalRefinementError::CategoryNotFound("NonExistent".to_string()));

    let refinement = ProposalRefinement::RemoveCategory { name: "NonExistent".to_string() };
    let result = refiner.refine(&proposal, &refinement);
    assert!(result.is_err());
    assert_eq!(result.unwrap_err(), ProposalRefinementError::CategoryNotFound("NonExistent".to_string()));
}

#[test]
fn test_6_unknown_file_rejected() {
    let proposal = make_test_proposal(&scope());
    let refinement = ProposalRefinement::MoveFileToCategory {
        file: FsPath::parse("MissingFile.cbz"),
        category: "Author B".to_string(),
    };

    let refiner = ProposalRefiner;
    let result = refiner.refine(&proposal, &refinement);
    assert!(result.is_err());
    assert!(matches!(result.unwrap_err(), ProposalRefinementError::FileNotFound(_)));
}

#[test]
fn test_7_duplicate_file_assignment_rejected() {
    let s = scope();
    let proposal = make_test_proposal(&s);
    let manga2 = s.join_str("Manga2.cbz");

    let refinement = ProposalRefinement::MoveFileToCategory { file: manga2.clone(), category: "Author B".to_string() };

    let refiner = ProposalRefiner;
    let result = refiner.refine(&proposal, &refinement);
    assert!(result.is_err());
    assert!(matches!(result.unwrap_err(), ProposalRefinementError::FileAlreadyInCategory { .. }));
}

#[test]
fn test_8_original_proposal_remains_unchanged() {
    let original = make_test_proposal(&scope());
    let original_clone = original.clone();

    let refiner = ProposalRefiner;
    let refined = refiner
        .refine(&original, &ProposalRefinement::RenameCategory { from: "Author A".to_string(), to: "作者A".to_string() })
        .unwrap();

    assert_eq!(original, original_clone);
    assert_ne!(original, refined);
    assert!(refined.proposed_categories.iter().any(|c| c.name == "作者A"));
}

#[test]
fn test_9_revised_proposal_passes_proposal_converter() {
    let s = scope();
    let mut fs = FsSnapshot::new();
    fs.record(s.copy(), PathStatus::dir());
    fs.record(s.join_str("Manga1.cbz"), PathStatus::file());
    fs.record(s.join_str("Manga2.cbz"), PathStatus::file());

    let proposal = make_test_proposal(&s);

    let refiner = ProposalRefiner;
    let refined = refiner
        .refine(&proposal, &ProposalRefinement::RenameCategory { from: "Author A".to_string(), to: "作者A".to_string() })
        .unwrap();

    let converter = ProposalConverter;
    let result = converter.convert(&refined, &vec![], &s, &fs);
    assert!(result.is_ok());
    let (ops, unresolved) = result.unwrap();
    assert!(ops.iter().any(|op| matches!(op, FileSystemOperation::CreateDir { .. })));
    assert!(unresolved.is_empty());
}

#[test]
fn refinement_error_messages() {
    assert_eq!(
        ProposalRefinementError::CategoryNotFound("X".to_string()).message(),
        "Category not found: X"
    );
    assert_eq!(
        ProposalRefinementError::CategoryAlreadyExists("Y".to_string()).message(),
        "Category already exists: Y"
    );
}

#[test]
fn rename_then_rename_back_restores_names() {
    let proposal = make_test_proposal(&scope());
    let refiner = ProposalRefiner;
    let there = refiner
        .refine(&proposal, &ProposalRefinement::RenameCategory { from: "Author A".to_string(), to: "Z".to_string() })
        .unwrap();
    let back = refiner
        .refine(&there, &ProposalRefinement::RenameCategory { from: "Z".to_string(), to: "Author A".to_string() })
        .unwrap();
    assert_eq!(back, proposal);
}

#[test]
fn add_then_remove_restores_proposal() {
    let proposal = make_test_proposal(&scope());
    let refiner = ProposalRefiner;
    let added = refiner
        .refine(&proposal, &ProposalRefinement::AddCategory { name: "New".to_string(), purpose: "p".to_string() })
        .unwrap();
    let removed = refiner.refine(&added, &ProposalRefinement::RemoveCategory { name: "New".to_string() }).unwrap();
    assert_eq!(removed, proposal);
}

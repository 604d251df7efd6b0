use folder_agent::path::FsPath;
use folder_agent::plan::{FileSystemOperation, PlanGenerator};
use folder_agent::proposal_converter::{ProposalConverter, UnresolvedReason};
use folder_agent::recommendation::{
    OrganizationProposal, ProposedCategory, ProposedOperation, Recommendation, RecommendationStrategy,
};
use folder_agent::snapshot::{FsSnapshot, PathStatus};

const SCOPE: &str = "/tmp/gen/downloads";

fn s(rel: &str) -> FsPath {
    FsPath::parse(SCOPE).join_str(rel)
}

fn recommendation(ops: Vec<ProposedOperation>, proposal: Option<OrganizationProposal>) -> Recommendation {
    Recommendation {
        id: "rec-7".to_string(),
        strategy: RecommendationStrategy::CategoryBased,
        strategy_info: None,
        rationale: "test".to_string(),
        proposed_categories: vec![],
        proposed_operations: ops,
        unresolved_questions: vec![],
        confidence_bits: 0,
        constraint_checks: vec![],
        constraint_violation: None,
        warnings: vec![],
        generated_at: 0,
        organization_proposal: proposal,
    }
}

fn category(name: &str, files: Vec<FsPath>) -> ProposedCategory {
    ProposedCategory {
        name: name.to_string(),
        purpose: name.to_string(),
        target_content_types: vec![],
        confidence_bits: 0,
        is_existing: false,
        target_path: None,
        source_files: files,
    }
}

fn disk() -> FsSnapshot {
    let mut fs = FsSnapshot::new();
    fs.record(FsPath::parse(SCOPE), PathStatus::dir());
    fs.record(s("a.pdf"), PathStatus::file());
    fs.record(s("b.pdf"), PathStatus::file());
    fs.record(s("c.txt"), PathStatus::file());
    fs
}

#[test]
fn generated_plan_moves_documents_inside_scope() {
    let rec = recommendation(
        vec![
            ProposedOperation::CreateCategory { name: "document_storage".to_string(), purpose: "docs".to_string() },
            ProposedOperation::MoveCategory {
                strategy: "category".to_string(),
                content_type: "documents".to_string(),
                file_count: 2,
                to_category: "document_storage".to_string(),
            },
        ],
        None,
    );
    let sample = vec!["a.pdf".to_string(), "b.pdf".to_string(), "c.txt".to_string()];
    let plan = PlanGenerator
        .generate_at(&rec, &FsPath::parse(SCOPE), &vec![], &sample, false, &disk(), 42)
        .expect("should generate");

    assert_eq!(plan.id, "plan-42");
    assert_eq!(plan.recommendation_id, "rec-7");
    assert!(plan.dry_run);
    assert_eq!(
        plan.operations,
        vec![
            FileSystemOperation::CreateDir { path: s("Documents") },
            FileSystemOperation::Move { source: s("a.pdf"), dest: s("Documents/a.pdf") },
            FileSystemOperation::Move { source: s("b.pdf"), dest: s("Documents/b.pdf") },
            // txt counts as a document extension
            FileSystemOperation::Move { source: s("c.txt"), dest: s("Documents/c.txt") },
        ]
    );
    for op in &plan.operations {
        if let Some(d) = op.dest_path() {
            assert!(d.starts_with(&FsPath::parse(SCOPE)));
        }
    }
    assert_eq!(plan.estimated_impact.files_moved, 3);
    assert_eq!(plan.estimated_impact.dirs_created, 1);
}

#[test]
fn converter_never_moves_two_files_onto_one_destination() {
    let proposal = OrganizationProposal {
        strategy: RecommendationStrategy::ByAuthor,
        rationale: "r".to_string(),
        proposed_categories: vec![
            category("Author A", vec![s("a.pdf"), s("a.pdf")]),
            category("Author B", vec![s("b.pdf"), s("x/a.pdf")]),
        ],
        evidence_gaps: vec![],
        ambiguities: vec![],
    };
    let mut fs = disk();
    fs.record(s("x/a.pdf"), PathStatus::file());
    let (ops, unresolved) = ProposalConverter.convert(&proposal, &vec![], &FsPath::parse(SCOPE), &fs).unwrap();

    let mut dests = Vec::new();
    for op in &ops {
        if let FileSystemOperation::Move { dest, .. } = op {
            assert!(!dests.contains(dest), "two moves onto {:?}", dest);
            dests.push(dest.clone());
        }
    }
    assert_eq!(dests.len(), 3);
    assert!(unresolved.is_empty());
    let creates = ops.iter().filter(|o| matches!(o, FileSystemOperation::CreateDir { .. })).count();
    assert_eq!(creates, 2);
}

#[test]
fn converter_reports_contested_file_as_ambiguous() {
    let proposal = OrganizationProposal {
        strategy: RecommendationStrategy::ByAuthor,
        rationale: "r".to_string(),
        proposed_categories: vec![category("Author A", vec![s("a.pdf")]), category("Author B", vec![s("a.pdf")])],
        evidence_gaps: vec![],
        ambiguities: vec![],
    };
    let (ops, unresolved) = ProposalConverter.convert(&proposal, &vec![], &FsPath::parse(SCOPE), &disk()).unwrap();
    assert!(ops.is_empty());
    assert_eq!(unresolved.len(), 2);
    assert!(unresolved.iter().all(|u| u.reason == UnresolvedReason::Ambiguous));
}

#[test]
fn test_11_conflicting_destination_on_filesystem_rejected() {
    let scope = "/tmp/gen11/scope";
    let sp = |rel: &str| FsPath::parse(scope).join_str(rel);
    let mut fs = FsSnapshot::new();
    fs.record(FsPath::parse(scope), PathStatus::dir());
    fs.record(sp("Manga1.cbz"), PathStatus::file());
    let author_dir = sp("Author A");
    fs.record(author_dir.clone(), PathStatus::dir());
    fs.record(author_dir.join_str("Manga1.cbz"), PathStatus::file());

    let candidates = vec![folder_agent::analysis::CandidateCategory {
        name: "Author A".to_string(),
        path: author_dir.clone(),
        file_count: 1,
        is_existing: true,
    }];
    let proposal = OrganizationProposal {
        strategy: RecommendationStrategy::ByAuthor,
        rationale: "test".to_string(),
        proposed_categories: vec![ProposedCategory {
            name: "Author A".to_string(),
            purpose: "A".to_string(),
            target_content_types: vec![],
            confidence_bits: 0,
            is_existing: true,
            target_path: Some(author_dir.clone()),
            source_files: vec![sp("Manga1.cbz")],
        }],
        evidence_gaps: vec![],
        ambiguities: vec![],
    };

    let (ops, unresolved) = ProposalConverter.convert(&proposal, &candidates, &FsPath::parse(scope), &fs).unwrap();
    assert!(ops.is_empty(), "Must not overwrite existing destination file");
    assert_eq!(unresolved.len(), 1);
    assert_eq!(unresolved[0].reason, UnresolvedReason::ConflictingDestination);
}

#[test]
fn converter_moves_when_destination_is_free() {
    let scope = "/tmp/gen11b/scope";
    let sp = |rel: &str| FsPath::parse(scope).join_str(rel);
    let mut fs = FsSnapshot::new();
    fs.record(FsPath::parse(scope), PathStatus::dir());
    fs.record(sp("Manga1.cbz"), PathStatus::file());
    fs.record(sp("Author A"), PathStatus::dir());
    let proposal = OrganizationProposal {
        strategy: RecommendationStrategy::ByAuthor,
        rationale: "test".to_string(),
        proposed_categories: vec![category("Author A", vec![sp("Manga1.cbz")])],
        evidence_gaps: vec![],
        ambiguities: vec![],
    };
    let (ops, unresolved) = ProposalConverter.convert(&proposal, &vec![], &FsPath::parse(scope), &fs).unwrap();
    assert!(unresolved.is_empty());
    assert_eq!(ops, vec![FileSystemOperation::Move { source: sp("Manga1.cbz"), dest: sp("Author A/Manga1.cbz") }]);
}

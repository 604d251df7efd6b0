use folder_agent::analysis::{CandidateCategory, ContentGroup, ContentType, EvidenceGap, GapType};
use folder_agent::intent::{ConstraintSet, Goal, TaskIntent, UserHints};
use folder_agent::path::FsPath;
use folder_agent::recommendation::{
    AnalysisFindings, ClassificationDecision, ClassificationOutcome, LlmOrganizationStrategy, ProposedOperation,
    RationaleFacts, RecommendationEngine, RecommendationError, RecommendationStrategy, RecommendationWarning,
    SuggestedStrategy,
};

fn intent_with(purpose: &str, constraints: ConstraintSet) -> TaskIntent {
    TaskIntent {
        goal: Goal::Organize { scope: FsPath::parse("/tmp/rec/downloads"), purpose: purpose.to_string() },
        constraints,
        user_hints: UserHints::new(),
        unknown_factors: Vec::new(),
    }
}

fn groups() -> Vec<ContentGroup> {
    vec![
        ContentGroup { extension: "pdf".to_string(), file_count: 2, total_size: 10, category: ContentType::Documents },
        ContentGroup { extension: "jpg".to_string(), file_count: 3, total_size: 30, category: ContentType::Images },
    ]
}

fn candidates() -> Vec<CandidateCategory> {
    vec![CandidateCategory {
        name: "documents".to_string(),
        path: FsPath::parse("/tmp/rec/downloads/documents"),
        file_count: 2,
        is_existing: true,
    }]
}

fn outcome(decision: ClassificationDecision, selected: Option<&str>, name: Option<&str>) -> Option<ClassificationOutcome> {
    Some(ClassificationOutcome {
        decision,
        selected_candidate: selected.map(FsPath::parse),
        proposed_category_name: name.map(|s| s.to_string()),
    })
}

#[test]
fn leave_unclassified_proposes_nothing() {
    let engine = RecommendationEngine::default();
    let intent = intent_with("by_category", ConstraintSet::default());
    let ops = engine.generate_operations(
        &intent,
        &outcome(ClassificationDecision::LeaveUnclassified, None, None),
        &candidates(),
        &groups(),
    );
    assert!(ops.is_empty(), "LeaveUnclassified must produce zero mutations");
}

#[test]
fn ask_user_proposes_nothing() {
    let engine = RecommendationEngine::default();
    let intent = intent_with("by_category", ConstraintSet::default());
    let ops =
        engine.generate_operations(&intent, &outcome(ClassificationDecision::AskUser, None, None), &candidates(), &groups());
    assert!(ops.is_empty(), "AskUser must produce zero mutations");
}

#[test]
fn missing_classification_proposes_nothing() {
    let engine = RecommendationEngine::default();
    let intent = intent_with("by_category", ConstraintSet::default());
    let ops = engine.generate_operations(&intent, &None, &candidates(), &groups());
    assert!(ops.is_empty(), "No classification result must not fall back to content types");
}

#[test]
fn move_existing_moves_every_group_into_the_candidate() {
    let engine = RecommendationEngine::default();
    let intent = intent_with("by_category", ConstraintSet::default());
    let ops = engine.generate_operations(
        &intent,
        &outcome(ClassificationDecision::MoveExisting, Some("/tmp/rec/downloads/documents"), None),
        &candidates(),
        &groups(),
    );
    assert_eq!(ops.len(), 3);
    assert_eq!(
        ops[0],
        ProposedOperation::MoveCategory {
            strategy: "category".to_string(),
            content_type: "pdf".to_string(),
            file_count: 2,
            to_category: "documents".to_string(),
        }
    );
    assert_eq!(ops[2], ProposedOperation::PreserveDirectory { path: FsPath::parse("/tmp/rec/downloads/documents") });
}

#[test]
fn create_category_normalizes_the_name() {
    let engine = RecommendationEngine::default();
    let intent = intent_with("by_category", ConstraintSet::default());
    let ops = engine.generate_operations(
        &intent,
        &outcome(ClassificationDecision::CreateCategory, None, Some("Projects")),
        &candidates(),
        &groups(),
    );
    assert_eq!(ops[0], ProposedOperation::CreateCategory { name: "projects".to_string(), purpose: "Projects".to_string() });
    assert_eq!(ops.len(), 3);
}

#[test]
fn normalize_category_name_lowercases_and_joins() {
    assert_eq!(RecommendationEngine::normalize_category_name("My Work-Files"), "my_work_files");
}

#[test]
fn temp_archive_is_blocked_without_auto_delete() {
    let engine = RecommendationEngine::default();
    let intent = intent_with("by_category", ConstraintSet::default());
    let mut ops = vec![
        ProposedOperation::ArchiveFiles { category: "temp_files".to_string(), file_count: 2 },
        ProposedOperation::CreateCategory { name: "docs".to_string(), purpose: "Docs".to_string() },
    ];
    let (checks, violation) = engine.enforce_constraints(&intent, &mut ops);
    let v = violation.expect("a violation");
    assert_eq!(v.constraint, "auto_delete_temps");
    assert_eq!(v.blocked_operations, vec!["Archive 2 files under temp_files".to_string()]);
    assert_eq!(ops.len(), 1);
    assert!(matches!(ops[0], ProposedOperation::CreateCategory { .. }));
    assert!(!checks.is_empty());
}

#[test]
fn temp_archive_is_kept_with_auto_delete() {
    let engine = RecommendationEngine::default();
    let mut c = ConstraintSet::default();
    c.auto_delete_temps = true;
    let intent = intent_with("by_category", c);
    let mut ops = vec![ProposedOperation::ArchiveFiles { category: "temp_files".to_string(), file_count: 2 }];
    let (_checks, violation) = engine.enforce_constraints(&intent, &mut ops);
    assert!(violation.is_none());
    assert_eq!(ops.len(), 1);
}

#[test]
fn llm_strategy_wins_over_purpose() {
    let engine = RecommendationEngine::default();
    let intent = intent_with("by_category", ConstraintSet::default());
    assert_eq!(
        engine.determine_strategy(&intent, Some(LlmOrganizationStrategy::ByAuthor)),
        RecommendationStrategy::ByAuthor
    );
    assert_eq!(engine.determine_strategy(&intent, None), RecommendationStrategy::CategoryBased);
}

#[test]
fn questions_are_capped_by_the_limit() {
    let engine = RecommendationEngine::default();
    let mut c = ConstraintSet::default();
    c.max_interactive_questions = 1;
    let intent = intent_with("general_organization", c);
    let gaps = vec![
        EvidenceGap { gap_type: GapType::Taxonomy, description: "a".to_string(), requires_user_input: true },
        EvidenceGap { gap_type: GapType::FileDisposition, description: "b".to_string(), requires_user_input: true },
    ];
    let qs = engine.generate_questions(&intent, &gaps);
    assert_eq!(qs.len(), 1);
    assert_eq!(qs[0].id, "q1");
    assert_eq!(qs[0].question, "What category structure do you prefer?");
    assert_eq!(qs[0].context, "a");
}

#[test]
fn strategy_name_follows_purpose() {
    let engine = RecommendationEngine::default();
    assert_eq!(engine.strategy_name(&intent_with("by_category", ConstraintSet::default())), "category");
}

#[test]
fn rationale_reports_analysis_and_strategy() {
    let engine = RecommendationEngine::default();
    let intent = intent_with("by_category", ConstraintSet::default());
    let facts = RationaleFacts {
        scope: FsPath::parse("/tmp/rec/downloads"),
        total_files: 7,
        total_directories: 2,
        content_groups: 3,
        ambiguities: 1,
        evidence_gaps: vec![
            EvidenceGap { gap_type: GapType::Taxonomy, description: "a".to_string(), requires_user_input: true },
            EvidenceGap { gap_type: GapType::FileDisposition, description: "b".to_string(), requires_user_input: true },
        ],
        strategy_reason: Some("mostly documents".to_string()),
        confidence_percent: "85".to_string(),
    };
    let r = engine.build_rationale(&intent, &RecommendationStrategy::CategoryBased, 2, &facts);
    assert_eq!(
        r,
        "Analyzed /tmp/rec/downloads directory (7 files, 2 subdirectories). Detected 3 content type groups. \
         Strategy: category-based (purpose: by_category). Strategy reason: mostly documents. Proposed 2 categories. \
         Classification confidence: 85%. 1 ambiguities and 2 evidence gaps require attention. Evidence gaps: a; b."
    );
}

#[test]
fn validate_analysis_checks_scope_and_content() {
    let engine = RecommendationEngine::default();
    let intent = intent_with("by_category", ConstraintSet::default());
    assert_eq!(
        engine.validate_analysis(&intent, &FsPath::parse("/elsewhere"), &groups()),
        Err(RecommendationError::ScopeMismatch)
    );
    assert_eq!(
        engine.validate_analysis(&intent, &FsPath::parse("/tmp/rec/downloads"), &vec![]),
        Err(RecommendationError::NoContentGroups)
    );
    assert_eq!(engine.validate_analysis(&intent, &FsPath::parse("/tmp/rec/downloads"), &groups()), Ok(()));
}

#[test]
fn propose_categories_for_new_category() {
    let engine = RecommendationEngine::default();
    let cats = engine.propose_categories(
        &outcome(ClassificationDecision::CreateCategory, None, Some("My Projects")),
        0x3FE0_0000_0000_0000,
        &candidates(),
        &groups(),
    );
    assert_eq!(cats.len(), 1);
    assert_eq!(cats[0].name, "my_projects");
    assert_eq!(cats[0].purpose, "My Projects");
    assert_eq!(cats[0].target_content_types, vec!["pdf".to_string(), "jpg".to_string()]);
    assert_eq!(f64::from_bits(cats[0].confidence_bits), 0.5);
    assert!(!cats[0].is_existing);
    assert!(cats[0].target_path.is_none());
}

fn findings(scope: &str, groups: Vec<ContentGroup>) -> AnalysisFindings {
    AnalysisFindings {
        scope: FsPath::parse(scope),
        total_files: 5,
        total_directories: 1,
        content_groups: groups,
        candidate_categories: candidates(),
        classification: outcome(ClassificationDecision::CreateCategory, None, Some("Projects")),
        classification_confidence_bits: 0x3FE0_0000_0000_0000,
        organization_strategy: Some(SuggestedStrategy {
            strategy: LlmOrganizationStrategy::ByYear,
            confidence_bits: 0,
            reason: Some("dates in names".to_string()),
        }),
        organization_proposal: None,
        ambiguities: vec![],
        evidence_gaps: vec![],
    }
}

#[test]
fn recommend_assembles_the_recommendation() {
    let engine = RecommendationEngine::default();
    let intent = intent_with("by_category", ConstraintSet::default());
    let rec = engine
        .recommend(
            &intent,
            findings("/tmp/rec/downloads", groups()),
            vec![RecommendationWarning::LowEvidence],
            0x3FE8_0000_0000_0000,
            "50".to_string(),
            5,
        )
        .expect("should recommend");
    assert_eq!(rec.id, "rec-5");
    assert_eq!(rec.strategy, RecommendationStrategy::ByYear);
    assert_eq!(rec.proposed_categories.len(), 1);
    assert_eq!(rec.proposed_categories[0].name, "projects");
    assert_eq!(rec.proposed_operations.len(), 3);
    assert!(rec.constraint_violation.is_none());
    assert_eq!(rec.constraint_checks.len(), 4);
    assert_eq!(rec.warnings, vec![RecommendationWarning::LowEvidence]);
    assert_eq!(f64::from_bits(rec.confidence_bits), 0.75);
    assert_eq!(rec.generated_at, 5);
    let info = rec.strategy_info.expect("strategy info");
    assert_eq!(info.strategy, RecommendationStrategy::ByYear);
    assert_eq!(info.reason, Some("dates in names".to_string()));
    assert!(rec.rationale.starts_with("Analyzed /tmp/rec/downloads directory (5 files, 1 subdirectories)."));
    assert!(rec.rationale.contains("Strategy: by-year (purpose: by_category). Strategy reason: dates in names."));
    assert!(rec.rationale.contains("Classification confidence: 50%."));
}

#[test]
fn recommend_rejects_other_scope_and_empty_content() {
    let engine = RecommendationEngine::default();
    let intent = intent_with("by_category", ConstraintSet::default());
    let r = engine.recommend(&intent, findings("/tmp/other", groups()), vec![], 0, "50".to_string(), 5);
    assert_eq!(r.unwrap_err(), RecommendationError::ScopeMismatch);
    let r = engine.recommend(&intent, findings("/tmp/rec/downloads", vec![]), vec![], 0, "50".to_string(), 5);
    assert_eq!(r.unwrap_err(), RecommendationError::NoContentGroups);
}

const DOWNLOADS: &str = "/tmp/rec/downloads";

fn parsed(request: &str) -> TaskIntent {
    let env = folder_agent::intent::ScopeEnv {
        user_profile: None,
        home: None,
        dirs: folder_agent::snapshot::FsSnapshot::new(),
    };
    folder_agent::intent::TaskIntentParser::new(FsPath::parse(DOWNLOADS)).parse(request, &env).expect("should parse")
}

/// What analysis finds in the downloads scope: documents, images, an archive,
/// a text file and a temporary file, with the existing documents folder
/// chosen by the classifier.
fn downloads_findings(intent: &TaskIntent) -> AnalysisFindings {
    let scope = intent.goal.scope();
    AnalysisFindings {
        scope,
        total_files: 7,
        total_directories: 2,
        content_groups: vec![
            ContentGroup { extension: "pdf".to_string(), file_count: 1, total_size: 7, category: ContentType::Documents },
            ContentGroup { extension: "jpg".to_string(), file_count: 1, total_size: 3, category: ContentType::Images },
            ContentGroup { extension: "zip".to_string(), file_count: 1, total_size: 4, category: ContentType::Archives },
            ContentGroup { extension: "tmp".to_string(), file_count: 1, total_size: 4, category: ContentType::Other },
        ],
        candidate_categories: candidates(),
        classification: outcome(ClassificationDecision::MoveExisting, Some("/tmp/rec/downloads/documents"), None),
        classification_confidence_bits: 0x3FE0_0000_0000_0000,
        organization_strategy: None,
        organization_proposal: None,
        ambiguities: vec![],
        evidence_gaps: vec![],
    }
}

fn recommend_for(intent: &TaskIntent) -> folder_agent::recommendation::Recommendation {
    RecommendationEngine::default()
        .recommend(intent, downloads_findings(intent), vec![], 0, "50".to_string(), 1)
        .expect("should recommend")
}

#[test]
fn test_constraint_preserve_existing_folders() {
    let intent = parsed("Organize by category, preserve existing folders");
    assert!(intent.constraints.preserve_existing_folders);
    let recommendation = recommend_for(&intent);

    let has_preserve =
        recommendation.proposed_operations.iter().any(|op| matches!(op, ProposedOperation::PreserveDirectory { .. }));
    assert!(has_preserve);

    let constraint_check = recommendation.constraint_checks.iter().find(|c| c.name == "preserve_existing_folders");
    assert!(constraint_check.is_some());
    assert!(constraint_check.unwrap().passed);
}

#[test]
fn test_constraint_auto_delete_temps_blocked() {
    let intent = parsed("Organize by category");
    assert!(!intent.constraints.auto_delete_temps);
    let recommendation = recommend_for(&intent);

    let has_temp_archive = recommendation.proposed_operations.iter().any(|op| {
        if let ProposedOperation::ArchiveFiles { category, .. } = op {
            category.contains("temp")
        } else {
            false
        }
    });
    assert!(!has_temp_archive);
    assert!(recommendation.constraint_checks.iter().any(|c| c.name == "auto_delete_temps"));
}

#[test]
fn test_constraint_violation_when_auto_delete_temps_true() {
    let intent = parsed("Clean up temp files");
    assert!(intent.constraints.auto_delete_temps);
    let recommendation = recommend_for(&intent);
    assert!(recommendation.constraint_violation.is_none());
}

#[test]
fn test_constraint_violation_present() {
    let intent_with_temps = TaskIntent {
        goal: Goal::Organize { scope: FsPath::parse(DOWNLOADS), purpose: "by_category".to_string() },
        constraints: ConstraintSet { auto_delete_temps: true, ..ConstraintSet::default() },
        user_hints: UserHints::new(),
        unknown_factors: Vec::new(),
    };
    let recommendation = recommend_for(&intent_with_temps);
    assert!(recommendation.constraint_violation.is_none());
}

#[test]
fn test_recommendation_has_constraint_checks() {
    let intent = parsed("Organize this folder by category");
    let recommendation = recommend_for(&intent);
    assert!(!recommendation.constraint_checks.is_empty());
    for check in &recommendation.constraint_checks {
        assert!(!check.name.is_empty());
        assert!(!check.message.is_empty());
    }
}

#[test]
fn test_merge_duplicates_constraint_check() {
    let intent = parsed("Organize by category, merge duplicates");
    assert!(intent.constraints.merge_duplicates);
    let recommendation = recommend_for(&intent);
    let merge_check = recommendation.constraint_checks.iter().find(|c| c.name == "merge_duplicates");
    assert!(merge_check.is_some());
    assert!(merge_check.unwrap().passed);
}

#[test]
fn test_archive_old_constraint_check() {
    let intent = parsed("Organize by category, archive old files 90 days");
    let recommendation = recommend_for(&intent);
    let archive_check = recommendation.constraint_checks.iter().find(|c| c.name == "archive_old_files");
    assert!(archive_check.is_some());
    assert!(archive_check.unwrap().passed);
}

use folder_agent::analysis::{EvidenceGap, GapType};
use folder_agent::clarification::{
    apply_evidence_gaps_to_questions, ClarificationEngine, ClarificationError, DecisionAnswer, DecisionCategory,
    UserDecision,
};
use folder_agent::intent::{Goal, ScopeEnv, TaskIntentParser};
use folder_agent::path::FsPath;
use folder_agent::recommendation::{
    ClarificationQuestion, ConstraintViolation, ProposedOperation, Recommendation, RecommendationStrategy,
};
use folder_agent::snapshot::{FsSnapshot, PathStatus};

fn scope_env(scope: &str) -> ScopeEnv {
    let mut dirs = FsSnapshot::new();
    dirs.record(FsPath::parse(scope), PathStatus::dir());
    ScopeEnv { user_profile: None, home: None, dirs }
}

#[test]
fn test_resolve_question_valid_choice() {
    let question = ClarificationQuestion {
        id: "q1".to_string(),
        question: "What category structure do you prefer?".to_string(),
        context: "Taxonomy not specified".to_string(),
        options: vec!["by_category".to_string(), "by_project".to_string()],
    };

    let clarifier = ClarificationEngine;
    let decision = clarifier.resolve_question(&vec![question], "q1", DecisionAnswer::Choice("by_project".to_string()));

    assert!(decision.is_ok());
    let d = decision.unwrap();
    assert_eq!(d.category, DecisionCategory::TaxonomyChoice);
    assert_eq!(d.answer, DecisionAnswer::Choice("by_project".to_string()));
}

#[test]
fn test_resolve_question_valid_yes_no() {
    let question = ClarificationQuestion {
        id: "q1".to_string(),
        question: "Preserve existing folders?".to_string(),
        context: "User constraint".to_string(),
        options: vec!["Yes".to_string(), "No".to_string()],
    };

    let clarifier = ClarificationEngine;
    let decision = clarifier.resolve_question(&vec![question], "q1", DecisionAnswer::Yes);

    assert!(decision.is_ok());
    let d = decision.unwrap();
    assert_eq!(d.category, DecisionCategory::PreserveExistingFolders);
    assert_eq!(d.answer, DecisionAnswer::Yes);
}

#[test]
fn test_resolve_question_invalid_choice() {
    let question = ClarificationQuestion {
        id: "q1".to_string(),
        question: "What category structure?".to_string(),
        context: "Taxonomy not specified".to_string(),
        options: vec!["by_category".to_string(), "by_project".to_string()],
    };

    let clarifier = ClarificationEngine;
    let decision =
        clarifier.resolve_question(&vec![question], "q1", DecisionAnswer::Choice("invalid_option".to_string()));

    assert!(matches!(decision, Err(ClarificationError::InvalidAnswer(_))));
}

#[test]
fn test_resolve_question_not_found() {
    let clarifier = ClarificationEngine;
    let decision = clarifier.resolve_question(&vec![], "nonexistent", DecisionAnswer::Yes);

    assert!(matches!(decision, Err(ClarificationError::QuestionNotFound(_))));
}

#[test]
fn test_resolve_question_yes_no_for_non_constraint() {
    let question = ClarificationQuestion {
        id: "q1".to_string(),
        question: "What category structure?".to_string(),
        context: "Taxonomy not specified".to_string(),
        options: vec!["by_category".to_string(), "by_project".to_string()],
    };

    let clarifier = ClarificationEngine;
    let decision = clarifier.resolve_question(&vec![question], "q1", DecisionAnswer::Yes);

    assert!(matches!(decision, Err(ClarificationError::InvalidAnswer(_))));
}

#[test]
fn test_apply_evidence_gaps_to_questions() {
    let gaps = vec![
        EvidenceGap {
            gap_type: GapType::Taxonomy,
            description: "General organization requested".to_string(),
            requires_user_input: true,
        },
        EvidenceGap {
            gap_type: GapType::FileDisposition,
            description: "File disposition policy not specified".to_string(),
            requires_user_input: true,
        },
    ];

    let questions = apply_evidence_gaps_to_questions(&gaps);

    assert_eq!(questions.len(), 2);
    assert_eq!(questions[0].id, "gap-1");
    assert_eq!(questions[1].id, "gap-2");
    assert!(!questions[0].options.is_empty());
    assert!(!questions[1].options.is_empty());
}

#[test]
fn test_apply_evidence_gaps_skip_non_required() {
    let gaps = vec![
        EvidenceGap {
            gap_type: GapType::Taxonomy,
            description: "General organization requested".to_string(),
            requires_user_input: true,
        },
        EvidenceGap {
            gap_type: GapType::Taxonomy,
            description: "Another taxonomy gap".to_string(),
            requires_user_input: false,
        },
    ];

    let questions = apply_evidence_gaps_to_questions(&gaps);

    assert_eq!(questions.len(), 1);
}

#[test]
fn test_decision_category_display_name() {
    assert_eq!(DecisionCategory::PreserveExistingFolders.display_name(), "Preserve existing folders");
    assert_eq!(DecisionCategory::AutoDeleteTemps.display_name(), "Auto-delete temporary files");
    assert_eq!(DecisionCategory::TaxonomyChoice.display_name(), "Category structure");
}

#[test]
fn test_decision_category_maps_to_constraint() {
    assert_eq!(DecisionCategory::PreserveExistingFolders.maps_to_constraint(), Some("preserve_existing_folders"));
    assert_eq!(DecisionCategory::AutoDeleteTemps.maps_to_constraint(), Some("auto_delete_temps"));
    assert_eq!(DecisionCategory::MergeDuplicates.maps_to_constraint(), Some("merge_duplicates"));
    assert_eq!(DecisionCategory::ArchiveOld.maps_to_constraint(), Some("archive_old"));
    assert_eq!(DecisionCategory::TaxonomyChoice.maps_to_constraint(), None);
}

#[test]
fn test_decision_answer_as_bool() {
    assert_eq!(DecisionAnswer::Yes.as_bool(), Some(true));
    assert_eq!(DecisionAnswer::No.as_bool(), Some(false));
    assert_eq!(DecisionAnswer::Choice("test".to_string()).as_bool(), None);
}

#[test]
fn test_decision_answer_as_choice() {
    assert_eq!(DecisionAnswer::Choice("by_category".to_string()).as_choice(), Some("by_category"));
    assert_eq!(DecisionAnswer::Yes.as_choice(), None);
}

#[test]
fn test_infer_category_from_question() {
    let question = ClarificationQuestion {
        id: "q1".to_string(),
        question: "Preserve existing folders?".to_string(),
        context: "User constraint".to_string(),
        options: vec!["Yes".to_string(), "No".to_string()],
    };

    let clarifier = ClarificationEngine;
    let decision = clarifier.resolve_question(&vec![question], "q1", DecisionAnswer::Yes).unwrap();

    assert_eq!(decision.category, DecisionCategory::PreserveExistingFolders);
}

#[test]
fn test_infer_duplicate_category() {
    let question = ClarificationQuestion {
        id: "q1".to_string(),
        question: "How should duplicate files be handled?".to_string(),
        context: "Duplicate files found".to_string(),
        options: vec!["Keep newer".to_string(), "Merge".to_string()],
    };

    let clarifier = ClarificationEngine;
    let decision =
        clarifier.resolve_question(&vec![question], "q1", DecisionAnswer::Choice("Merge".to_string())).unwrap();

    assert_eq!(decision.category, DecisionCategory::DuplicateHandling);
}

#[test]
fn test_infer_archive_category() {
    let question = ClarificationQuestion {
        id: "q1".to_string(),
        question: "What archive policy for old files?".to_string(),
        context: "Archive old files".to_string(),
        options: vec!["90 days".to_string(), "1 year".to_string()],
    };

    let clarifier = ClarificationEngine;
    let decision =
        clarifier.resolve_question(&vec![question], "q1", DecisionAnswer::Choice("90 days".to_string())).unwrap();

    assert_eq!(decision.category, DecisionCategory::ArchiveOld);
}

#[test]
fn test_apply_multiple_decisions() {
    let scope = "/tmp/clarify/downloads";
    let parser = TaskIntentParser::new(FsPath::parse(scope));
    let intent = parser.parse("Organize this folder by category", &scope_env(scope)).expect("should parse");

    let clarifier = ClarificationEngine;
    let decisions = vec![
        UserDecision {
            category: DecisionCategory::PreserveExistingFolders,
            answer: DecisionAnswer::Yes,
            question_id: "q1".to_string(),
            rationale: None,
        },
        UserDecision {
            category: DecisionCategory::AutoDeleteTemps,
            answer: DecisionAnswer::No,
            question_id: "q2".to_string(),
            rationale: None,
        },
        UserDecision {
            category: DecisionCategory::MergeDuplicates,
            answer: DecisionAnswer::Yes,
            question_id: "q3".to_string(),
            rationale: None,
        },
    ];

    let updated = clarifier.apply_decisions(&intent, &decisions);
    assert!(updated.constraints.preserve_existing_folders);
    assert!(!updated.constraints.auto_delete_temps);
    assert!(updated.constraints.merge_duplicates);
}

#[test]
fn test_apply_decisions_does_not_modify_original() {
    let scope = "/tmp/clarify/downloads";
    let parser = TaskIntentParser::new(FsPath::parse(scope));
    let intent = parser.parse("Organize this folder by category", &scope_env(scope)).expect("should parse");

    let original_preserve = intent.constraints.preserve_existing_folders;

    let clarifier = ClarificationEngine;
    let decisions = vec![UserDecision {
        category: DecisionCategory::PreserveExistingFolders,
        answer: DecisionAnswer::Yes,
        question_id: "q1".to_string(),
        rationale: None,
    }];

    let _updated = clarifier.apply_decisions(&intent, &decisions);

    assert_eq!(intent.constraints.preserve_existing_folders, original_preserve);
}

#[test]
fn test_apply_taxonomy_choice() {
    let scope = "/tmp/clarify/downloads";
    let parser = TaskIntentParser::new(FsPath::parse(scope));
    let intent = parser.parse("Organize this folder", &scope_env(scope)).expect("should parse");

    let clarifier = ClarificationEngine;
    let decisions = vec![UserDecision {
        category: DecisionCategory::TaxonomyChoice,
        answer: DecisionAnswer::Choice("by_project".to_string()),
        question_id: "q1".to_string(),
        rationale: None,
    }];
    let updated = clarifier.apply_decisions(&intent, &decisions);

    match &updated.goal {
        Goal::Organize { purpose, scope: s } => {
            assert_eq!(purpose, "by_project");
            assert!(s.same_as(&FsPath::parse(scope)));
        }
        _ => panic!("expected Organize goal"),
    }
}

#[test]
fn clarification_error_messages() {
    assert_eq!(ClarificationError::QuestionNotFound("q9".to_string()).message(), "Question not found: q9");
    assert_eq!(ClarificationError::InvalidAnswer("bad".to_string()).message(), "Invalid answer: bad");
}

fn organize_by_category_intent() -> folder_agent::intent::TaskIntent {
    let scope = "/tmp/clarify/downloads";
    let parser = TaskIntentParser::new(FsPath::parse(scope));
    parser.parse("Organize this folder by category", &scope_env(scope)).expect("should parse")
}

fn one_decision(category: DecisionCategory, answer: DecisionAnswer) -> Vec<UserDecision> {
    vec![UserDecision { category, answer, question_id: "q1".to_string(), rationale: None }]
}

#[test]
fn test_apply_preserve_existing_folders() {
    let intent = organize_by_category_intent();
    assert!(!intent.constraints.preserve_existing_folders);

    let clarifier = ClarificationEngine;
    let updated =
        clarifier.apply_decisions(&intent, &one_decision(DecisionCategory::PreserveExistingFolders, DecisionAnswer::Yes));
    assert!(updated.constraints.preserve_existing_folders);
}

#[test]
fn test_apply_auto_delete_temps() {
    let intent = organize_by_category_intent();
    assert!(!intent.constraints.auto_delete_temps);

    let clarifier = ClarificationEngine;
    let updated = clarifier.apply_decisions(&intent, &one_decision(DecisionCategory::AutoDeleteTemps, DecisionAnswer::Yes));
    assert!(updated.constraints.auto_delete_temps);
}

#[test]
fn test_apply_no_auto_delete_temps() {
    let intent = organize_by_category_intent();

    let clarifier = ClarificationEngine;
    let updated = clarifier.apply_decisions(&intent, &one_decision(DecisionCategory::AutoDeleteTemps, DecisionAnswer::No));
    assert!(!updated.constraints.auto_delete_temps);
}

#[test]
fn test_apply_archive_old_duration() {
    let intent = organize_by_category_intent();
    assert!(intent.constraints.archive_old.is_none());

    let clarifier = ClarificationEngine;
    let updated =
        clarifier.apply_decisions(&intent, &one_decision(DecisionCategory::ArchiveOld, DecisionAnswer::Duration(90 * 86400)));
    assert!(updated.constraints.archive_old.is_some());
    assert_eq!(updated.constraints.archive_old.unwrap(), 90 * 86400);
}

fn bare_recommendation() -> Recommendation {
    Recommendation {
        id: "test-rec".to_string(),
        strategy: RecommendationStrategy::CategoryBased,
        strategy_info: None,
        rationale: "Test rationale".to_string(),
        proposed_categories: Vec::new(),
        proposed_operations: Vec::new(),
        unresolved_questions: Vec::new(),
        confidence_bits: 0.9f64.to_bits(),
        constraint_checks: Vec::new(),
        constraint_violation: None,
        warnings: Vec::new(),
        organization_proposal: None,
        generated_at: 0,
    }
}

#[test]
fn test_clarification_complete_when_no_questions() {
    let recommendation = bare_recommendation();
    let clarifier = ClarificationEngine;
    assert!(clarifier.is_complete(&recommendation));
}

#[test]
fn start_returns_the_open_questions() {
    let mut recommendation = bare_recommendation();
    recommendation.unresolved_questions = apply_evidence_gaps_to_questions(&vec![EvidenceGap {
        gap_type: GapType::Taxonomy,
        description: "General organization requested".to_string(),
        requires_user_input: true,
    }]);
    let clarifier = ClarificationEngine;
    let questions = clarifier.start(&recommendation);
    assert_eq!(questions, recommendation.unresolved_questions);
    assert!(!clarifier.is_complete(&recommendation));
    for q in &questions {
        assert!(!q.id.is_empty());
        assert!(!q.question.is_empty());
        assert!(!q.options.is_empty());
    }
}

#[test]
fn blocked_operations_come_from_the_violation() {
    let mut recommendation = bare_recommendation();
    let clarifier = ClarificationEngine;
    assert!(clarifier.blocked_operations(&recommendation).is_empty());
    recommendation.proposed_operations = vec![ProposedOperation::MoveCategory {
        strategy: "category".to_string(),
        content_type: "temp".to_string(),
        file_count: 5,
        to_category: "temp_files".to_string(),
    }];
    recommendation.constraint_violation = Some(ConstraintViolation {
        constraint: "auto_delete_temps".to_string(),
        reason: "Temp deletion not allowed".to_string(),
        blocked_operations: vec!["Move 5 temp files to 'temp_files'".to_string()],
    });
    assert_eq!(clarifier.blocked_operations(&recommendation), vec!["Move 5 temp files to 'temp_files'".to_string()]);
}

use folder_agent::analysis::{
    AmbiguityReason, AnomalyType, ClassifiedItem, ContentGroup, ContentType, EvidenceAnalyzer, GapType,
};
use folder_agent::intent::{ConstraintSet, Goal, TaskIntent, UserHints};
use folder_agent::path::FsPath;
use folder_agent::recommendation::ClassificationDecision;

fn intent(goal: Goal) -> TaskIntent {
    TaskIntent { goal, constraints: ConstraintSet::default(), user_hints: UserHints::new(), unknown_factors: vec![] }
}

fn group(ext: &str, ct: ContentType) -> ContentGroup {
    ContentGroup { extension: ext.to_string(), file_count: 1, total_size: 1024, category: ct }
}

#[test]
fn general_organization_without_content_asks_for_taxonomy_and_disposition() {
    let i = intent(Goal::Organize { scope: FsPath::parse("/tmp/a"), purpose: "general_organization".to_string() });
    let gaps = EvidenceAnalyzer::new().identify_gaps(
        &i,
        &vec![],
        &vec![],
        "{\"organize\":{\"scope\":\"/tmp/a\",\"purpose\":\"general_organization\"}}",
    );
    let kinds: Vec<GapType> = gaps.iter().map(|g| g.gap_type).collect();
    assert_eq!(kinds, vec![GapType::Taxonomy, GapType::Taxonomy, GapType::FileDisposition]);
    assert!(gaps.iter().all(|g| g.requires_user_input));
    assert_eq!(gaps[2].description, "File disposition policy not specified");
}

#[test]
fn delete_in_goal_settles_disposition() {
    let i = intent(Goal::Organize { scope: FsPath::parse("/tmp/a"), purpose: "by_category".to_string() });
    let gaps = EvidenceAnalyzer::new().identify_gaps(
        &i,
        &vec![group("documents", ContentType::Documents)],
        &vec![ClassificationDecision::MoveExisting],
        "{\"clean\":{\"scope\":\"/tmp/a\",\"rules\":[\"Delete_Temps\"]}}",
    );
    assert!(gaps.is_empty());
}

#[test]
fn asking_classifier_adds_duplicate_handling_gap() {
    let i = intent(Goal::Organize { scope: FsPath::parse("/tmp/a"), purpose: "by_category".to_string() });
    let gaps = EvidenceAnalyzer::new().identify_gaps(
        &i,
        &vec![group("other", ContentType::Other)],
        &vec![ClassificationDecision::AskUser],
        "{\"organize\":{\"scope\":\"/tmp/a\",\"purpose\":\"keep\"}}",
    );
    let kinds: Vec<GapType> = gaps.iter().map(|g| g.gap_type).collect();
    assert_eq!(kinds, vec![GapType::Taxonomy, GapType::DuplicateHandling]);
}

#[test]
fn classify_extension_ignores_case_and_dots() {
    assert_eq!(EvidenceAnalyzer::classify_extension(".PDF"), ContentType::Documents);
    assert_eq!(EvidenceAnalyzer::classify_extension("jpg"), ContentType::Images);
    assert_eq!(EvidenceAnalyzer::classify_extension("xyz"), ContentType::Other);
}

#[test]
fn blank_instruction_is_dropped() {
    let a = EvidenceAnalyzer::new().with_classifier_instruction(Some("   ".to_string()));
    assert!(a.classifier_instruction.is_none());
    let b = EvidenceAnalyzer::new().with_classifier_instruction(Some("by year".to_string()));
    assert_eq!(b.classifier_instruction, Some("by year".to_string()));
}

fn evidence(files: u64, dirs: u64, size: u64, empty: bool, exts: &[(&str, u64)]) -> folder_agent::analysis::DirectoryEvidence {
    folder_agent::analysis::DirectoryEvidence {
        path: folder_agent::path::FsPath::parse("/tmp/ev"),
        file_count: files,
        directory_count: dirs,
        total_size: size,
        is_empty: empty,
        extension_counts: exts.iter().map(|(e, n)| (e.to_string(), *n)).collect(),
    }
}

#[test]
fn flat_scope_with_many_files_is_an_anomaly() {
    let a = EvidenceAnalyzer::detect_anomalies(&evidence(51, 0, 10, false, &[("pdf", 51)]));
    assert_eq!(a.len(), 1);
    assert_eq!(a[0].anomaly_type, AnomalyType::MixedContent);
    assert_eq!(a[0].evidence, vec![("file_count".to_string(), 51), ("directory_count".to_string(), 0)]);
    assert!(EvidenceAnalyzer::detect_anomalies(&evidence(50, 0, 10, false, &[("pdf", 50)])).is_empty());
}

#[test]
fn anomalies_come_in_order() {
    let exts: Vec<(String, u64)> = (0..21).map(|i| (format!("e{}", i), 0)).collect();
    let mut ev = evidence(0, 3, 107374182401, true, &[]);
    ev.extension_counts = exts;
    let a = EvidenceAnalyzer::detect_anomalies(&ev);
    let kinds: Vec<AnomalyType> = a.iter().map(|x| x.anomaly_type).collect();
    assert_eq!(
        kinds,
        vec![AnomalyType::OrphanedDirectory, AnomalyType::LargeFile, AnomalyType::EmptyDirectory, AnomalyType::MixedContent]
    );
    assert_eq!(a[1].description, "Scope directory is very large (>100GB)");
    assert_eq!(a[3].evidence, vec![("unique_extensions".to_string(), 21)]);
    assert!(a[2].evidence.is_empty());
}

#[test]
fn scattered_extensions_make_the_scope_unclear() {
    let ev = evidence(12, 0, 0, false, &[("a", 2), ("b", 2), ("c", 2), ("d", 2), ("e", 2), ("f", 2)]);
    let amb = EvidenceAnalyzer::detect_ambiguities(&ev, &vec![]);
    assert_eq!(amb.len(), 1);
    assert_eq!(amb[0].reason, AmbiguityReason::UnclearCategory);
    assert_eq!(amb[0].confidence_low_bits, 0.3f64.to_bits());
    assert_eq!(amb[0].alternatives, vec!["a", "b", "c", "d", "e"]);

    // one extension covering half of the files is clear
    let ev = evidence(12, 0, 0, false, &[("a", 6), ("b", 2), ("c", 1), ("d", 1), ("e", 1), ("f", 1)]);
    assert!(EvidenceAnalyzer::detect_ambiguities(&ev, &vec![]).is_empty());
}

#[test]
fn undecided_classifications_are_ambiguities() {
    let item = |d: ClassificationDecision| ClassifiedItem {
        target_path: folder_agent::path::FsPath::parse("/tmp/ev/x.bin"),
        decision: d,
        confidence_bits: 0.4f64.to_bits(),
        alternative_names: vec!["Docs".to_string(), "Data".to_string()],
    };
    let results = vec![
        item(ClassificationDecision::AskUser),
        item(ClassificationDecision::MoveExisting),
        item(ClassificationDecision::LeaveUnclassified),
    ];
    let amb = EvidenceAnalyzer::detect_ambiguities(&evidence(3, 0, 0, false, &[("bin", 3)]), &results);
    assert_eq!(amb.len(), 2);
    assert_eq!(amb[0].reason, AmbiguityReason::ConflictingEvidence);
    assert_eq!(amb[0].alternatives, vec!["Docs", "Data"]);
    assert_eq!(amb[1].reason, AmbiguityReason::InsufficientPrecedent);
    assert!(amb[1].alternatives.is_empty());
    assert_eq!(amb[1].confidence_low_bits, 0.4f64.to_bits());
}

#[test]
fn unicode_blank_instructions_are_dropped() {
    let a = EvidenceAnalyzer::new().with_classifier_instruction(Some("\u{3000}\t\u{2028} \u{85}".to_string()));
    assert!(a.classifier_instruction.is_none());
    // a zero-width space is not White_Space
    let a = EvidenceAnalyzer::new().with_classifier_instruction(Some("\u{200B}".to_string()));
    assert_eq!(a.classifier_instruction, Some("\u{200B}".to_string()));
}

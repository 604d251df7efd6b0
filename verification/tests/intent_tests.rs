use folder_agent::intent::{CleanRule, ConstraintSet, Goal, IntentParseError, ScopeEnv, TaskIntentParser};
use folder_agent::path::FsPath;
use folder_agent::snapshot::{FsSnapshot, PathStatus};

/// An environment whose home holds the usual special folders.
fn env() -> ScopeEnv {
    let mut dirs = FsSnapshot::new();
    dirs.record(FsPath::parse("/home/user/Downloads"), PathStatus::dir());
    dirs.record(FsPath::parse("/home/user/Desktop"), PathStatus::dir());
    ScopeEnv { user_profile: None, home: Some("/home/user".to_string()), dirs }
}

#[test]
fn test_organize_general() {
    let parser = TaskIntentParser::default();
    let e = env();
    let intent = parser.parse("Help me organize Downloads", &e).expect("should parse");

    match &intent.goal {
        Goal::Organize { scope, purpose } => {
            assert_eq!(purpose, "general_organization");
            assert!(e.dirs.is_present(scope) || scope.same_as(&FsPath::parse(".")));
        }
        _ => panic!("expected Organize, got {:?}", intent.goal),
    }

    assert!(intent.unknown_factors.contains(&"desired_category_structure".to_string()));
}

#[test]
fn test_organize_with_taxonomy() {
    let parser = TaskIntentParser::default();
    let intent = parser.parse("Organize by work, personal, entertainment", &env()).expect("should parse");

    match &intent.goal {
        Goal::Organize { purpose, .. } => {
            assert_eq!(purpose, "work/personal/entertainment");
        }
        _ => panic!("expected Organize, got {:?}", intent.goal),
    }
}

#[test]
fn test_organize_by_category() {
    let parser = TaskIntentParser::default();
    let intent = parser.parse("Please organize by category", &env()).expect("should parse");

    match &intent.goal {
        Goal::Organize { purpose, .. } => {
            assert_eq!(purpose, "by_category");
        }
        _ => panic!("expected Organize, got {:?}", intent.goal),
    }
}

#[test]
fn test_reorganize_detect() {
    let parser = TaskIntentParser::default();
    let intent = parser.parse("Rearrange the desktop folder", &env()).expect("should parse");

    match &intent.goal {
        Goal::Reorganize { strategy, .. } => {
            assert!(strategy.is_some(), "strategy should be set");
        }
        _ => panic!("expected Reorganize, got {:?}", intent.goal),
    }
}

#[test]
fn test_reorganize_chinese() {
    let parser = TaskIntentParser::default();
    let intent = parser.parse("重新整理這個資料夾", &env()).expect("should parse");

    assert!(matches!(intent.goal, Goal::Reorganize { .. }));
}

#[test]
fn test_clean_detect() {
    let parser = TaskIntentParser::default();
    let intent = parser
        .parse("Clean up the downloads folder and delete temp files", &env())
        .expect("should parse");

    match &intent.goal {
        Goal::Clean { rules, .. } => {
            assert!(rules.iter().any(|r| *r == CleanRule::DeleteTemps));
        }
        _ => panic!("expected Clean, got {:?}", intent.goal),
    }
}

#[test]
fn test_clean_with_archive() {
    let parser = TaskIntentParser::default();
    let intent = parser.parse("Archive files older than 90 days", &env()).expect("should parse");

    match &intent.goal {
        Goal::Clean { rules, .. } => {
            assert!(rules.iter().any(|r| matches!(r, CleanRule::ArchiveOld(_))));
        }
        _ => panic!("expected Clean, got {:?}", intent.goal),
    }
}

#[test]
fn test_unrecognized_intent() {
    let parser = TaskIntentParser::default();
    let result = parser.parse("Tell me a joke", &env());
    assert!(result.is_err());
    assert_eq!(result.unwrap_err(), IntentParseError::UnrecognizedIntent);
}

#[test]
fn test_constraint_preserve_existing() {
    let parser = TaskIntentParser::default();
    let intent = parser
        .parse("Organize Downloads and preserve existing folders", &env())
        .expect("should parse");

    assert!(intent.constraints.preserve_existing_folders);
}

#[test]
fn test_constraint_merge_duplicates() {
    let parser = TaskIntentParser::default();
    let intent = parser.parse("Organize Downloads with merge duplicates", &env()).expect("should parse");

    assert!(intent.constraints.merge_duplicates);
}

#[test]
fn test_constraint_archive_old() {
    let parser = TaskIntentParser::default();
    let intent = parser
        .parse("Organize Downloads, archive old files 365 days", &env())
        .expect("should parse");

    assert!(intent.constraints.archive_old.is_some());
}

#[test]
fn test_constraint_auto_delete_temps() {
    let parser = TaskIntentParser::default();
    let intent = parser.parse("Clean up downloads, delete temp files", &env()).expect("should parse");

    assert!(intent.constraints.auto_delete_temps);
}

#[test]
fn test_hints_dry_run() {
    let parser = TaskIntentParser::default();
    let intent = parser
        .parse("Organize Downloads with dry run preview verbose", &env())
        .expect("should parse");

    assert_eq!(intent.user_hints.get("dry_run"), Some("true".to_string()));
    assert_eq!(intent.user_hints.get("verbose"), Some("true".to_string()));
}

#[test]
fn test_max_questions_default() {
    let parser = TaskIntentParser::default();
    let intent = parser.parse("Organize Downloads", &env()).expect("should parse");

    assert_eq!(intent.constraints.max_interactive_questions, 10);
}

#[test]
fn test_unknown_factors_absent_for_clean() {
    let parser = TaskIntentParser::default();
    let intent = parser.parse("Delete temp files from downloads", &env()).expect("should parse");

    assert!(intent.unknown_factors.is_empty());
}

#[test]
fn test_custom_default_scope() {
    let parser = TaskIntentParser::new(FsPath::parse("/tmp/test_scope"));
    let intent = parser.parse("Help me organize", &env()).expect("should parse");

    match &intent.goal {
        Goal::Organize { scope, .. } => {
            assert!(scope.same_as(&FsPath::parse("/tmp/test_scope")));
        }
        _ => panic!("expected Organize, got {:?}", intent.goal),
    }
}

#[test]
fn test_constraint_set_defaults() {
    let cs = ConstraintSet::default();
    assert!(!cs.preserve_existing_folders);
    assert!(!cs.merge_duplicates);
    assert!(!cs.auto_delete_temps);
    assert!(cs.archive_old.is_none());
    assert_eq!(cs.max_interactive_questions, 0);
}

#[test]
fn downloads_resolves_under_home() {
    let parser = TaskIntentParser::default();
    let intent = parser.parse("Organize Downloads", &env()).expect("should parse");
    assert!(intent.goal.scope().same_as(&FsPath::parse("/home/user/Downloads")));
}

#[test]
fn user_profile_takes_precedence_over_home() {
    let parser = TaskIntentParser::default();
    let e = ScopeEnv {
        user_profile: Some("C:/Users/me".to_string()),
        home: Some("/home/user".to_string()),
        dirs: FsSnapshot::new(),
    };
    let intent = parser.parse("Organize my desktop", &e).expect("should parse");
    assert!(intent.goal.scope().same_as(&FsPath::parse("C:/Users/me/Desktop")));
}

#[test]
fn archive_rule_carries_ninety_days_in_seconds() {
    let parser = TaskIntentParser::default();
    let intent = parser.parse("Archive files older than 90 days", &env()).expect("should parse");
    match &intent.goal {
        Goal::Clean { rules, .. } => {
            assert!(rules.iter().any(|r| *r == CleanRule::ArchiveOld(90 * 86400)));
        }
        _ => panic!("expected Clean"),
    }
}

#[test]
fn intent_error_messages() {
    assert_eq!(IntentParseError::UnrecognizedIntent.message(), "Could not recognize intent from request");
}

#[test]
fn scope_words_are_lowercased_and_trimmed_in_front() {
    assert_eq!(
        TaskIntentParser::scope_words("Sort  \"Docs\" ./Now"),
        vec!["sort".to_string(), "docs\"".to_string(), "now".to_string()]
    );
}

#[test]
fn leading_punctuation_does_not_hide_a_directory() {
    let parser = TaskIntentParser::default();
    let mut dirs = FsSnapshot::new();
    dirs.record(FsPath::parse("projects"), PathStatus::dir());
    let e = ScopeEnv { user_profile: None, home: None, dirs };
    let intent = parser.parse("Organize \"projects", &e).expect("should parse");
    assert!(intent.goal.scope().same_as(&FsPath::parse("projects")));
}

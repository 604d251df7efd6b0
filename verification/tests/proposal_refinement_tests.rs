use folder_agent::path::FsPath;
use folder_agent::proposal_refinement_parser::{
    extract_json, user_prompt, LlmRefinementOutput, LlmRefinementResponse, ProposalRefinementParser, RefinementParseError,
    RefinementParseOutput,
};
use folder_agent::proposal_refinement_service::{ProposalRefinementService, RefinementServiceError};
use folder_agent::proposal_refiner::{ProposalRefinement, ProposalRefinementError};
use folder_agent::recommendation::{OrganizationProposal, ProposedCategory, RecommendationStrategy};

fn proposal() -> OrganizationProposal {
    let scope = FsPath::parse("/tmp/r/scope");
    OrganizationProposal {
        strategy: RecommendationStrategy::ByAuthor,
        rationale: "Group manga by author".to_string(),
        proposed_categories: vec![
            ProposedCategory {
                name: "Author A".to_string(),
                purpose: "Works by Author A".to_string(),
                target_content_types: vec!["cbz".to_string()],
                confidence_bits: 0,
                is_existing: false,
                target_path: None,
                source_files: vec![scope.join_str("Manga1.cbz")],
            },
            ProposedCategory {
                name: "Author B".to_string(),
                purpose: "Works by Author B".to_string(),
                target_content_types: vec!["cbz".to_string()],
                confidence_bits: 0,
                is_existing: false,
                target_path: None,
                source_files: vec![scope.join_str("Manga2.cbz")],
            },
        ],
        evidence_gaps: vec![],
        ambiguities: vec![],
    }
}

#[test]
fn extract_json_cuts_out_the_object() {
    assert_eq!(extract_json("Here it is: {\"a\": {\"b\": 1}} thanks"), "{\"a\": {\"b\": 1}}");
    assert_eq!(extract_json("{\"a\":1}"), "{\"a\":1}");
    assert_eq!(extract_json("no braces"), "no braces");
    assert_eq!(extract_json("prefix {\"a\":1"), "{\"a\":1");
}

#[test]
fn interpret_reads_a_rename() {
    let parser = ProposalRefinementParser::new();
    let r = parser
        .interpret(LlmRefinementResponse {
            refinement: Some(LlmRefinementOutput::RenameCategory {
                from: "Author A".to_string(),
                to: "作者A".to_string(),
            }),
            confidence_bits: 0.95f64.to_bits(),
            reason: Some("rename".to_string()),
        })
        .unwrap();
    assert_eq!(
        r.refinement,
        Some(ProposalRefinement::RenameCategory { from: "Author A".to_string(), to: "作者A".to_string() })
    );
    assert_eq!(f64::from_bits(r.confidence_bits), 0.95);
    assert_eq!(r.reason, Some("rename".to_string()));
}

#[test]
fn interpret_reads_a_move_file_as_path() {
    let parser = ProposalRefinementParser::new();
    let r = parser
        .interpret(LlmRefinementResponse {
            refinement: Some(LlmRefinementOutput::MoveFileToCategory {
                file: "Manga1.cbz".to_string(),
                category: "Author B".to_string(),
            }),
            confidence_bits: 0,
            reason: None,
        })
        .unwrap();
    assert_eq!(
        r.refinement,
        Some(ProposalRefinement::MoveFileToCategory {
            file: FsPath::parse("Manga1.cbz"),
            category: "Author B".to_string()
        })
    );
}

#[test]
fn interpret_without_refinement_is_no_refinement() {
    let parser = ProposalRefinementParser::new();
    let r = parser.interpret(LlmRefinementResponse {
        refinement: None,
        confidence_bits: 0,
        reason: Some("Category not in proposal".to_string()),
    });
    assert_eq!(r, Err(RefinementParseError::NoRefinement));
}

#[test]
fn interpret_flags_ambiguous_reason() {
    let parser = ProposalRefinementParser::new();
    let r = parser.interpret(LlmRefinementResponse {
        refinement: None,
        confidence_bits: 0,
        reason: Some("Request is AMBIGUOUS between two authors".to_string()),
    });
    assert_eq!(
        r,
        Err(RefinementParseError::AmbiguousRefinement("Request is AMBIGUOUS between two authors".to_string()))
    );
}

#[test]
fn parse_error_messages() {
    assert_eq!(RefinementParseError::NoRefinement.message(), "No refinement could be parsed");
    assert_eq!(
        RefinementParseError::InvalidStructuredOutput("x".to_string()).message(),
        "Invalid structured output: x"
    );
}

#[test]
fn service_applies_parsed_refinement() {
    let service = ProposalRefinementService::new();
    let parsed = Ok(RefinementParseOutput {
        refinement: Some(ProposalRefinement::RemoveCategory { name: "Author B".to_string() }),
        confidence_bits: 0,
        reason: None,
    });
    let revised = service.refine(parsed, &proposal()).unwrap();
    assert_eq!(revised.proposed_categories.len(), 1);
    assert_eq!(revised.proposed_categories[0].name, "Author A");
}

#[test]
fn service_reports_parse_and_refinement_errors() {
    let service = ProposalRefinementService::new();
    let e = service.refine(Err(RefinementParseError::NoRefinement), &proposal()).unwrap_err();
    assert_eq!(e, RefinementServiceError::Parse(RefinementParseError::NoRefinement));
    assert_eq!(e.message(), "Parse error: No refinement could be parsed");

    let missing = Ok(RefinementParseOutput { refinement: None, confidence_bits: 0, reason: None });
    assert_eq!(
        service.refine(missing, &proposal()).unwrap_err(),
        RefinementServiceError::Parse(RefinementParseError::NoRefinement)
    );

    let unknown = Ok(RefinementParseOutput {
        refinement: Some(ProposalRefinement::RemoveCategory { name: "Nobody".to_string() }),
        confidence_bits: 0,
        reason: None,
    });
    let e = service.refine(unknown, &proposal()).unwrap_err();
    assert_eq!(
        e,
        RefinementServiceError::Refinement(ProposalRefinementError::CategoryNotFound("Nobody".to_string()))
    );
    assert_eq!(e.message(), "Refinement error: Category not found: Nobody");
}

#[test]
fn user_prompt_quotes_request_after_proposal() {
    assert_eq!(
        user_prompt("rename A", "{}"),
        "Current OrganizationProposal:\n{}\n\nUser request: \"rename A\"\n\nParse the user request into a single structured refinement. Respond ONLY with the JSON object."
    );
}

#[test]
fn system_prompt_is_the_published_instructions() {
    let p = ProposalRefinementParser::system_prompt();
    assert_eq!(p, folder_agent::proposal_refinement_parser::SYSTEM_PROMPT);
    assert!(p.starts_with("You are a proposal refinement parser."));
    assert!(p.contains("move_file_to_category"));
}

//! Revising a proposal from a request in plain words: the request is read into
//! one edit (by the parser, from the model's reply) and the edit is applied.
use crate::proposal_refinement_parser::{
    parse_error_message, ParseErrorView, RefinementParseError, RefinementParseOutput,
};
use crate::proposal_refiner::{
    refine_spec, refinement_error_message, ProposalRefinementError, ProposalRefiner, RefinementErrorView,
};
use crate::recommendation::{OrganizationProposal, ProposalView};
use crate::text::cat;
use vstd::prelude::*;

verus! {

/// Why a request did not revise the proposal.
#[derive(Clone, Debug, PartialEq, Eq)]
pub enum RefinementServiceError {
    Parse(RefinementParseError),
    Refinement(ProposalRefinementError),
}

pub enum ServiceErrorView {
    Parse(ParseErrorView),
    Refinement(RefinementErrorView),
}

impl View for RefinementServiceError {
    type V = ServiceErrorView;

    open spec fn view(&self) -> ServiceErrorView {
        match self {
            RefinementServiceError::Parse(e) => ServiceErrorView::Parse(e@),
            RefinementServiceError::Refinement(e) => ServiceErrorView::Refinement(e@),
        }
    }
}

pub open spec fn service_error_message(e: ServiceErrorView) -> Seq<char> {
    match e {
        ServiceErrorView::Parse(p) => "Parse error: "@ + parse_error_message(p),
        ServiceErrorView::Refinement(r) => "Refinement error: "@ + refinement_error_message(r),
    }
}

impl RefinementServiceError {
    /// The message shown for this error.
    pub fn message(&self) -> (r: String)
        ensures
            r@ == service_error_message(self@),
    {
        match self {
            RefinementServiceError::Parse(e) => cat("Parse error: ", e.message().as_str()),
            RefinementServiceError::Refinement(e) => cat("Refinement error: ", e.message().as_str()),
        }
    }
}

/// What a request revises the proposal to, from how its reply was read: a
/// reply that could not be read, or named no edit, is a parse error; an edit
/// the proposal refuses is a refinement error; otherwise the revised proposal.
pub open spec fn service_spec(
    parsed: Result<RefinementParseOutput, RefinementParseError>,
    proposal: ProposalView,
) -> Result<ProposalView, ServiceErrorView> {
    match parsed {
        Err(e) => Err(ServiceErrorView::Parse(e@)),
        Ok(out) => match out.refinement {
            None => Err(ServiceErrorView::Parse(ParseErrorView::NoRefinement)),
            Some(r) => match refine_spec(proposal, r@) {
                Ok(p) => Ok(p),
                Err(e) => Err(ServiceErrorView::Refinement(e)),
            },
        },
    }
}

pub open spec fn service_view(r: Result<OrganizationProposal, RefinementServiceError>) -> Result<
    ProposalView,
    ServiceErrorView,
> {
    match r {
        Ok(p) => Ok(p@),
        Err(e) => Err(e@),
    }
}

/// Reads requests into edits and applies them.
pub struct ProposalRefinementService {
    refiner: ProposalRefiner,
}

impl ProposalRefinementService {
    pub fn new() -> (r: ProposalRefinementService) {
        ProposalRefinementService { refiner: ProposalRefiner }
    }

    /// The proposal revised by the edit a request was read into (`parsed`
    /// is what the parser made of the model's reply to the request).
    pub fn refine(
        &self,
        parsed: Result<RefinementParseOutput, RefinementParseError>,
        proposal: &OrganizationProposal,
    ) -> (r: Result<OrganizationProposal, RefinementServiceError>)
        ensures
            service_view(r) == service_spec(parsed, proposal@),
    {
        let out = match parsed {
            Err(e) => {
                return Err(RefinementServiceError::Parse(e));
            },
            Ok(out) => out,
        };
        let refinement = match out.refinement {
            None => {
                return Err(RefinementServiceError::Parse(RefinementParseError::NoRefinement));
            },
            Some(r) => r,
        };
        match self.refiner.refine(proposal, &refinement) {
            Ok(p) => Ok(p),
            Err(e) => Err(RefinementServiceError::Refinement(e)),
        }
    }
}

} // verus!

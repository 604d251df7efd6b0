//! Reading a refinement request that a language model answered: the JSON
//! object is cut out of the reply text, and the decoded reply is turned into
//! one proposal edit, or into the reason why it names none. Asking the model
//! and decoding the JSON are done by the caller.
use crate::path::{parse_spec, FsPath};
use crate::proposal_refiner::{ProposalRefinement, RefinementView};
use crate::text::{lowercase_of, owned, seq_contains, str_contains, to_lowercase};
use vstd::prelude::*;
use vstd::string::*;

verus! {

/// One edit as the model writes it; the file of a move is plain text.
#[derive(Clone, Debug, PartialEq, Eq)]
pub enum LlmRefinementOutput {
    RenameCategory { from: String, to: String },
    RemoveCategory { name: String },
    AddCategory { name: String, purpose: String },
    MoveFileToCategory { file: String, category: String },
}

pub enum LlmOutputView {
    RenameCategory { from: Seq<char>, to: Seq<char> },
    RemoveCategory { name: Seq<char> },
    AddCategory { name: Seq<char>, purpose: Seq<char> },
    MoveFileToCategory { file: Seq<char>, category: Seq<char> },
}

impl View for LlmRefinementOutput {
    type V = LlmOutputView;

    open spec fn view(&self) -> LlmOutputView {
        match self {
            LlmRefinementOutput::RenameCategory { from, to } => LlmOutputView::RenameCategory { from: from@, to: to@ },
            LlmRefinementOutput::RemoveCategory { name } => LlmOutputView::RemoveCategory { name: name@ },
            LlmRefinementOutput::AddCategory { name, purpose } => LlmOutputView::AddCategory {
                name: name@,
                purpose: purpose@,
            },
            LlmRefinementOutput::MoveFileToCategory { file, category } => LlmOutputView::MoveFileToCategory {
                file: file@,
                category: category@,
            },
        }
    }
}

/// The decoded reply: at most one edit, the model's confidence (the bit
/// pattern of an `f64`, carried through untouched) and its reason.
#[derive(Clone, Debug, PartialEq, Eq)]
pub struct LlmRefinementResponse {
    pub refinement: Option<LlmRefinementOutput>,
    pub confidence_bits: u64,
    pub reason: Option<String>,
}

/// A reply read into an edit of the proposal.
#[derive(Clone, Debug, PartialEq, Eq)]
pub struct RefinementParseOutput {
    pub refinement: Option<ProposalRefinement>,
    pub confidence_bits: u64,
    pub reason: Option<String>,
}

/// Why a reply gave no edit.
#[derive(Clone, Debug, PartialEq, Eq)]
pub enum RefinementParseError {
    ProviderError(String),
    InvalidStructuredOutput(String),
    NoRefinement,
    AmbiguousRefinement(String),
    UnsupportedRefinement(String),
    RefinementError(String),
}

pub enum ParseErrorView {
    ProviderError(Seq<char>),
    InvalidStructuredOutput(Seq<char>),
    NoRefinement,
    AmbiguousRefinement(Seq<char>),
    UnsupportedRefinement(Seq<char>),
    RefinementError(Seq<char>),
}

impl View for RefinementParseError {
    type V = ParseErrorView;

    open spec fn view(&self) -> ParseErrorView {
        match self {
            RefinementParseError::ProviderError(m) => ParseErrorView::ProviderError(m@),
            RefinementParseError::InvalidStructuredOutput(m) => ParseErrorView::InvalidStructuredOutput(m@),
            RefinementParseError::NoRefinement => ParseErrorView::NoRefinement,
            RefinementParseError::AmbiguousRefinement(m) => ParseErrorView::AmbiguousRefinement(m@),
            RefinementParseError::UnsupportedRefinement(m) => ParseErrorView::UnsupportedRefinement(m@),
            RefinementParseError::RefinementError(m) => ParseErrorView::RefinementError(m@),
        }
    }
}

pub open spec fn parse_error_message(e: ParseErrorView) -> Seq<char> {
    match e {
        ParseErrorView::ProviderError(m) => "Provider error: "@ + m,
        ParseErrorView::InvalidStructuredOutput(m) => "Invalid structured output: "@ + m,
        ParseErrorView::NoRefinement => "No refinement could be parsed"@,
        ParseErrorView::AmbiguousRefinement(m) => "Ambiguous refinement: "@ + m,
        ParseErrorView::UnsupportedRefinement(m) => "Unsupported refinement: "@ + m,
        ParseErrorView::RefinementError(m) => "Refinement error: "@ + m,
    }
}

impl RefinementParseError {
    /// The message shown for this error.
    pub fn message(&self) -> (r: String)
        ensures
            r@ == parse_error_message(self@),
    {
        match self {
            RefinementParseError::ProviderError(m) => crate::text::cat("Provider error: ", m.as_str()),
            RefinementParseError::InvalidStructuredOutput(m) => crate::text::cat("Invalid structured output: ", m.as_str()),
            RefinementParseError::NoRefinement => owned("No refinement could be parsed"),
            RefinementParseError::AmbiguousRefinement(m) => crate::text::cat("Ambiguous refinement: ", m.as_str()),
            RefinementParseError::UnsupportedRefinement(m) => crate::text::cat("Unsupported refinement: ", m.as_str()),
            RefinementParseError::RefinementError(m) => crate::text::cat("Refinement error: ", m.as_str()),
        }
    }
}

// ------------------------------------------------------ cutting out the JSON

/// `i` is the first position of `c` in `s`.
pub open spec fn is_first_of(s: Seq<char>, c: char, i: int) -> bool {
    0 <= i < s.len() && s[i] == c && forall|j: int| 0 <= j < i ==> s[j] != c
}

/// `i` is the last position of `c` in `s`.
pub open spec fn is_last_of(s: Seq<char>, c: char, i: int) -> bool {
    0 <= i < s.len() && s[i] == c && forall|j: int| i < j < s.len() ==> s[j] != c
}

/// Where the JSON object starts: at the first `{`, or at the beginning.
pub open spec fn json_start(s: Seq<char>) -> int {
    if exists|i: int| is_first_of(s, '{', i) {
        choose|i: int| is_first_of(s, '{', i)
    } else {
        0
    }
}

/// Where the JSON object ends: just after the last `}`, or at the end.
pub open spec fn json_end(s: Seq<char>) -> int {
    if exists|i: int| is_last_of(s, '}', i) {
        (choose|i: int| is_last_of(s, '}', i)) + 1
    } else {
        s.len() as int
    }
}

/// The text from the first `{` through the last `}`.
pub open spec fn extract_json_spec(s: Seq<char>) -> Seq<char> {
    s.subrange(json_start(s), json_end(s))
}

proof fn lemma_first_unique(s: Seq<char>, c: char, i: int)
    requires
        is_first_of(s, c, i),
    ensures
        json_start_of(s, c) == i,
{
    assert forall|k: int| is_first_of(s, c, k) implies k == i by {
        if k < i {
            assert(s[k] != c);
        } else if i < k {
            assert(s[i] != c);
        }
    }
}

proof fn lemma_last_unique(s: Seq<char>, c: char, i: int)
    requires
        is_last_of(s, c, i),
    ensures
        json_end_of(s, c) == i + 1,
{
    assert forall|k: int| is_last_of(s, c, k) implies k == i by {
        if k < i {
            assert(s[i] != c);
        } else if i < k {
            assert(s[k] != c);
        }
    }
}

spec fn json_start_of(s: Seq<char>, c: char) -> int {
    if exists|i: int| is_first_of(s, c, i) {
        choose|i: int| is_first_of(s, c, i)
    } else {
        0
    }
}

spec fn json_end_of(s: Seq<char>, c: char) -> int {
    if exists|i: int| is_last_of(s, c, i) {
        (choose|i: int| is_last_of(s, c, i)) + 1
    } else {
        s.len() as int
    }
}

fn find_first(text: &str, n: usize, c: char) -> (r: usize)
    requires
        n == text@.len(),
    ensures
        r as int == json_start_of(text@, c),
        r <= n,
{
    let ghost s = text@;
    let mut i: usize = 0;
    while i < n
        invariant
            n == s.len(),
            s == text@,
            i <= n,
            forall|j: int| 0 <= j < i ==> s[j] != c,
        decreases n - i,
    {
        if text.get_char(i) == c {
            proof {
                lemma_first_unique(s, c, i as int);
            }
            return i;
        }
        i = i + 1;
    }
    proof {
        assert(!exists|k: int| is_first_of(s, c, k));
    }
    0
}

fn find_last_end(text: &str, n: usize, c: char) -> (r: usize)
    requires
        n == text@.len(),
    ensures
        r as int == json_end_of(text@, c),
        r <= n,
{
    let ghost s = text@;
    let mut i: usize = n;
    while i > 0
        invariant
            n == s.len(),
            s == text@,
            i <= n,
            forall|j: int| i <= j < n ==> s[j] != c,
        decreases i,
    {
        if text.get_char(i - 1) == c {
            proof {
                lemma_last_unique(s, c, i - 1);
            }
            return i;
        }
        i = i - 1;
    }
    proof {
        assert(!exists|k: int| is_last_of(s, c, k));
    }
    n
}

/// The JSON object in a reply: the text from its first `{` through its last
/// `}` (from the beginning when it has no `{`, to the end when it has no
/// `}`). A reply whose last `}` comes before its first `{` has no such span.
pub fn extract_json(text: &str) -> (r: &str)
    requires
        json_start(text@) <= json_end(text@),
    ensures
        r@ == extract_json_spec(text@),
{
    let n = text.unicode_len();
    let start = find_first(text, n, '{');
    let end = find_last_end(text, n, '}');
    text.substring_char(start, end)
}

// ------------------------------------------------------ reading the reply

/// The proposal edit a model edit stands for; the file of a move is read as a path.
pub open spec fn convert_spec(o: LlmOutputView) -> RefinementView {
    match o {
        LlmOutputView::RenameCategory { from, to } => RefinementView::RenameCategory { from, to },
        LlmOutputView::RemoveCategory { name } => RefinementView::RemoveCategory { name },
        LlmOutputView::AddCategory { name, purpose } => RefinementView::AddCategory { name, purpose },
        LlmOutputView::MoveFileToCategory { file, category } => RefinementView::MoveFileToCategory {
            file: parse_spec(file),
            category,
        },
    }
}

pub open spec fn opt_text(o: Option<String>) -> Option<Seq<char>> {
    match o {
        Some(s) => Some(s@),
        None => None,
    }
}

/// What a reply without an edit is refused with: a reason that, lower-cased,
/// mentions "ambiguous" makes it ambiguous; anything else is no edit at all.
pub open spec fn missing_refinement_error(reason: Option<Seq<char>>) -> ParseErrorView {
    let r = match reason {
        Some(m) => m,
        None => "No refinement specified"@,
    };
    if seq_contains(lowercase_of(r), "ambiguous"@) {
        ParseErrorView::AmbiguousRefinement(r)
    } else {
        ParseErrorView::NoRefinement
    }
}

/// The request sent to the model: the current proposal (as JSON) and the
/// user's words, with the instruction to answer with the JSON object only.
pub open spec fn user_prompt_spec(user_request: Seq<char>, proposal_json: Seq<char>) -> Seq<char> {
    "Current OrganizationProposal:\n"@ + proposal_json + "\n\nUser request: \""@ + user_request
        + "\"\n\nParse the user request into a single structured refinement. Respond ONLY with the JSON object."@
}

/// Builds the request sent to the model (see `user_prompt_spec`).
pub fn user_prompt(user_request: &str, proposal_json: &str) -> (r: String)
    ensures
        r@ == user_prompt_spec(user_request@, proposal_json@),
{
    let a = crate::text::cat3("Current OrganizationProposal:\n", proposal_json, "\n\nUser request: \"");
    crate::text::cat3(
        a.as_str(),
        user_request,
        "\"\n\nParse the user request into a single structured refinement. Respond ONLY with the JSON object.",
    )
}

/// The instructions given to the model with every request: what a
/// refinement is, the four kinds of edit with their JSON shapes, and the form
/// of the expected answer.
pub const SYSTEM_PROMPT: &'static str = "You are a proposal refinement parser. Your task is to parse a user's natural language request into a single structured refinement of the current OrganizationProposal.\n\nThe current proposal (as JSON) will be provided in the user message. Only reference categories and files that actually exist in that proposal. Do NOT hallucinate categories, authors, or files that are not present.\n\nOutput exactly ONE refinement per request. If the user asks for multiple changes (compound), or if the request is ambiguous, set \"refinement\" to null and explain why.\n\nValid refinement types (choose exactly one, or null):\n1. rename_category: {\"type\":\"rename_category\", \"from\":\"existing_name\", \"to\":\"new_name\"}\n2. remove_category: {\"type\":\"remove_category\", \"name\":\"category_name\"}\n3. add_category: {\"type\":\"add_category\", \"name\":\"new_name\", \"purpose\":\"description\"}\n4. move_file_to_category: {\"type\":\"move_file_to_category\", \"file\":\"filename.ext\", \"category\":\"target_category_name\"}\n\nOutput format (JSON only, no prose):\n{\n  \"refinement\": { ... } | null,\n  \"confidence\": 0.95,\n  \"reason\": \"brief explanation\"\n}";

/// Reads decoded model replies into proposal edits.
pub struct ProposalRefinementParser;

impl ProposalRefinementParser {
    pub fn new() -> (r: ProposalRefinementParser) {
        ProposalRefinementParser
    }

    /// The instructions given to the model with every request.
    pub fn system_prompt() -> (r: &'static str)
        ensures
            r@ == SYSTEM_PROMPT@,
    {
        SYSTEM_PROMPT
    }

    /// The proposal edit a model edit stands for; every model edit has one.
    pub fn convert_llm_refinement(o: LlmRefinementOutput) -> (r: Result<ProposalRefinement, RefinementParseError>)
        ensures
            r is Ok,
            r matches Ok(p) ==> p@ == convert_spec(o@),
    {
        match o {
            LlmRefinementOutput::RenameCategory { from, to } => Ok(ProposalRefinement::RenameCategory { from, to }),
            LlmRefinementOutput::RemoveCategory { name } => Ok(ProposalRefinement::RemoveCategory { name }),
            LlmRefinementOutput::AddCategory { name, purpose } => Ok(ProposalRefinement::AddCategory { name, purpose }),
            LlmRefinementOutput::MoveFileToCategory { file, category } => Ok(
                ProposalRefinement::MoveFileToCategory { file: FsPath::parse(file.as_str()), category },
            ),
        }
    }

    /// A decoded reply read into an edit: a reply that names an edit gives
    /// it, with the confidence and reason carried over; one that names none
    /// is refused as `missing_refinement_error` says.
    pub fn interpret(&self, response: LlmRefinementResponse) -> (r: Result<RefinementParseOutput, RefinementParseError>)
        ensures
            match response.refinement {
                Some(o) => r matches Ok(out) && out.refinement matches Some(p) && p@ == convert_spec(o@)
                    && out.confidence_bits == response.confidence_bits && opt_text(out.reason) == opt_text(
                    response.reason,
                ),
                None => r matches Err(e) && e@ == missing_refinement_error(opt_text(response.reason)),
            },
    {
        let LlmRefinementResponse { refinement, confidence_bits, reason } = response;
        match refinement {
            None => {
                let reason_text = match reason {
                    Some(m) => m,
                    None => owned("No refinement specified"),
                };
                let lower = to_lowercase(reason_text.as_str());
                if str_contains(lower.as_str(), "ambiguous") {
                    Err(RefinementParseError::AmbiguousRefinement(reason_text))
                } else {
                    Err(RefinementParseError::NoRefinement)
                }
            },
            Some(o) => {
                let converted = Self::convert_llm_refinement(o);
                match converted {
                    Ok(p) => Ok(RefinementParseOutput { refinement: Some(p), confidence_bits, reason }),
                    Err(e) => Err(e),
                }
            },
        }
    }
}

} // verus!

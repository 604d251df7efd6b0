//! The vocabulary of scope analysis: content types and how a file extension
//! maps to one, candidate categories, evidence gaps and analyzer errors.
use crate::intent::{goal_scope, TaskIntent};
use crate::path::{FsPath, PathView};
use crate::text::{chars_of, clone_strings, lowercase_of, to_lowercase};
use vstd::prelude::*;

verus! {

/// The broad kind of content a file holds, read from its extension.
#[derive(Clone, Copy, Debug, PartialEq, Eq, Hash)]
pub enum ContentType {
    Documents,
    Images,
    Archives,
    Media,
    Code,
    Installers,
    Data,
    Config,
    Other,
}

#[derive(Clone, Copy, Debug, PartialEq, Eq)]
pub enum AnomalyType {
    DuplicateContent,
    OrphanedDirectory,
    MixedContent,
    NamingInconsistency,
    LargeFile,
    EmptyDirectory,
}

#[derive(Clone, Copy, Debug, PartialEq, Eq)]
pub enum AmbiguityReason {
    UnclearCategory,
    ConflictingEvidence,
    InsufficientPrecedent,
    GenericFilename,
}

/// The kind of information that analysis could not settle.
#[derive(Clone, Copy, Debug, PartialEq, Eq)]
pub enum GapType {
    Taxonomy,
    FileDisposition,
    DuplicateHandling,
    ArchivePolicy,
    ScopeBoundary,
}

/// Something analysis could not settle, and whether the user must answer it.
#[derive(Clone, Debug, PartialEq, Eq)]
pub struct EvidenceGap {
    pub gap_type: GapType,
    pub description: String,
    pub requires_user_input: bool,
}

/// The files of one extension in the scope, and their content type.
#[derive(Clone, Debug, PartialEq, Eq)]
pub struct ContentGroup {
    pub extension: String,
    pub file_count: u64,
    pub total_size: u64,
    pub category: ContentType,
}

/// An existing directory that files could be organized into.
#[derive(Clone, Debug, PartialEq, Eq)]
pub struct CandidateCategory {
    pub name: String,
    pub path: FsPath,
    pub file_count: u64,
    pub is_existing: bool,
}

/// A file whose category analysis could not settle. `confidence_low_bits`
/// is the bit pattern of the classifier's confidence (an IEEE-754 double),
/// carried through unchanged.
#[derive(Clone, Debug, PartialEq, Eq)]
pub struct Ambiguity {
    pub path: FsPath,
    pub reason: AmbiguityReason,
    pub confidence_low_bits: u64,
    pub alternatives: Vec<String>,
}

pub struct AmbiguityView {
    pub path: PathView,
    pub reason: AmbiguityReason,
    pub confidence_low_bits: u64,
    pub alternatives: Seq<Seq<char>>,
}

impl View for Ambiguity {
    type V = AmbiguityView;

    open spec fn view(&self) -> AmbiguityView {
        AmbiguityView {
            path: self.path@,
            reason: self.reason,
            confidence_low_bits: self.confidence_low_bits,
            alternatives: self.alternatives@.map_values(|s: String| s@),
        }
    }
}

impl Ambiguity {
    /// An independent copy.
    pub fn copy(&self) -> (r: Ambiguity)
        ensures
            r@ == self@,
    {
        let r = Ambiguity {
            path: self.path.copy(),
            reason: self.reason,
            confidence_low_bits: self.confidence_low_bits,
            alternatives: clone_strings(&self.alternatives),
        };
        assert(r@.alternatives =~= self@.alternatives);
        r
    }
}

pub struct GapView {
    pub gap_type: GapType,
    pub description: Seq<char>,
    pub requires_user_input: bool,
}

impl View for EvidenceGap {
    type V = GapView;

    open spec fn view(&self) -> GapView {
        GapView {
            gap_type: self.gap_type,
            description: self.description@,
            requires_user_input: self.requires_user_input,
        }
    }
}

impl EvidenceGap {
    /// An independent copy.
    pub fn copy(&self) -> (r: EvidenceGap)
        ensures
            r@ == self@,
    {
        EvidenceGap {
            gap_type: self.gap_type,
            description: self.description.clone(),
            requires_user_input: self.requires_user_input,
        }
    }
}

/// Why analysis failed.
#[derive(Clone, Debug, PartialEq, Eq)]
pub enum AnalyzerError {
    ScopeNotADirectory(FsPath),
    ScopeNotScannable(FsPath),
    ScanFailed(String),
    ClassificationFailed(String),
}

pub open spec fn analyzer_error_message(e: AnalyzerError) -> Seq<char> {
    match e {
        AnalyzerError::ScopeNotADirectory(p) => "Scope is not a directory: "@ + crate::path::display_spec(p@),
        AnalyzerError::ScopeNotScannable(p) => "Scope directory is not scannable: "@ + crate::path::display_spec(p@),
        AnalyzerError::ScanFailed(m) => "Scan failed: "@ + m@,
        AnalyzerError::ClassificationFailed(m) => "Classification failed: "@ + m@,
    }
}

impl AnalyzerError {
    /// The error as shown to users.
    pub fn message(&self) -> (r: String)
        ensures
            r@ == analyzer_error_message(*self),
    {
        match self {
            AnalyzerError::ScopeNotADirectory(p) => crate::text::cat("Scope is not a directory: ", p.display().as_str()),
            AnalyzerError::ScopeNotScannable(p) => crate::text::cat("Scope directory is not scannable: ", p.display().as_str()),
            AnalyzerError::ScanFailed(m) => crate::text::cat("Scan failed: ", m.as_str()),
            AnalyzerError::ClassificationFailed(m) => crate::text::cat("Classification failed: ", m.as_str()),
        }
    }
}

/// Extensions of each content type, in the order they are listed.
pub open spec fn document_exts() -> Seq<Seq<char>> {
    seq!["pdf"@, "doc"@, "docx"@, "xls"@, "xlsx"@, "ppt"@, "pptx"@, "txt"@, "md"@, "csv"@, "rtf"@, "odt"@, "odp"@, "ods"@]
}

pub open spec fn image_exts() -> Seq<Seq<char>> {
    seq!["jpg"@, "jpeg"@, "png"@, "gif"@, "bmp"@, "tiff"@, "tif"@, "webp"@, "svg"@, "ico"@, "raw"@]
}

pub open spec fn archive_exts() -> Seq<Seq<char>> {
    seq!["zip"@, "rar"@, "7z"@, "tar"@, "gz"@, "bz2"@, "xz"@, "tgz"@, "tbz2"@]
}

pub open spec fn media_exts() -> Seq<Seq<char>> {
    seq!["mp4"@, "avi"@, "mkv"@, "mov"@, "wmv"@, "flv"@, "webm"@, "mp3"@, "wav"@, "flac"@, "aac"@, "ogg"@]
}

pub open spec fn code_exts() -> Seq<Seq<char>> {
    seq![
        "py"@, "js"@, "ts"@, "rs"@, "go"@, "java"@, "c"@, "cpp"@, "h"@, "hpp"@, "sh"@, "rb"@, "php"@,
        "html"@, "css"@, "json"@, "xml"@, "yaml"@, "yml"@, "toml"@,
    ]
}

pub open spec fn installer_exts() -> Seq<Seq<char>> {
    seq!["exe"@, "msi"@, "dmg"@, "pkg"@, "deb"@, "rpm"@, "appimage"@]
}

pub open spec fn data_exts() -> Seq<Seq<char>> {
    seq!["db"@, "sqlite"@, "sqlite3"@, "dat"@, "bin"@]
}

pub open spec fn config_exts() -> Seq<Seq<char>> {
    seq!["conf"@, "cfg"@, "ini"@, "env"@, "properties"@]
}

/// `s` without any leading `.` characters.
pub open spec fn trim_dots(s: Seq<char>) -> Seq<char>
    decreases s.len(),
{
    if s.len() > 0 && s[0] == '.' {
        trim_dots(s.drop_first())
    } else {
        s
    }
}

/// The content type of a normalized extension: the first list that holds it.
pub open spec fn content_type_of_ext(e: Seq<char>) -> ContentType {
    if document_exts().contains(e) {
        ContentType::Documents
    } else if image_exts().contains(e) {
        ContentType::Images
    } else if archive_exts().contains(e) {
        ContentType::Archives
    } else if media_exts().contains(e) {
        ContentType::Media
    } else if code_exts().contains(e) {
        ContentType::Code
    } else if installer_exts().contains(e) {
        ContentType::Installers
    } else if data_exts().contains(e) {
        ContentType::Data
    } else if config_exts().contains(e) {
        ContentType::Config
    } else {
        ContentType::Other
    }
}

/// Whether `s` is one of `list`.
pub fn text_in_list(s: &str, list: &Vec<&str>) -> (b: bool)
    ensures
        b == list@.map_values(|x: &str| x@).contains(s@),
{
    let mut i: usize = 0;
    while i < list.len()
        invariant
            i <= list@.len(),
            forall|k: int| 0 <= k < i ==> list@[k]@ != s@,
        decreases list@.len() - i,
    {
        if crate::text::str_eq(list[i], s) {
            assert(list@.map_values(|x: &str| x@)[i as int] == s@);
            return true;
        }
        i = i + 1;
    }
    let ghost m = list@.map_values(|x: &str| x@);
    assert forall|k: int| 0 <= k < m.len() implies #[trigger] m[k] != s@ by {
        assert(list@[k]@ != s@);
    }
    false
}

fn document_list() -> (r: Vec<&'static str>)
    ensures
        r@.map_values(|x: &str| x@) == document_exts(),
{
    let r = vec!["pdf", "doc", "docx", "xls", "xlsx", "ppt", "pptx", "txt", "md", "csv", "rtf", "odt", "odp", "ods"];
    assert(r@.map_values(|x: &str| x@) =~= document_exts());
    r
}

fn image_list() -> (r: Vec<&'static str>)
    ensures
        r@.map_values(|x: &str| x@) == image_exts(),
{
    let r = vec!["jpg", "jpeg", "png", "gif", "bmp", "tiff", "tif", "webp", "svg", "ico", "raw"];
    assert(r@.map_values(|x: &str| x@) =~= image_exts());
    r
}

fn archive_list() -> (r: Vec<&'static str>)
    ensures
        r@.map_values(|x: &str| x@) == archive_exts(),
{
    let r = vec!["zip", "rar", "7z", "tar", "gz", "bz2", "xz", "tgz", "tbz2"];
    assert(r@.map_values(|x: &str| x@) =~= archive_exts());
    r
}

fn media_list() -> (r: Vec<&'static str>)
    ensures
        r@.map_values(|x: &str| x@) == media_exts(),
{
    let r = vec!["mp4", "avi", "mkv", "mov", "wmv", "flv", "webm", "mp3", "wav", "flac", "aac", "ogg"];
    assert(r@.map_values(|x: &str| x@) =~= media_exts());
    r
}

fn code_list() -> (r: Vec<&'static str>)
    ensures
        r@.map_values(|x: &str| x@) == code_exts(),
{
    let r = vec![
        "py", "js", "ts", "rs", "go", "java", "c", "cpp", "h", "hpp", "sh", "rb", "php", "html", "css",
        "json", "xml", "yaml", "yml", "toml",
    ];
    assert(r@.map_values(|x: &str| x@) =~= code_exts());
    r
}

fn installer_list() -> (r: Vec<&'static str>)
    ensures
        r@.map_values(|x: &str| x@) == installer_exts(),
{
    let r = vec!["exe", "msi", "dmg", "pkg", "deb", "rpm", "appimage"];
    assert(r@.map_values(|x: &str| x@) =~= installer_exts());
    r
}

fn data_list() -> (r: Vec<&'static str>)
    ensures
        r@.map_values(|x: &str| x@) == data_exts(),
{
    let r = vec!["db", "sqlite", "sqlite3", "dat", "bin"];
    assert(r@.map_values(|x: &str| x@) =~= data_exts());
    r
}

fn config_list() -> (r: Vec<&'static str>)
    ensures
        r@.map_values(|x: &str| x@) == config_exts(),
{
    let r = vec!["conf", "cfg", "ini", "env", "properties"];
    assert(r@.map_values(|x: &str| x@) =~= config_exts());
    r
}

/// `s` without its leading `.` characters.
fn trim_dots_exec(s: &Vec<char>) -> (r: Vec<char>)
    ensures
        r@ == trim_dots(s@),
{
    let n = s.len();
    let mut k: usize = 0;
    assert(s@.skip(0) =~= s@);
    while k < n && s[k] == '.'
        invariant
            n == s@.len(),
            k <= n,
            trim_dots(s@) == trim_dots(s@.skip(k as int)),
        decreases n - k,
    {
        assert(s@.skip(k as int).drop_first() =~= s@.skip(k + 1));
        k = k + 1;
    }
    let mut r: Vec<char> = Vec::new();
    let mut j: usize = k;
    while j < n
        invariant
            n == s@.len(),
            k <= j <= n,
            r@ == s@.subrange(k as int, j as int),
        decreases n - j,
    {
        r.push(s[j]);
        j = j + 1;
        assert(r@ =~= s@.subrange(k as int, j as int));
    }
    assert(s@.skip(k as int) =~= s@.subrange(k as int, n as int));
    r
}

/// Holds an optional instruction for the classifier; blank instructions are dropped.
#[derive(Clone, Debug)]
pub struct EvidenceAnalyzer {
    pub classifier_instruction: Option<String>,
}

/// Whether every character of `s` is whitespace.
pub open spec fn all_whitespace(s: Seq<char>) -> bool {
    forall|i: int| 0 <= i < s.len() ==> crate::intent::is_whitespace_char(#[trigger] s[i])
}

impl EvidenceAnalyzer {
    pub fn new() -> (r: EvidenceAnalyzer)
        ensures
            r.classifier_instruction is None,
    {
        EvidenceAnalyzer { classifier_instruction: None }
    }

    /// Sets the classifier instruction; one that is empty after trimming counts as none.
    pub fn with_classifier_instruction(self, instruction: Option<String>) -> (r: EvidenceAnalyzer)
        ensures
            match instruction {
                Some(s) => if all_whitespace(s@) {
                    r.classifier_instruction is None
                } else {
                    r.classifier_instruction == Some(s)
                },
                None => r.classifier_instruction is None,
            },
    {
        match instruction {
            None => EvidenceAnalyzer { classifier_instruction: None },
            Some(s) => {
                if is_blank(s.as_str()) {
                    EvidenceAnalyzer { classifier_instruction: None }
                } else {
                    EvidenceAnalyzer { classifier_instruction: Some(s) }
                }
            },
        }
    }

    /// The scope named by the intent's goal.
    pub fn extract_scope(&self, intent: &TaskIntent) -> (r: FsPath)
        ensures
            r@ == goal_scope(intent.goal@),
    {
        intent.goal.scope()
    }

    /// The content type of a file extension; case and leading dots are ignored.
    pub fn classify_extension(ext: &str) -> (r: ContentType)
        ensures
            r == content_type_of_ext(trim_dots(lowercase_of(ext@))),
    {
        let lower = to_lowercase(ext);
        let cs = chars_of(lower.as_str());
        let trimmed = trim_dots_exec(&cs);
        let t = crate::path::chars_to_string(&trimmed);
        let e = t.as_str();
        if text_in_list(e, &document_list()) {
            ContentType::Documents
        } else if text_in_list(e, &image_list()) {
            ContentType::Images
        } else if text_in_list(e, &archive_list()) {
            ContentType::Archives
        } else if text_in_list(e, &media_list()) {
            ContentType::Media
        } else if text_in_list(e, &code_list()) {
            ContentType::Code
        } else if text_in_list(e, &installer_list()) {
            ContentType::Installers
        } else if text_in_list(e, &data_list()) {
            ContentType::Data
        } else if text_in_list(e, &config_list()) {
            ContentType::Config
        } else {
            ContentType::Other
        }
    }
}

/// Whether the text is empty after trimming whitespace.
fn is_blank(s: &str) -> (b: bool)
    ensures
        b == all_whitespace(s@),
{
    let cs = chars_of(s);
    let mut i: usize = 0;
    while i < cs.len()
        invariant
            cs@ == s@,
            i <= cs@.len(),
            forall|k: int| 0 <= k < i ==> crate::intent::is_whitespace_char(#[trigger] s@[k]),
        decreases cs@.len() - i,
    {
        if !crate::intent::char_is_whitespace(cs[i]) {
            return false;
        }
        i = i + 1;
    }
    true
}


// ------------------------------------------------------ evidence gaps

pub open spec fn gap(t: GapType, d: Seq<char>) -> GapView {
    GapView { gap_type: t, description: d, requires_user_input: true }
}

/// No content group has a recognizable type.
pub open spec fn no_recognizable_groups(groups: Seq<ContentGroup>) -> bool {
    forall|i: int| 0 <= i < groups.len() ==> (#[trigger] groups[i]).category == ContentType::Other
}

/// What analysis leaves for the user to settle: a taxonomy when no content is
/// recognizable, and again when only general organization was asked for; a
/// disposition policy unless the goal (as `goal_text`, its serialized form)
/// mentions deleting or keeping; and duplicate handling when the classifier
/// asked the user. Each gap needs the user's answer.
pub open spec fn gaps_spec(
    goal: crate::intent::GoalView,
    groups: Seq<ContentGroup>,
    decisions: Seq<crate::recommendation::ClassificationDecision>,
    goal_text: Seq<char>,
) -> Seq<GapView> {
    let l = lowercase_of(goal_text);
    let g1 = if no_recognizable_groups(groups) {
        seq![gap(GapType::Taxonomy, "No recognizable file categories found — user-defined taxonomy needed"@)]
    } else {
        seq![]
    };
    let g2 = if goal matches crate::intent::GoalView::Organize { purpose, .. } && purpose == "general_organization"@ {
        seq![gap(GapType::Taxonomy, "General organization requested — specific taxonomy not specified"@)]
    } else {
        seq![]
    };
    let g3 = if !crate::text::seq_contains(l, "delete"@) && !crate::text::seq_contains(l, "keep"@) {
        seq![gap(GapType::FileDisposition, "File disposition policy not specified"@)]
    } else {
        seq![]
    };
    let g4 = if exists|i: int|
        0 <= i < decisions.len() && #[trigger] decisions[i] == crate::recommendation::ClassificationDecision::AskUser {
        seq![gap(GapType::DuplicateHandling, "Some files have conflicting classifications requiring user input"@)]
    } else {
        seq![]
    };
    g1 + g2 + g3 + g4
}

pub open spec fn gaps_view(v: Seq<EvidenceGap>) -> Seq<GapView> {
    v.map_values(|g: EvidenceGap| g@)
}

fn push_gap(gaps: &mut Vec<EvidenceGap>, t: GapType, d: &str)
    ensures
        gaps_view(final(gaps)@) == gaps_view(old(gaps)@).push(gap(t, d@)),
{
    let ghost before = gaps_view(gaps@);
    gaps.push(EvidenceGap { gap_type: t, description: crate::text::owned(d), requires_user_input: true });
    assert(gaps_view(gaps@) =~= before.push(gap(t, d@)));
}

impl EvidenceAnalyzer {
    /// The gaps analysis leaves for the user (see `gaps_spec`); `decisions`
    /// are the classifier's decisions, and `goal_text` the goal as serialized
    /// for matching.
    pub fn identify_gaps(
        &self,
        intent: &TaskIntent,
        content_groups: &Vec<ContentGroup>,
        decisions: &Vec<crate::recommendation::ClassificationDecision>,
        goal_text: &str,
    ) -> (r: Vec<EvidenceGap>)
        ensures
            gaps_view(r@) == gaps_spec(intent.goal@, content_groups@, decisions@, goal_text@),
    {
        let mut gaps: Vec<EvidenceGap> = Vec::new();
        let ghost e = Seq::<GapView>::empty();
        assert(gaps_view(gaps@) =~= e);

        let mut all_other = true;
        let mut i: usize = 0;
        while i < content_groups.len()
            invariant
                i <= content_groups@.len(),
                all_other == forall|k: int| 0 <= k < i ==> (#[trigger] content_groups@[k]).category == ContentType::Other,
            decreases content_groups@.len() - i,
        {
            match content_groups[i].category {
                ContentType::Other => {},
                _ => {
                    all_other = false;
                },
            }
            i = i + 1;
        }
        if all_other {
            push_gap(&mut gaps, GapType::Taxonomy, "No recognizable file categories found — user-defined taxonomy needed");
        }
        match &intent.goal {
            crate::intent::Goal::Organize { purpose, .. } => {
                if crate::text::str_eq(purpose.as_str(), "general_organization") {
                    push_gap(&mut gaps, GapType::Taxonomy, "General organization requested — specific taxonomy not specified");
                }
            },
            _ => {},
        }
        let lower = to_lowercase(goal_text);
        if !crate::text::str_contains(lower.as_str(), "delete") && !crate::text::str_contains(lower.as_str(), "keep") {
            push_gap(&mut gaps, GapType::FileDisposition, "File disposition policy not specified");
        }
        let mut asks = false;
        let mut j: usize = 0;
        while j < decisions.len()
            invariant
                j <= decisions@.len(),
                asks == exists|k: int|
                    0 <= k < j && #[trigger] decisions@[k] == crate::recommendation::ClassificationDecision::AskUser,
            decreases decisions@.len() - j,
        {
            match decisions[j] {
                crate::recommendation::ClassificationDecision::AskUser => {
                    asks = true;
                },
                _ => {},
            }
            j = j + 1;
        }
        if asks {
            push_gap(&mut gaps, GapType::DuplicateHandling, "Some files have conflicting classifications requiring user input");
        }
        gaps
    }
}


// ------------------------------------------------------ anomalies and ambiguities

/// What a scan found in a directory, as analysis reads it: the counts, the
/// total size in bytes, whether it is empty, and the number of files per
/// extension (one entry per extension).
#[derive(Clone, Debug, PartialEq, Eq)]
pub struct DirectoryEvidence {
    pub path: FsPath,
    pub file_count: u64,
    pub directory_count: u64,
    pub total_size: u64,
    pub is_empty: bool,
    pub extension_counts: Vec<(String, u64)>,
}

/// No extension is listed twice.
pub open spec fn extensions_distinct(es: Seq<(String, u64)>) -> bool {
    forall|i: int, j: int| 0 <= i < j < es.len() ==> (#[trigger] es[i]).0@ != (#[trigger] es[j]).0@
}

/// Something unusual about the scope, with the figures that show it, each
/// under its name.
#[derive(Clone, Debug, PartialEq, Eq)]
pub struct Anomaly {
    pub path: FsPath,
    pub anomaly_type: AnomalyType,
    pub description: String,
    pub evidence: Vec<(String, u64)>,
}

pub struct AnomalyView {
    pub path: PathView,
    pub anomaly_type: AnomalyType,
    pub description: Seq<char>,
    pub evidence: Seq<(Seq<char>, u64)>,
}

pub open spec fn anomalies_view(v: Seq<Anomaly>) -> Seq<AnomalyView> {
    v.map_values(
        |a: Anomaly|
            AnomalyView {
                path: a.path@,
                anomaly_type: a.anomaly_type,
                description: a.description@,
                evidence: a.evidence@.map_values(|e: (String, u64)| (e.0@, e.1)),
            },
    )
}

/// Scopes larger than this many bytes (100 GiB) are reported.
pub const VERY_LARGE_SCOPE: u64 = 107374182400;

/// The anomalies of a scope, in this order: many files and no
/// subdirectory (more than 50 files); subdirectories but no file; more than
/// 100 GiB; an empty scope; more than 20 extensions.
pub open spec fn anomalies_spec(e: DirectoryEvidence) -> Seq<AnomalyView> {
    let p = e.path@;
    let counts = seq![("file_count"@, e.file_count), ("directory_count"@, e.directory_count)];
    let flat = if e.directory_count == 0 && e.file_count > 50 {
        seq![AnomalyView {
            path: p,
            anomaly_type: AnomalyType::MixedContent,
            description: "Large number of files in a single directory (possible flat structure)"@,
            evidence: counts,
        }]
    } else {
        seq![]
    };
    let orphan = if e.file_count == 0 && e.directory_count > 0 {
        seq![AnomalyView {
            path: p,
            anomaly_type: AnomalyType::OrphanedDirectory,
            description: "Directory exists but contains no files"@,
            evidence: counts,
        }]
    } else {
        seq![]
    };
    let large = if e.total_size > VERY_LARGE_SCOPE {
        seq![AnomalyView {
            path: p,
            anomaly_type: AnomalyType::LargeFile,
            description: "Scope directory is very large (>100GB)"@,
            evidence: seq![("total_size"@, e.total_size)],
        }]
    } else {
        seq![]
    };
    let empty = if e.is_empty {
        seq![AnomalyView {
            path: p,
            anomaly_type: AnomalyType::EmptyDirectory,
            description: "Scope directory is empty"@,
            evidence: seq![],
        }]
    } else {
        seq![]
    };
    let mixed = if e.extension_counts@.len() > 20 {
        seq![AnomalyView {
            path: p,
            anomaly_type: AnomalyType::MixedContent,
            description: "Many different file types detected (possible lack of organization)"@,
            evidence: seq![("unique_extensions"@, e.extension_counts@.len() as u64)],
        }]
    } else {
        seq![]
    };
    flat + orphan + large + empty + mixed
}

/// The largest per-extension count (0 when there is none).
pub open spec fn max_count(es: Seq<(String, u64)>) -> u64
    decreases es.len(),
{
    if es.len() == 0 {
        0
    } else {
        let m = max_count(es.drop_last());
        if es.last().1 > m {
            es.last().1
        } else {
            m
        }
    }
}

/// What ambiguity detection reads of a classification result: the path it
/// is about, the decision, the confidence (the bit pattern of an IEEE-754
/// double) and the names of the alternatives offered.
#[derive(Clone, Debug, PartialEq, Eq)]
pub struct ClassifiedItem {
    pub target_path: FsPath,
    pub decision: crate::recommendation::ClassificationDecision,
    pub confidence_bits: u64,
    pub alternative_names: Vec<String>,
}

/// The bit pattern of the confidence 0.3 given to an unclear scope.
pub const UNCLEAR_CONFIDENCE_BITS: u64 = 0x3FD3333333333333;

/// The scope is unclear when it has more than five extensions and no
/// extension covers half of its files (`max / files < 0.5`, compared in whole
/// numbers; with no file the ratio is never below one half).
pub open spec fn scope_unclear(e: DirectoryEvidence) -> bool {
    e.extension_counts@.len() > 5 && e.file_count > 0 && 2 * (max_count(e.extension_counts@) as int) < e.file_count
}

/// The ambiguities a classification result gives: one with conflicting
/// evidence when the user is to be asked, one for lack of precedent when
/// the file stays unclassified.
pub open spec fn item_ambiguities(c: ClassifiedItem) -> Seq<AmbiguityView> {
    match c.decision {
        crate::recommendation::ClassificationDecision::AskUser => seq![AmbiguityView {
            path: c.target_path@,
            reason: AmbiguityReason::ConflictingEvidence,
            confidence_low_bits: c.confidence_bits,
            alternatives: c.alternative_names@.map_values(|s: String| s@),
        }],
        crate::recommendation::ClassificationDecision::LeaveUnclassified => seq![AmbiguityView {
            path: c.target_path@,
            reason: AmbiguityReason::InsufficientPrecedent,
            confidence_low_bits: c.confidence_bits,
            alternatives: seq![],
        }],
        _ => seq![],
    }
}

pub open spec fn items_ambiguities(cs: Seq<ClassifiedItem>) -> Seq<AmbiguityView>
    decreases cs.len(),
{
    if cs.len() == 0 {
        seq![]
    } else {
        items_ambiguities(cs.drop_last()) + item_ambiguities(cs.last())
    }
}

/// The ambiguities of a scope: an unclear scope first (listing its first five
/// extensions as alternatives), then those of the classification results, in order.
pub open spec fn ambiguities_spec(e: DirectoryEvidence, cs: Seq<ClassifiedItem>) -> Seq<AmbiguityView> {
    let head = if scope_unclear(e) {
        seq![AmbiguityView {
            path: e.path@,
            reason: AmbiguityReason::UnclearCategory,
            confidence_low_bits: UNCLEAR_CONFIDENCE_BITS,
            alternatives: e.extension_counts@.take(5).map_values(|x: (String, u64)| x.0@),
        }]
    } else {
        seq![]
    };
    head + items_ambiguities(cs)
}

pub open spec fn ambiguities_view(v: Seq<Ambiguity>) -> Seq<AmbiguityView> {
    v.map_values(|a: Ambiguity| a@)
}

fn count_pairs(a: &str, x: u64, b: &str, y: u64) -> (r: Vec<(String, u64)>)
    ensures
        r@.map_values(|e: (String, u64)| (e.0@, e.1)) == seq![(a@, x), (b@, y)],
{
    let r = vec![(crate::text::owned(a), x), (crate::text::owned(b), y)];
    assert(r@.map_values(|e: (String, u64)| (e.0@, e.1)) =~= seq![(a@, x), (b@, y)]);
    r
}

fn push_anomaly(out: &mut Vec<Anomaly>, a: Anomaly)
    ensures
        anomalies_view(final(out)@) == anomalies_view(old(out)@).push(anomalies_view(seq![a])[0]),
{
    let ghost prev = anomalies_view(out@);
    out.push(a);
    assert(anomalies_view(out@) =~= prev.push(anomalies_view(seq![a])[0]));
}

impl EvidenceAnalyzer {
    /// The anomalies of a scope, as `anomalies_spec` lists them.
    pub fn detect_anomalies(evidence: &DirectoryEvidence) -> (r: Vec<Anomaly>)
        requires
            extensions_distinct(evidence.extension_counts@),
        ensures
            anomalies_view(r@) == anomalies_spec(*evidence),
    {
        let mut out: Vec<Anomaly> = Vec::new();
        let ghost p = evidence.path@;
        let ghost counts = seq![("file_count"@, evidence.file_count), ("directory_count"@, evidence.directory_count)];
        if evidence.directory_count == 0 && evidence.file_count > 50 {
            push_anomaly(&mut out, Anomaly {
                path: evidence.path.copy(),
                anomaly_type: AnomalyType::MixedContent,
                description: crate::text::owned("Large number of files in a single directory (possible flat structure)"),
                evidence: count_pairs("file_count", evidence.file_count, "directory_count", evidence.directory_count),
            });
        }
        let ghost s1 = anomalies_view(out@);
        if evidence.file_count == 0 && evidence.directory_count > 0 {
            push_anomaly(&mut out, Anomaly {
                path: evidence.path.copy(),
                anomaly_type: AnomalyType::OrphanedDirectory,
                description: crate::text::owned("Directory exists but contains no files"),
                evidence: count_pairs("file_count", evidence.file_count, "directory_count", evidence.directory_count),
            });
        }
        let ghost s2 = anomalies_view(out@);
        if evidence.total_size > VERY_LARGE_SCOPE {
            let ev = vec![(crate::text::owned("total_size"), evidence.total_size)];
            assert(ev@.map_values(|e: (String, u64)| (e.0@, e.1)) =~= seq![("total_size"@, evidence.total_size)]);
            push_anomaly(&mut out, Anomaly {
                path: evidence.path.copy(),
                anomaly_type: AnomalyType::LargeFile,
                description: crate::text::owned("Scope directory is very large (>100GB)"),
                evidence: ev,
            });
        }
        let ghost s3 = anomalies_view(out@);
        if evidence.is_empty {
            let ev: Vec<(String, u64)> = Vec::new();
            assert(ev@.map_values(|e: (String, u64)| (e.0@, e.1)) =~= Seq::<(Seq<char>, u64)>::empty());
            push_anomaly(&mut out, Anomaly {
                path: evidence.path.copy(),
                anomaly_type: AnomalyType::EmptyDirectory,
                description: crate::text::owned("Scope directory is empty"),
                evidence: ev,
            });
        }
        let ghost s4 = anomalies_view(out@);
        let n = evidence.extension_counts.len();
        if n > 20 {
            let ev = vec![(crate::text::owned("unique_extensions"), n as u64)];
            assert(ev@.map_values(|e: (String, u64)| (e.0@, e.1)) =~= seq![("unique_extensions"@, n as u64)]);
            push_anomaly(&mut out, Anomaly {
                path: evidence.path.copy(),
                anomaly_type: AnomalyType::MixedContent,
                description: crate::text::owned("Many different file types detected (possible lack of organization)"),
                evidence: ev,
            });
        }
        assert(anomalies_view(out@) =~= anomalies_spec(*evidence));
        out
    }

    /// The ambiguities of a scope and its classification results, as
    /// `ambiguities_spec` lists them.
    pub fn detect_ambiguities(evidence: &DirectoryEvidence, results: &Vec<ClassifiedItem>) -> (r: Vec<Ambiguity>)
        requires
            extensions_distinct(evidence.extension_counts@),
        ensures
            ambiguities_view(r@) == ambiguities_spec(*evidence, results@),
    {
        let mut out: Vec<Ambiguity> = Vec::new();
        let es = &evidence.extension_counts;
        let mut mx: u64 = 0;
        let mut i: usize = 0;
        while i < es.len()
            invariant
                i <= es@.len(),
                mx == max_count(es@.take(i as int)),
            decreases es@.len() - i,
        {
            assert(es@.take(i + 1).drop_last() =~= es@.take(i as int));
            if es[i].1 > mx {
                mx = es[i].1;
            }
            i = i + 1;
        }
        assert(es@.take(es@.len() as int) =~= es@);
        if es.len() > 5 && evidence.file_count > 0 && (mx as u128) * 2 < evidence.file_count as u128 {
            let mut names: Vec<String> = Vec::new();
            let mut k: usize = 0;
            while k < 5
                invariant
                    k <= 5,
                    5 < es@.len(),
                    names@.map_values(|s: String| s@) == es@.take(k as int).map_values(|x: (String, u64)| x.0@),
                decreases 5 - k,
            {
                let ghost prev = names@.map_values(|s: String| s@);
                names.push(es[k].0.clone());
                assert(names@.map_values(|s: String| s@) =~= prev.push(es@[k as int].0@));
                assert(es@.take(k + 1).map_values(|x: (String, u64)| x.0@) =~= es@.take(k as int).map_values(
                    |x: (String, u64)| x.0@,
                ).push(es@[k as int].0@));
                k = k + 1;
            }
            let a = Ambiguity {
                path: evidence.path.copy(),
                reason: AmbiguityReason::UnclearCategory,
                confidence_low_bits: UNCLEAR_CONFIDENCE_BITS,
                alternatives: names,
            };
            out.push(a);
        }
        let ghost head = ambiguities_view(out@);
        assert(head =~= ambiguities_spec(*evidence, Seq::<ClassifiedItem>::empty()));
        let mut j: usize = 0;
        assert(results@.take(0) =~= Seq::<ClassifiedItem>::empty());
        while j < results.len()
            invariant
                j <= results@.len(),
                ambiguities_view(out@) == head + items_ambiguities(results@.take(j as int)),
            decreases results@.len() - j,
        {
            let c = &results[j];
            let ghost before = ambiguities_view(out@);
            match c.decision {
                crate::recommendation::ClassificationDecision::AskUser => {
                    let a = Ambiguity {
                        path: c.target_path.copy(),
                        reason: AmbiguityReason::ConflictingEvidence,
                        confidence_low_bits: c.confidence_bits,
                        alternatives: clone_strings(&c.alternative_names),
                    };
                    out.push(a);
                    assert(ambiguities_view(out@) =~= before.push(a@));
                    assert(item_ambiguities(results@[j as int]) =~= seq![a@]);
                },
                crate::recommendation::ClassificationDecision::LeaveUnclassified => {
                    let a = Ambiguity {
                        path: c.target_path.copy(),
                        reason: AmbiguityReason::InsufficientPrecedent,
                        confidence_low_bits: c.confidence_bits,
                        alternatives: Vec::new(),
                    };
                    out.push(a);
                    assert(ambiguities_view(out@) =~= before.push(a@));
                    assert(a@.alternatives =~= Seq::<Seq<char>>::empty());
                    assert(item_ambiguities(results@[j as int]) =~= seq![a@]);
                },
                _ => {},
            }
            assert(ambiguities_view(out@) =~= before + item_ambiguities(results@[j as int]));
            assert(results@.take(j + 1).drop_last() =~= results@.take(j as int));
            j = j + 1;
        }
        assert(results@.take(results@.len() as int) =~= results@);
        out
    }
}


/// The extensions analysis reads as each content type.
pub proof fn law_analysis_extension_table()
    ensures
        document_exts() == seq![
            "pdf"@, "doc"@, "docx"@, "xls"@, "xlsx"@, "ppt"@, "pptx"@, "txt"@, "md"@, "csv"@, "rtf"@, "odt"@, "odp"@, "ods"@,
        ],
        image_exts() == seq!["jpg"@, "jpeg"@, "png"@, "gif"@, "bmp"@, "tiff"@, "tif"@, "webp"@, "svg"@, "ico"@, "raw"@],
        archive_exts() == seq!["zip"@, "rar"@, "7z"@, "tar"@, "gz"@, "bz2"@, "xz"@, "tgz"@, "tbz2"@],
        media_exts() == seq!["mp4"@, "avi"@, "mkv"@, "mov"@, "wmv"@, "flv"@, "webm"@, "mp3"@, "wav"@, "flac"@, "aac"@, "ogg"@],
        code_exts() == seq![
            "py"@, "js"@, "ts"@, "rs"@, "go"@, "java"@, "c"@, "cpp"@, "h"@, "hpp"@, "sh"@, "rb"@, "php"@,
            "html"@, "css"@, "json"@, "xml"@, "yaml"@, "yml"@, "toml"@,
        ],
        installer_exts() == seq!["exe"@, "msi"@, "dmg"@, "pkg"@, "deb"@, "rpm"@, "appimage"@],
        data_exts() == seq!["db"@, "sqlite"@, "sqlite3"@, "dat"@, "bin"@],
        config_exts() == seq!["conf"@, "cfg"@, "ini"@, "env"@, "properties"@],
{
}

} // verus!

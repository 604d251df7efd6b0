//! Operation plans: the filesystem operations a recommendation turns into,
//! their estimated impact, and the checks a plan must pass when generated.
use crate::analysis::{CandidateCategory, ContentType};
use crate::intent::ConstraintSet;
use crate::path::{display_spec, file_name_spec, join_spec, parse_spec, starts_with_spec, FsPath, PathView};
use crate::proposal_converter::{convert_spec, unresolved_view, UnresolvedItem, UnresolvedReason, UnresolvedView};
use crate::recommendation::{categories_view, proposal_assigns_files, ProposedOperation, ProposedView, Recommendation};
use crate::snapshot::{exists_in, FsSnapshot, FsView};
use crate::text::{cat, cat3, chars_of, decimal, lowercase_of, owned, str_eq, to_lowercase, u64_to_text, usize_to_text};
use vstd::prelude::*;

verus! {

/// One filesystem operation.
#[derive(Clone, Debug, PartialEq, Eq)]
pub enum FileSystemOperation {
    Move { source: FsPath, dest: FsPath },
    CreateDir { path: FsPath },
    Delete { path: FsPath, reason: String },
}

pub enum OpView {
    Move { source: PathView, dest: PathView },
    CreateDir { path: PathView },
    Delete { path: PathView, reason: Seq<char> },
}

impl View for FileSystemOperation {
    type V = OpView;

    open spec fn view(&self) -> OpView {
        match self {
            FileSystemOperation::Move { source, dest } => OpView::Move { source: source@, dest: dest@ },
            FileSystemOperation::CreateDir { path } => OpView::CreateDir { path: path@ },
            FileSystemOperation::Delete { path, reason } => OpView::Delete { path: path@, reason: reason@ },
        }
    }
}

/// The views of a list of operations.
pub open spec fn ops_view(ops: Seq<FileSystemOperation>) -> Seq<OpView> {
    ops.map_values(|o: FileSystemOperation| o@)
}

/// The operation's kind as text.
pub open spec fn op_type_spec(op: OpView) -> Seq<char> {
    match op {
        OpView::Move { .. } => "move"@,
        OpView::CreateDir { .. } => "create_dir"@,
        OpView::Delete { .. } => "delete"@,
    }
}

/// A one-line description of the operation.
pub open spec fn description_spec(op: OpView) -> Seq<char> {
    match op {
        OpView::Move { source, dest } => "Move "@ + display_spec(source) + " → "@ + display_spec(dest),
        OpView::CreateDir { path } => "Create directory: "@ + display_spec(path),
        OpView::Delete { path, reason } => "Delete "@ + display_spec(path) + " ("@ + reason + ")"@,
    }
}

/// The path the operation reads from: the source of a move, the target of a delete.
pub open spec fn source_spec(op: OpView) -> Option<PathView> {
    match op {
        OpView::Move { source, .. } => Some(source),
        OpView::Delete { path, .. } => Some(path),
        OpView::CreateDir { .. } => None,
    }
}

/// The path the operation writes: the destination of a move, the directory created.
pub open spec fn dest_spec(op: OpView) -> Option<PathView> {
    match op {
        OpView::Move { dest, .. } => Some(dest),
        OpView::CreateDir { path } => Some(path),
        OpView::Delete { .. } => None,
    }
}

pub open spec fn opt_ref_view(o: Option<&FsPath>) -> Option<PathView> {
    match o {
        Some(p) => Some(p@),
        None => None,
    }
}

impl FileSystemOperation {
    /// The operation's kind: `move`, `create_dir` or `delete`.
    pub fn operation_type(&self) -> (r: &'static str)
        ensures
            r@ == op_type_spec(self@),
    {
        match self {
            FileSystemOperation::Move { .. } => "move",
            FileSystemOperation::CreateDir { .. } => "create_dir",
            FileSystemOperation::Delete { .. } => "delete",
        }
    }

    /// A one-line description of the operation.
    pub fn description(&self) -> (r: String)
        ensures
            r@ == description_spec(self@),
    {
        match self {
            FileSystemOperation::Move { source, dest } => {
                let a = cat("Move ", source.display().as_str());
                cat3(a.as_str(), " → ", dest.display().as_str())
            },
            FileSystemOperation::CreateDir { path } => cat("Create directory: ", path.display().as_str()),
            FileSystemOperation::Delete { path, reason } => {
                let a = cat3("Delete ", path.display().as_str(), " (");
                cat3(a.as_str(), reason.as_str(), ")")
            },
        }
    }

    /// The path the operation reads from.
    pub fn source_path(&self) -> (r: Option<&FsPath>)
        ensures
            opt_ref_view(r) == source_spec(self@),
    {
        match self {
            FileSystemOperation::Move { source, .. } => Some(source),
            FileSystemOperation::Delete { path, .. } => Some(path),
            _ => None,
        }
    }

    /// The path the operation writes.
    pub fn dest_path(&self) -> (r: Option<&FsPath>)
        ensures
            opt_ref_view(r) == dest_spec(self@),
    {
        match self {
            FileSystemOperation::Move { dest, .. } => Some(dest),
            FileSystemOperation::CreateDir { path } => Some(path),
            _ => None,
        }
    }

    /// An independent copy of this operation.
    pub fn copy(&self) -> (r: FileSystemOperation)
        ensures
            r@ == self@,
    {
        match self {
            FileSystemOperation::Move { source, dest } => FileSystemOperation::Move {
                source: source.copy(),
                dest: dest.copy(),
            },
            FileSystemOperation::CreateDir { path } => FileSystemOperation::CreateDir { path: path.copy() },
            FileSystemOperation::Delete { path, reason } => FileSystemOperation::Delete {
                path: path.copy(),
                reason: reason.clone(),
            },
        }
    }
}

/// A copy of a list of operations.
pub fn copy_ops(ops: &Vec<FileSystemOperation>) -> (r: Vec<FileSystemOperation>)
    ensures
        ops_view(r@) == ops_view(ops@),
{
    let mut r: Vec<FileSystemOperation> = Vec::new();
    let mut i: usize = 0;
    while i < ops.len()
        invariant
            i <= ops@.len(),
            ops_view(r@) == ops_view(ops@.subrange(0, i as int)),
        decreases ops@.len() - i,
    {
        let c = ops[i].copy();
        let ghost prev = ops_view(r@);
        r.push(c);
        assert(ops_view(r@) =~= prev.push(ops@[i as int]@));
        assert(ops_view(ops@.subrange(0, i + 1)) =~= ops_view(ops@.subrange(0, i as int)).push(ops@[i as int]@));
        i = i + 1;
    }
    assert(ops@.subrange(0, i as int) =~= ops@);
    r
}

/// Counts of what a plan is expected to change.
#[derive(Clone, Copy, Debug, PartialEq, Eq)]
pub struct EstimatedImpact {
    pub files_moved: u64,
    pub dirs_created: u64,
    pub files_deleted: u64,
    pub dirs_affected: u64,
    pub total_bytes: u64,
}

#[derive(Clone, Copy, Debug, PartialEq, Eq)]
pub enum WarningType {
    PartialScanScope,
    FileCountEstimate,
    MissingSourceFile,
    PathTooDeep,
}

pub open spec fn warning_label(w: WarningType) -> Seq<char> {
    match w {
        WarningType::PartialScanScope => "Partial scan scope"@,
        WarningType::FileCountEstimate => "File count estimate"@,
        WarningType::MissingSourceFile => "Missing source file"@,
        WarningType::PathTooDeep => "Path too deep"@,
    }
}

impl WarningType {
    /// The warning's name as shown to users.
    pub fn label(&self) -> (r: String)
        ensures
            r@ == warning_label(*self),
    {
        match self {
            WarningType::PartialScanScope => owned("Partial scan scope"),
            WarningType::FileCountEstimate => owned("File count estimate"),
            WarningType::MissingSourceFile => owned("Missing source file"),
            WarningType::PathTooDeep => owned("Path too deep"),
        }
    }
}

/// A warning raised while generating a plan.
#[derive(Clone, Debug, PartialEq, Eq)]
pub struct ValidationWarning {
    pub path: FsPath,
    pub warning_type: WarningType,
    pub message: String,
}

pub struct WarningView {
    pub path: PathView,
    pub warning_type: WarningType,
    pub message: Seq<char>,
}

pub open spec fn warnings_view(v: Seq<ValidationWarning>) -> Seq<WarningView> {
    v.map_values(|w: ValidationWarning| WarningView { path: w.path@, warning_type: w.warning_type, message: w.message@ })
}

/// A copy of a list of plan warnings.
pub fn copy_warnings(v: &Vec<ValidationWarning>) -> (r: Vec<ValidationWarning>)
    ensures
        warnings_view(r@) == warnings_view(v@),
{
    let mut r: Vec<ValidationWarning> = Vec::new();
    let mut i: usize = 0;
    while i < v.len()
        invariant
            i <= v@.len(),
            warnings_view(r@) == warnings_view(v@.take(i as int)),
        decreases v@.len() - i,
    {
        let w = &v[i];
        let ghost prev = warnings_view(r@);
        r.push(ValidationWarning { path: w.path.copy(), warning_type: w.warning_type, message: w.message.clone() });
        assert(warnings_view(r@) =~= prev.push(warnings_view(v@)[i as int]));
        assert(warnings_view(v@.take(i + 1)) =~= warnings_view(v@.take(i as int)).push(warnings_view(v@)[i as int]));
        i = i + 1;
    }
    assert(v@.take(v@.len() as int) =~= v@);
    r
}

/// The constraints a plan is validated under.
#[derive(Clone, Copy, Debug, PartialEq, Eq)]
pub struct PlanValidationContext {
    pub preserve_existing_folders: bool,
    pub auto_delete_temps: bool,
}

impl PlanValidationContext {
    pub open spec fn new_spec() -> PlanValidationContext {
        PlanValidationContext { preserve_existing_folders: false, auto_delete_temps: false }
    }

    /// Both constraints off.
    pub fn new() -> (r: PlanValidationContext)
        ensures
            !r.preserve_existing_folders,
            !r.auto_delete_temps,
    {
        PlanValidationContext { preserve_existing_folders: false, auto_delete_temps: false }
    }

    /// The validation constraints taken from an intent's constraints.
    pub fn from_constraints(c: &ConstraintSet) -> (r: PlanValidationContext)
        ensures
            r.preserve_existing_folders == c.preserve_existing_folders,
            r.auto_delete_temps == c.auto_delete_temps,
    {
        PlanValidationContext {
            preserve_existing_folders: c.preserve_existing_folders,
            auto_delete_temps: c.auto_delete_temps,
        }
    }
}

/// A plan: operations on a scope, with their impact and what is left unresolved.
#[derive(Clone, Debug, PartialEq, Eq)]
pub struct OperationPlan {
    pub id: String,
    pub recommendation_id: String,
    pub scope: FsPath,
    pub operations: Vec<FileSystemOperation>,
    pub estimated_impact: EstimatedImpact,
    pub validation_warnings: Vec<ValidationWarning>,
    pub has_conflicts: bool,
    pub unresolved_proposals: Vec<UnresolvedItem>,
    pub dry_run: bool,
    pub created_at: u64,
    pub validation_context: Option<PlanValidationContext>,
}

/// Why a plan could not be generated.
#[derive(Clone, Debug, PartialEq, Eq)]
pub enum PlanError {
    SourcePathNotFound(FsPath),
    DestinationOutsideScope(FsPath),
    SourceEqualsDestination { source: FsPath, dest: FsPath },
    ConflictingOperations(String),
    InvalidCategory(String),
    EmptySourceDir(FsPath),
}

pub enum PlanErrorView {
    SourcePathNotFound(PathView),
    DestinationOutsideScope(PathView),
    SourceEqualsDestination { source: PathView, dest: PathView },
    ConflictingOperations(Seq<char>),
    InvalidCategory(Seq<char>),
    EmptySourceDir(PathView),
}

impl View for PlanError {
    type V = PlanErrorView;

    open spec fn view(&self) -> PlanErrorView {
        match self {
            PlanError::SourcePathNotFound(p) => PlanErrorView::SourcePathNotFound(p@),
            PlanError::DestinationOutsideScope(p) => PlanErrorView::DestinationOutsideScope(p@),
            PlanError::SourceEqualsDestination { source, dest } => PlanErrorView::SourceEqualsDestination {
                source: source@,
                dest: dest@,
            },
            PlanError::ConflictingOperations(m) => PlanErrorView::ConflictingOperations(m@),
            PlanError::InvalidCategory(m) => PlanErrorView::InvalidCategory(m@),
            PlanError::EmptySourceDir(p) => PlanErrorView::EmptySourceDir(p@),
        }
    }
}

pub open spec fn plan_error_message(e: PlanErrorView) -> Seq<char> {
    match e {
        PlanErrorView::SourcePathNotFound(p) => "Source path not found: "@ + display_spec(p),
        PlanErrorView::DestinationOutsideScope(p) => "Destination outside scope: "@ + display_spec(p),
        PlanErrorView::SourceEqualsDestination { source, dest } => "Source equals destination: "@
            + display_spec(source) + " == "@ + display_spec(dest),
        PlanErrorView::ConflictingOperations(m) => "Conflicting operations: "@ + m,
        PlanErrorView::InvalidCategory(m) => "Invalid category: "@ + m,
        PlanErrorView::EmptySourceDir(p) => "Source directory is empty: "@ + display_spec(p),
    }
}

impl PlanError {
    /// The error as shown to users.
    pub fn message(&self) -> (r: String)
        ensures
            r@ == plan_error_message(self@),
    {
        match self {
            PlanError::SourcePathNotFound(p) => cat("Source path not found: ", p.display().as_str()),
            PlanError::DestinationOutsideScope(p) => cat("Destination outside scope: ", p.display().as_str()),
            PlanError::SourceEqualsDestination { source, dest } => {
                let a = cat3("Source equals destination: ", source.display().as_str(), " == ");
                cat(a.as_str(), dest.display().as_str())
            },
            PlanError::ConflictingOperations(m) => cat("Conflicting operations: ", m.as_str()),
            PlanError::InvalidCategory(m) => cat("Invalid category: ", m.as_str()),
            PlanError::EmptySourceDir(p) => cat("Source directory is empty: ", p.display().as_str()),
        }
    }
}

// ------------------------------------------------------------ categories

/// The directory name used for a well-known category; other names are used as they are.
pub open spec fn human_name(c: Seq<char>) -> Seq<char> {
    if c == "document_storage"@ {
        "Documents"@
    } else if c == "image_storage"@ {
        "Images"@
    } else if c == "archive_storage"@ {
        "Archives"@
    } else if c == "media_storage"@ {
        "Media"@
    } else if c == "code_storage"@ {
        "Code"@
    } else if c == "installer_storage"@ {
        "Installers"@
    } else if c == "data_storage"@ {
        "Data"@
    } else if c == "config_storage"@ {
        "Config"@
    } else if c == "misc_storage"@ {
        "Misc"@
    } else if c == "temp_files"@ {
        "Temp"@
    } else {
        c
    }
}

pub fn human_name_of(category: &str) -> (r: String)
    ensures
        r@ == human_name(category@),
{
    if str_eq(category, "document_storage") {
        owned("Documents")
    } else if str_eq(category, "image_storage") {
        owned("Images")
    } else if str_eq(category, "archive_storage") {
        owned("Archives")
    } else if str_eq(category, "media_storage") {
        owned("Media")
    } else if str_eq(category, "code_storage") {
        owned("Code")
    } else if str_eq(category, "installer_storage") {
        owned("Installers")
    } else if str_eq(category, "data_storage") {
        owned("Data")
    } else if str_eq(category, "config_storage") {
        owned("Config")
    } else if str_eq(category, "misc_storage") {
        owned("Misc")
    } else if str_eq(category, "temp_files") {
        owned("Temp")
    } else {
        owned(category)
    }
}

/// The path of the first candidate with the given name.
pub open spec fn candidate_path(cands: Seq<CandidateCategory>, name: Seq<char>) -> Option<PathView>
    decreases cands.len(),
{
    if cands.len() == 0 {
        None
    } else if cands[0].name@ == name {
        Some(cands[0].path@)
    } else {
        candidate_path(cands.drop_first(), name)
    }
}

/// Where a category's files go: the matching candidate directory, else a
/// directory under the scope named after the category.
pub open spec fn category_dir(scope: PathView, cands: Seq<CandidateCategory>, name: Seq<char>) -> PathView {
    match candidate_path(cands, name) {
        Some(p) => p,
        None => join_spec(scope, parse_spec(human_name(name))),
    }
}

pub fn resolve_category_dir_in(scope: &FsPath, candidates: &Vec<CandidateCategory>, name: &str) -> (r: FsPath)
    ensures
        r@ == category_dir(scope@, candidates@, name@),
{
    let mut i: usize = 0;
    assert(candidates@.skip(0) =~= candidates@);
    while i < candidates.len()
        invariant
            i <= candidates@.len(),
            candidate_path(candidates@, name@) == candidate_path(candidates@.skip(i as int), name@),
        decreases candidates@.len() - i,
    {
        assert(candidates@.skip(i as int)[0] == candidates@[i as int]);
        assert(candidates@.skip(i as int).drop_first() =~= candidates@.skip(i + 1));
        if str_eq(candidates[i].name.as_str(), name) {
            return candidates[i].path.copy();
        }
        i = i + 1;
    }
    let human = human_name_of(name);
    scope.join_str(human.as_str())
}

// ------------------------------------------------------------ content types

pub open spec fn content_type_name(ct: ContentType) -> Seq<char> {
    match ct {
        ContentType::Documents => "documents"@,
        ContentType::Images => "images"@,
        ContentType::Archives => "archives"@,
        ContentType::Media => "media"@,
        ContentType::Code => "code"@,
        ContentType::Installers => "installers"@,
        ContentType::Data => "data"@,
        ContentType::Config => "config"@,
        ContentType::Other => "other"@,
    }
}

/// The content type a recommendation names; unknown names are `Other`.
pub open spec fn parse_content_type_spec(s: Seq<char>) -> ContentType {
    if s == "documents"@ {
        ContentType::Documents
    } else if s == "images"@ {
        ContentType::Images
    } else if s == "archives"@ {
        ContentType::Archives
    } else if s == "media"@ {
        ContentType::Media
    } else if s == "code"@ {
        ContentType::Code
    } else if s == "installers"@ {
        ContentType::Installers
    } else if s == "data"@ {
        ContentType::Data
    } else if s == "config"@ {
        ContentType::Config
    } else {
        ContentType::Other
    }
}

/// The extensions whose files plan generation moves for each content type.
pub open spec fn plan_exts(ct: ContentType) -> Seq<Seq<char>> {
    match ct {
        ContentType::Documents => seq!["pdf"@, "doc"@, "docx"@, "xls"@, "xlsx"@, "ppt"@, "pptx"@, "txt"@, "md"@, "csv"@, "rtf"@],
        ContentType::Images => seq!["jpg"@, "jpeg"@, "png"@, "gif"@, "bmp"@, "tiff"@, "webp"@, "svg"@, "ico"@],
        ContentType::Archives => seq!["zip"@, "rar"@, "7z"@, "tar"@, "gz"@, "bz2"@, "xz"@],
        ContentType::Media => seq!["mp4"@, "avi"@, "mkv"@, "mov"@, "mp3"@, "wav"@, "flac"@],
        ContentType::Code => seq!["py"@, "js"@, "ts"@, "rs"@, "go"@, "java"@, "c"@, "cpp"@, "h"@, "sh"@, "rb"@, "php"@],
        ContentType::Installers => seq!["exe"@, "msi"@, "dmg"@, "pkg"@, "deb"@, "rpm"@],
        ContentType::Data => seq!["db"@, "sqlite"@, "dat"@, "bin"@],
        ContentType::Config => seq!["conf"@, "cfg"@, "ini"@, "env"@, "properties"@],
        ContentType::Other => seq![],
    }
}

/// The text after the last `.` of a file name, or the whole name when it has none.
pub open spec fn after_last_dot(name: Seq<char>) -> Seq<char> {
    let d = crate::path::last_dot_before(name, name.len() as int);
    if d < 0 {
        name
    } else {
        name.subrange(d + 1, name.len() as int)
    }
}

/// The text after the last `.`.
pub fn after_last_dot_of(name: &str) -> (r: String)
    ensures
        r@ == after_last_dot(name@),
{
    let cs = chars_of(name);
    let n = cs.len();
    let mut k: usize = n;
    while k > 0 && cs[k - 1] != '.'
        invariant
            n == name@.len(),
            cs@ == name@,
            k <= n,
            crate::path::last_dot_before(name@, n as int) == crate::path::last_dot_before(name@, k as int),
        decreases k,
    {
        k = k - 1;
    }
    let mut out: Vec<char> = Vec::new();
    let mut j: usize = k;
    while j < n
        invariant
            n == name@.len(),
            cs@ == name@,
            k <= j <= n,
            out@ == name@.subrange(k as int, j as int),
        decreases n - j,
    {
        out.push(cs[j]);
        j = j + 1;
        assert(out@ =~= name@.subrange(k as int, j as int));
    }
    if k == 0 {
        assert(name@.subrange(0, n as int) =~= name@);
    }
    crate::path::chars_to_string(&out)
}

// ------------------------------------------------------------ generation checks

/// The error an operation alone makes the plan fail with: a destination outside
/// the scope, or a move onto itself.
pub open spec fn op_plan_error(op: OpView, scope: PathView) -> Option<PlanErrorView> {
    if dest_spec(op) is Some && !starts_with_spec(dest_spec(op)->0, scope) {
        Some(PlanErrorView::DestinationOutsideScope(dest_spec(op)->0))
    } else {
        match op {
            OpView::Move { source, dest } => if source == dest {
                Some(PlanErrorView::SourceEqualsDestination { source, dest })
            } else {
                None
            },
            _ => None,
        }
    }
}

/// The error of the first operation that has one.
pub open spec fn first_plan_error(ops: Seq<OpView>, scope: PathView) -> Option<PlanErrorView>
    decreases ops.len(),
{
    if ops.len() == 0 {
        None
    } else {
        match op_plan_error(ops[0], scope) {
            Some(e) => Some(e),
            None => first_plan_error(ops.drop_first(), scope),
        }
    }
}

/// Two operations write the same path.
pub open spec fn has_dest_collision(ops: Seq<OpView>) -> bool {
    exists|i: int, j: int|
        0 <= i < j < ops.len() && dest_spec(#[trigger] ops[i]) is Some && dest_spec(ops[i]) == dest_spec(
            #[trigger] ops[j],
        )
}

pub struct PlanGenerator;

impl PlanGenerator {
    pub fn category_to_human_name(&self, category: &str) -> (r: String)
        ensures
            r@ == human_name(category@),
    {
        human_name_of(category)
    }

    pub fn resolve_category_dir(&self, scope: &FsPath, candidates: &Vec<CandidateCategory>, name: &str) -> (r: FsPath)
        ensures
            r@ == category_dir(scope@, candidates@, name@),
    {
        resolve_category_dir_in(scope, candidates, name)
    }

    /// The content type a recommendation names.
    pub fn parse_content_type(&self, content_type: &str) -> (r: ContentType)
        ensures
            r == parse_content_type_spec(content_type@),
    {
        if str_eq(content_type, "documents") {
            ContentType::Documents
        } else if str_eq(content_type, "images") {
            ContentType::Images
        } else if str_eq(content_type, "archives") {
            ContentType::Archives
        } else if str_eq(content_type, "media") {
            ContentType::Media
        } else if str_eq(content_type, "code") {
            ContentType::Code
        } else if str_eq(content_type, "installers") {
            ContentType::Installers
        } else if str_eq(content_type, "data") {
            ContentType::Data
        } else if str_eq(content_type, "config") {
            ContentType::Config
        } else {
            ContentType::Other
        }
    }

    /// The extensions whose files are moved for a content type.
    pub fn content_type_extensions(&self, ct: ContentType) -> (r: Vec<&'static str>)
        ensures
            r@.map_values(|x: &str| x@) == plan_exts(ct),
    {
        let r = match ct {
            ContentType::Documents => vec!["pdf", "doc", "docx", "xls", "xlsx", "ppt", "pptx", "txt", "md", "csv", "rtf"],
            ContentType::Images => vec!["jpg", "jpeg", "png", "gif", "bmp", "tiff", "webp", "svg", "ico"],
            ContentType::Archives => vec!["zip", "rar", "7z", "tar", "gz", "bz2", "xz"],
            ContentType::Media => vec!["mp4", "avi", "mkv", "mov", "mp3", "wav", "flac"],
            ContentType::Code => vec!["py", "js", "ts", "rs", "go", "java", "c", "cpp", "h", "sh", "rb", "php"],
            ContentType::Installers => vec!["exe", "msi", "dmg", "pkg", "deb", "rpm"],
            ContentType::Data => vec!["db", "sqlite", "dat", "bin"],
            ContentType::Config => vec!["conf", "cfg", "ini", "env", "properties"],
            ContentType::Other => Vec::new(),
        };
        assert(r@.map_values(|x: &str| x@) =~= plan_exts(ct));
        r
    }

    /// Whether `path` lies at or below `scope`.
    pub fn is_within_scope(path: &FsPath, scope: &FsPath) -> (b: bool)
        ensures
            b == starts_with_spec(path@, scope@),
    {
        path.starts_with(scope)
    }

    /// Checks generated operations: the first operation whose destination lies
    /// outside the scope, or that moves a path onto itself, fails the plan;
    /// otherwise the result says whether two operations write the same path.
    pub fn validate_operations(&self, operations: &Vec<FileSystemOperation>, scope: &FsPath) -> (r: Result<bool, PlanError>)
        ensures
            match first_plan_error(ops_view(operations@), scope@) {
                Some(e) => r is Err && r->Err_0@ == e,
                None => r == Ok::<bool, PlanError>(has_dest_collision(ops_view(operations@))),
            },
    {
        let n = operations.len();
        let ghost ops = ops_view(operations@);
        let mut i: usize = 0;
        assert(ops.skip(0) =~= ops);
        while i < n
            invariant
                n == operations@.len(),
                ops == ops_view(operations@),
                i <= n,
                first_plan_error(ops, scope@) == first_plan_error(ops.skip(i as int), scope@),
            decreases n - i,
        {
            assert(ops.skip(i as int)[0] == operations@[i as int]@);
            assert(ops.skip(i as int).drop_first() =~= ops.skip(i + 1));
            let op = &operations[i];
            match op.dest_path() {
                Some(dest) => {
                    if !dest.starts_with(scope) {
                        return Err(PlanError::DestinationOutsideScope(dest.copy()));
                    }
                },
                None => {},
            }
            match op {
                FileSystemOperation::Move { source, dest } => {
                    if source.same_as(dest) {
                        return Err(PlanError::SourceEqualsDestination { source: source.copy(), dest: dest.copy() });
                    }
                },
                _ => {},
            }
            i = i + 1;
        }
        let conflicts = dest_collision(operations);
        Ok(conflicts)
    }

    /// Picks, from a scan's sample of file names, the files of a content type:
    /// each name whose extension (lower-cased) is listed for the type becomes a
    /// move source under `scope` when it exists, and a missing-file warning
    /// otherwise. A partial scan that found fewer files than expected adds a
    /// file-count warning.
    pub fn resolve_file_moves(
        &self,
        scope: &FsPath,
        filename_sample: &Vec<String>,
        partial_scan: bool,
        content_type: ContentType,
        expected_count: u64,
        fs: &FsSnapshot,
        warnings: &mut Vec<ValidationWarning>,
    ) -> (r: Vec<(FsPath, u64)>)
        ensures
            r@.map_values(|m: (FsPath, u64)| (m.0@, m.1)) == found_moves(
                filename_sample@.map_values(|s: String| s@),
                scope@,
                content_type,
                fs@,
            ),
            final(warnings)@.map_values(|w: ValidationWarning| (w.path@, w.warning_type, w.message@)) == old(
                warnings,
            )@.map_values(|w: ValidationWarning| (w.path@, w.warning_type, w.message@)) + move_warnings(
                filename_sample@.map_values(|s: String| s@),
                scope@,
                content_type,
                fs@,
                partial_scan,
                expected_count,
            ),
    {
        let ghost names = filename_sample@.map_values(|s: String| s@);
        let ghost w0 = warnings@.map_values(|w: ValidationWarning| (w.path@, w.warning_type, w.message@));
        let target = self.content_type_extensions(content_type);
        let mut results: Vec<(FsPath, u64)> = Vec::new();
        let mut i: usize = 0;
        while i < filename_sample.len()
            invariant
                i <= filename_sample@.len(),
                names == filename_sample@.map_values(|s: String| s@),
                target@.map_values(|x: &str| x@) == plan_exts(content_type),
                results@.map_values(|m: (FsPath, u64)| (m.0@, m.1)) == found_moves(
                    names.subrange(0, i as int),
                    scope@,
                    content_type,
                    fs@,
                ),
                warnings@.map_values(|w: ValidationWarning| (w.path@, w.warning_type, w.message@)) == w0
                    + missing_warnings(names.subrange(0, i as int), scope@, content_type, fs@),
            decreases filename_sample@.len() - i,
        {
            let ghost pre = names.subrange(0, i as int);
            assert(names.subrange(0, i + 1).drop_last() =~= pre);
            assert(names.subrange(0, i + 1).last() == filename_sample@[i as int]@);
            let filename = &filename_sample[i];
            let raw_ext = after_last_dot_of(filename.as_str());
            let ext = to_lowercase(raw_ext.as_str());
            if crate::analysis::text_in_list(ext.as_str(), &target) {
                let source = scope.join_str(filename.as_str());
                if fs.is_present(&source) {
                    let ghost before = results@.map_values(|m: (FsPath, u64)| (m.0@, m.1));
                    results.push((source, 1024));
                    assert(results@.map_values(|m: (FsPath, u64)| (m.0@, m.1)) =~= before.push(
                        (join_spec(scope@, parse_spec(filename@)), 1024u64),
                    ));
                    assert(missing_warnings(names.subrange(0, i + 1), scope@, content_type, fs@)
                        =~= missing_warnings(pre, scope@, content_type, fs@));
                } else {
                    let ghost before = warnings@.map_values(|w: ValidationWarning| (w.path@, w.warning_type, w.message@));
                    let message = cat("File not found: ", filename.as_str());
                    warnings.push(ValidationWarning { path: source, warning_type: WarningType::MissingSourceFile, message });
                    assert(warnings@.map_values(|w: ValidationWarning| (w.path@, w.warning_type, w.message@))
                        =~= before.push(
                        (join_spec(scope@, parse_spec(filename@)), WarningType::MissingSourceFile, "File not found: "@ + filename@),
                    ));
                }
            }
            i = i + 1;
        }
        assert(names.subrange(0, i as int) =~= names);
        if (results.len() as u64) < expected_count && partial_scan {
            let ghost before = warnings@.map_values(|w: ValidationWarning| (w.path@, w.warning_type, w.message@));
            let a = cat3("Only ", usize_to_text(results.len()).as_str(), " of ");
            let b = cat3(a.as_str(), u64_to_text(expected_count).as_str(), " expected files found (partial scan)");
            warnings.push(ValidationWarning { path: scope.copy(), warning_type: WarningType::FileCountEstimate, message: b });
            assert(warnings@.map_values(|w: ValidationWarning| (w.path@, w.warning_type, w.message@)) =~= before.push(
                (scope@, WarningType::FileCountEstimate, count_message(results@.len(), expected_count)),
            ));
        }
        results
    }
}

/// The moves found among the sampled names, in order, each with the size
/// estimate plan generation uses (1024 bytes).
pub open spec fn found_moves(names: Seq<Seq<char>>, scope: PathView, ct: ContentType, fs: FsView) -> Seq<(PathView, u64)>
    decreases names.len(),
{
    if names.len() == 0 {
        seq![]
    } else {
        let prev = found_moves(names.drop_last(), scope, ct, fs);
        let name = names.last();
        let src = join_spec(scope, parse_spec(name));
        if plan_exts(ct).contains(lowercase_of(after_last_dot(name))) && exists_in(fs, src) {
            prev.push((src, 1024u64))
        } else {
            prev
        }
    }
}

/// A warning for each sampled name of the type whose file is missing.
pub open spec fn missing_warnings(names: Seq<Seq<char>>, scope: PathView, ct: ContentType, fs: FsView) -> Seq<(PathView, WarningType, Seq<char>)>
    decreases names.len(),
{
    if names.len() == 0 {
        seq![]
    } else {
        let prev = missing_warnings(names.drop_last(), scope, ct, fs);
        let name = names.last();
        let src = join_spec(scope, parse_spec(name));
        if plan_exts(ct).contains(lowercase_of(after_last_dot(name))) && !exists_in(fs, src) {
            prev.push((src, WarningType::MissingSourceFile, "File not found: "@ + name))
        } else {
            prev
        }
    }
}

pub open spec fn count_message(found: nat, expected: u64) -> Seq<char> {
    "Only "@ + decimal(found) + " of "@ + decimal(expected as nat) + " expected files found (partial scan)"@
}

/// The warnings file resolution adds: the missing files, then the file-count
/// warning when a partial scan found fewer files than expected.
pub open spec fn move_warnings(
    names: Seq<Seq<char>>,
    scope: PathView,
    ct: ContentType,
    fs: FsView,
    partial_scan: bool,
    expected: u64,
) -> Seq<(PathView, WarningType, Seq<char>)> {
    let missing = missing_warnings(names, scope, ct, fs);
    let found = found_moves(names, scope, ct, fs).len();
    if found < expected && partial_scan {
        missing.push((scope, WarningType::FileCountEstimate, count_message(found, expected)))
    } else {
        missing
    }
}

/// Whether two operations write the same path.
fn dest_collision(ops: &Vec<FileSystemOperation>) -> (b: bool)
    ensures
        b == has_dest_collision(ops_view(ops@)),
{
    let ghost v = ops_view(ops@);
    let n = ops.len();
    let mut j: usize = 0;
    while j < n
        invariant
            n == ops@.len(),
            v == ops_view(ops@),
            j <= n,
            forall|a: int, b: int|
                0 <= a < b < j ==> !(dest_spec(#[trigger] v[a]) is Some && dest_spec(v[a]) == dest_spec(#[trigger] v[b])),
        decreases n - j,
    {
        match ops[j].dest_path() {
            Some(dj) => {
                let mut i: usize = 0;
                while i < j
                    invariant
                        n == ops@.len(),
                        v == ops_view(ops@),
                        i <= j < n,
                        dest_spec(v[j as int]) == Some(dj@),
                        forall|a: int| 0 <= a < i ==> !(dest_spec(#[trigger] v[a]) is Some && dest_spec(v[a]) == dest_spec(v[j as int])),
                    decreases j - i,
                {
                    match ops[i].dest_path() {
                        Some(di) => {
                            if di.same_as(dj) {
                                assert(dest_spec(v[i as int]) is Some && dest_spec(v[i as int]) == dest_spec(v[j as int]));
                                return true;
                            }
                        },
                        None => {},
                    }
                    i = i + 1;
                }
            },
            None => {},
        }
        j = j + 1;
    }
    false
}


// ------------------------------------------------------ preview

/// The name of an unresolved reason as shown in a preview.
pub open spec fn reason_name(r: UnresolvedReason) -> Seq<char> {
    match r {
        UnresolvedReason::MissingFile => "MissingFile"@,
        UnresolvedReason::Ambiguous => "Ambiguous"@,
        UnresolvedReason::AlreadyOrganized => "AlreadyOrganized"@,
        UnresolvedReason::DestinationOutsideScope => "DestinationOutsideScope"@,
        UnresolvedReason::InvalidDestination => "InvalidDestination"@,
        UnresolvedReason::ConflictingDestination => "ConflictingDestination"@,
    }
}

fn reason_text(r: UnresolvedReason) -> (s: &'static str)
    ensures
        s@ == reason_name(r),
{
    match r {
        UnresolvedReason::MissingFile => "MissingFile",
        UnresolvedReason::Ambiguous => "Ambiguous",
        UnresolvedReason::AlreadyOrganized => "AlreadyOrganized",
        UnresolvedReason::DestinationOutsideScope => "DestinationOutsideScope",
        UnresolvedReason::InvalidDestination => "InvalidDestination",
        UnresolvedReason::ConflictingDestination => "ConflictingDestination",
    }
}

/// The preview line of an operation in one of the three sections (creations,
/// moves, deletions); empty when the operation belongs to another section.
pub open spec fn section_line(op: OpView, section: int) -> Seq<char> {
    match op {
        OpView::CreateDir { path } => if section == 0 {
            "  + "@ + display_spec(path) + "\n"@
        } else {
            seq![]
        },
        OpView::Move { source, dest } => if section == 1 {
            "  "@ + display_spec(source) + " → "@ + display_spec(dest) + "\n"@
        } else {
            seq![]
        },
        OpView::Delete { path, reason } => if section == 2 {
            "  × "@ + display_spec(path) + " ("@ + reason + ")\n"@
        } else {
            seq![]
        },
    }
}

/// The lines of one section, in plan order.
pub open spec fn section_lines(ops: Seq<OpView>, section: int) -> Seq<char>
    decreases ops.len(),
{
    if ops.len() == 0 {
        seq![]
    } else {
        section_lines(ops.drop_last(), section) + section_line(ops.last(), section)
    }
}

pub open spec fn unresolved_line(u: UnresolvedItem) -> Seq<char> {
    "  ⚠️  "@ + display_spec(u.file@) + ": "@ + reason_name(u.reason) + " ("@ + u.category@ + ")\n"@
}

pub open spec fn unresolved_lines(us: Seq<UnresolvedItem>) -> Seq<char>
    decreases us.len(),
{
    if us.len() == 0 {
        seq![]
    } else {
        unresolved_lines(us.drop_last()) + unresolved_line(us.last())
    }
}

/// The unresolved-proposals block, when there are any.
pub open spec fn unresolved_block(us: Seq<UnresolvedItem>) -> Seq<char> {
    if us.len() == 0 {
        seq![]
    } else {
        "\n=== Unresolved Proposals ===\n"@ + unresolved_lines(us)
    }
}

pub open spec fn warning_line(w: ValidationWarning) -> Seq<char> {
    "  ⚠️  "@ + warning_label(w.warning_type) + ": "@ + w.message@ + "\n"@
}

pub open spec fn warning_lines(ws: Seq<ValidationWarning>) -> Seq<char>
    decreases ws.len(),
{
    if ws.len() == 0 {
        seq![]
    } else {
        warning_lines(ws.drop_last()) + warning_line(ws.last())
    }
}

pub open spec fn plan_header(plan: OperationPlan) -> Seq<char> {
    "Operation Plan: "@ + plan.id@ + "\n"@ + ("Scope: "@ + display_spec(plan.scope@) + "\n"@) + ("Dry run: "@ + (
    if plan.dry_run {
        "Yes"@
    } else {
        "No"@
    }) + "\n"@) + "\n"@
}

pub open spec fn plan_impact(plan: OperationPlan) -> Seq<char> {
    "\n"@ + "=== Estimated Impact ===\n"@ + ("  Files moved: "@ + decimal(plan.estimated_impact.files_moved as nat)
        + "\n"@) + ("  Dirs created: "@ + decimal(plan.estimated_impact.dirs_created as nat) + "\n"@) + (
    "  Dirs affected: "@ + decimal(plan.estimated_impact.dirs_affected as nat) + "\n"@) + ("  Total bytes: "@
        + decimal(plan.estimated_impact.total_bytes as nat) + "\n"@)
}

/// The text preview of a plan: header; for an empty plan a notice and the
/// unresolved proposals; otherwise the operation count, the directories to
/// create, the moves, the deletions, the unresolved proposals, the estimated
/// impact, a conflict notice and the generation warnings.
pub open spec fn plan_preview_spec(plan: OperationPlan) -> Seq<char> {
    let ops = ops_view(plan.operations@);
    if ops.len() == 0 {
        plan_header(plan) + "No operations proposed.\n"@ + unresolved_block(plan.unresolved_proposals@)
    } else {
        plan_header(plan) + ("Total operations: "@ + decimal(ops.len()) + "\n"@) + "\n"@
            + "=== Create Directories ===\n"@ + section_lines(ops, 0) + "\n=== File/Directory Moves ===\n"@
            + section_lines(ops, 1) + "\n=== Deletions ===\n"@ + section_lines(ops, 2) + unresolved_block(
            plan.unresolved_proposals@,
        ) + plan_impact(plan) + (if plan.has_conflicts {
            "\n⚠️  Warning: Potential conflicts detected\n"@
        } else {
            seq![]
        }) + (if plan.validation_warnings@.len() == 0 {
            seq![]
        } else {
            "\n=== Validation Warnings ===\n"@ + warning_lines(plan.validation_warnings@)
        })
    }
}

fn section_text(ops: &Vec<FileSystemOperation>, section: u8) -> (r: String)
    requires
        section <= 2,
    ensures
        r@ == section_lines(ops_view(ops@), section as int),
{
    let ghost v = ops_view(ops@);
    let mut out = String::new();
    let mut i: usize = 0;
    assert(v.take(0) =~= Seq::<OpView>::empty());
    while i < ops.len()
        invariant
            section <= 2,
            v == ops_view(ops@),
            i <= ops@.len(),
            out@ == section_lines(v.take(i as int), section as int),
        decreases ops@.len() - i,
    {
        assert(v.take(i + 1).drop_last() =~= v.take(i as int));
        assert(v.take(i + 1).last() == ops@[i as int]@);
        let ghost before = out@;
        match &ops[i] {
            FileSystemOperation::CreateDir { path } => {
                if section == 0 {
                    out.append(cat3("  + ", path.display().as_str(), "\n").as_str());
                } else {
                    assert(before + Seq::<char>::empty() =~= before);
                }
            },
            FileSystemOperation::Move { source, dest } => {
                if section == 1 {
                    let a = cat3("  ", source.display().as_str(), " → ");
                    out.append(cat3(a.as_str(), dest.display().as_str(), "\n").as_str());
                } else {
                    assert(before + Seq::<char>::empty() =~= before);
                }
            },
            FileSystemOperation::Delete { path, reason } => {
                if section == 2 {
                    let a = cat3("  × ", path.display().as_str(), " (");
                    out.append(cat3(a.as_str(), reason.as_str(), ")\n").as_str());
                } else {
                    assert(before + Seq::<char>::empty() =~= before);
                }
            },
        }
        i = i + 1;
    }
    assert(v.take(ops@.len() as int) =~= v);
    out
}

fn unresolved_text(us: &Vec<UnresolvedItem>) -> (r: String)
    ensures
        r@ == unresolved_block(us@),
{
    if us.len() == 0 {
        return String::new();
    }
    let mut out = owned("\n=== Unresolved Proposals ===\n");
    let ghost head = out@;
    let mut body = String::new();
    let mut i: usize = 0;
    assert(us@.take(0) =~= Seq::<UnresolvedItem>::empty());
    while i < us.len()
        invariant
            i <= us@.len(),
            body@ == unresolved_lines(us@.take(i as int)),
        decreases us@.len() - i,
    {
        let u = &us[i];
        let a = cat3("  ⚠️  ", u.file.display().as_str(), ": ");
        let b = cat3(a.as_str(), reason_text(u.reason), " (");
        body.append(cat3(b.as_str(), u.category.as_str(), ")\n").as_str());
        assert(us@.take(i + 1).drop_last() =~= us@.take(i as int));
        i = i + 1;
    }
    assert(us@.take(us@.len() as int) =~= us@);
    out.append(body.as_str());
    out
}

fn warnings_text(ws: &Vec<ValidationWarning>) -> (r: String)
    ensures
        r@ == warning_lines(ws@),
{
    let mut body = String::new();
    let mut i: usize = 0;
    assert(ws@.take(0) =~= Seq::<ValidationWarning>::empty());
    while i < ws.len()
        invariant
            i <= ws@.len(),
            body@ == warning_lines(ws@.take(i as int)),
        decreases ws@.len() - i,
    {
        let w = &ws[i];
        let a = cat3("  ⚠️  ", w.warning_type.label().as_str(), ": ");
        body.append(cat3(a.as_str(), w.message.as_str(), "\n").as_str());
        assert(ws@.take(i + 1).drop_last() =~= ws@.take(i as int));
        i = i + 1;
    }
    assert(ws@.take(ws@.len() as int) =~= ws@);
    body
}

fn plan_header_text(plan: &OperationPlan) -> (r: String)
    ensures
        r@ == plan_header(*plan),
{
    let mut out = cat3("Operation Plan: ", plan.id.as_str(), "\n");
    out.append(cat3("Scope: ", plan.scope.display().as_str(), "\n").as_str());
    out.append(cat3("Dry run: ", if plan.dry_run { "Yes" } else { "No" }, "\n").as_str());
    out.append("\n");
    out
}

fn plan_impact_text(plan: &OperationPlan) -> (r: String)
    ensures
        r@ == plan_impact(*plan),
{
    let mut out = owned("\n");
    out.append("=== Estimated Impact ===\n");
    out.append(cat3("  Files moved: ", u64_to_text(plan.estimated_impact.files_moved).as_str(), "\n").as_str());
    out.append(cat3("  Dirs created: ", u64_to_text(plan.estimated_impact.dirs_created).as_str(), "\n").as_str());
    out.append(cat3("  Dirs affected: ", u64_to_text(plan.estimated_impact.dirs_affected).as_str(), "\n").as_str());
    out.append(cat3("  Total bytes: ", u64_to_text(plan.estimated_impact.total_bytes).as_str(), "\n").as_str());
    out
}

impl PlanGenerator {
    /// The plan as text for the user.
    pub fn preview(&self, plan: &OperationPlan) -> (r: String)
        ensures
            r@ == plan_preview_spec(*plan),
    {
        let mut out = plan_header_text(plan);
        if plan.operations.len() == 0 {
            out.append("No operations proposed.\n");
            out.append(unresolved_text(&plan.unresolved_proposals).as_str());
            return out;
        }
        out.append(cat3("Total operations: ", usize_to_text(plan.operations.len()).as_str(), "\n").as_str());
        out.append("\n");
        out.append("=== Create Directories ===\n");
        out.append(section_text(&plan.operations, 0).as_str());
        out.append("\n=== File/Directory Moves ===\n");
        out.append(section_text(&plan.operations, 1).as_str());
        out.append("\n=== Deletions ===\n");
        out.append(section_text(&plan.operations, 2).as_str());
        out.append(unresolved_text(&plan.unresolved_proposals).as_str());
        out.append(plan_impact_text(plan).as_str());
        let conflicts = if plan.has_conflicts {
            owned("\n⚠️  Warning: Potential conflicts detected\n")
        } else {
            String::new()
        };
        out.append(conflicts.as_str());
        let warns = if plan.validation_warnings.len() == 0 {
            String::new()
        } else {
            cat("\n=== Validation Warnings ===\n", warnings_text(&plan.validation_warnings).as_str())
        };
        out.append(warns.as_str());
        out
    }
}


// ------------------------------------------------------ generation

pub type WarnTriple = (PathView, WarningType, Seq<char>);

pub open spec fn moves_view(v: Seq<(FsPath, u64)>) -> Seq<(PathView, u64)> {
    v.map_values(|m: (FsPath, u64)| (m.0@, m.1))
}

pub open spec fn proposed_view(v: Seq<ProposedOperation>) -> Seq<ProposedView> {
    v.map_values(|o: ProposedOperation| o@)
}

pub open spec fn names_of(v: Seq<String>) -> Seq<Seq<char>> {
    v.map_values(|s: String| s@)
}

pub open spec fn warn_triples(v: Seq<ValidationWarning>) -> Seq<WarnTriple> {
    v.map_values(|w: ValidationWarning| (w.path@, w.warning_type, w.message@))
}

/// Generation state: operations and warnings so far, directories known to
/// exist or be created, and the impact counts.
#[verifier::ext_equal]
pub struct GenState {
    pub ops: Seq<OpView>,
    pub warnings: Seq<WarnTriple>,
    pub created: Seq<PathView>,
    pub dirs_created: nat,
    pub files_moved: nat,
}

/// Adds a directory creation unless the directory is known or present.
pub open spec fn ensure_dir(st: GenState, d: PathView, fs: FsView) -> GenState {
    if !st.created.contains(d) && !exists_in(fs, d) {
        GenState {
            ops: st.ops.push(OpView::CreateDir { path: d }),
            created: st.created.push(d),
            dirs_created: st.dirs_created + 1,
            ..st
        }
    } else {
        st
    }
}

/// The file name of a path as a relative path (empty when it has none).
pub open spec fn name_part(p: PathView) -> PathView {
    match file_name_spec(p) {
        Some(n) => PathView { absolute: false, parts: seq![n] },
        None => PathView { absolute: false, parts: seq![] },
    }
}

/// A move of `src` into the directory `dest`, under its own name.
pub open spec fn move_into(dest: PathView, src: PathView) -> OpView {
    OpView::Move { source: src, dest: join_spec(dest, name_part(src)) }
}

pub open spec fn moves_into(dest: PathView, moved: Seq<(PathView, u64)>) -> Seq<OpView> {
    moved.map_values(|m: (PathView, u64)| move_into(dest, m.0))
}

/// One proposed operation turned into filesystem operations: categories get
/// their directory, moves pick the sampled files of the content type, a
/// preserved directory counts as existing, archives get `archive/<category>`
/// and a move of the category into it.
pub open spec fn gen_step(
    st: GenState,
    op: ProposedView,
    scope: PathView,
    cands: Seq<CandidateCategory>,
    names: Seq<Seq<char>>,
    partial: bool,
    fs: FsView,
) -> Result<GenState, PlanErrorView> {
    match op {
        ProposedView::CreateCategory { name, .. } => Ok(ensure_dir(st, category_dir(scope, cands, name), fs)),
        ProposedView::MoveCategory { to_category, content_type, file_count, .. } => {
            let dest = category_dir(scope, cands, to_category);
            let st1 = ensure_dir(st, dest, fs);
            let ct = parse_content_type_spec(content_type);
            let moved = found_moves(names, scope, ct, fs);
            if exists|i: int| 0 <= i < moved.len() && (#[trigger] moved[i]).0 == dest {
                Err(PlanErrorView::SourceEqualsDestination { source: dest, dest })
            } else {
                Ok(
                    GenState {
                        ops: st1.ops + moves_into(dest, moved),
                        warnings: st1.warnings + move_warnings(names, scope, ct, fs, partial, file_count),
                        files_moved: st1.files_moved + moved.len(),
                        ..st1
                    },
                )
            }
        },
        ProposedView::PreserveDirectory { path } => Ok(GenState { created: st.created.push(path), ..st }),
        ProposedView::ArchiveFiles { category, .. } => {
            let ad = join_spec(scope, parse_spec("archive"@));
            let st1 = ensure_dir(st, ad, fs);
            let dest = join_spec(ad, parse_spec(category));
            let st2 = if !exists_in(fs, dest) {
                GenState {
                    ops: st1.ops.push(OpView::CreateDir { path: dest }),
                    created: st1.created.push(dest),
                    dirs_created: st1.dirs_created + 1,
                    ..st1
                }
            } else {
                st1
            };
            Ok(GenState { ops: st2.ops.push(OpView::Move { source: join_spec(scope, parse_spec(category)), dest }), ..st2 })
        },
        ProposedView::LeaveUnclassified { .. } => Ok(st),
    }
}

/// The state after the first `k` proposed operations, or the first error.
pub open spec fn gen_fold(
    init: GenState,
    pops: Seq<ProposedView>,
    k: int,
    scope: PathView,
    cands: Seq<CandidateCategory>,
    names: Seq<Seq<char>>,
    partial: bool,
    fs: FsView,
) -> Result<GenState, PlanErrorView>
    decreases k,
{
    if k <= 0 || k > pops.len() {
        Ok(init)
    } else {
        match gen_fold(init, pops, k - 1, scope, cands, names, partial, fs) {
            Ok(st) => gen_step(st, pops[k - 1], scope, cands, names, partial, fs),
            Err(e) => Err(e),
        }
    }
}

/// The directories taken as existing at the start: the scope and the candidates.
pub open spec fn known_dirs(scope: PathView, cands: Seq<CandidateCategory>) -> Seq<PathView> {
    seq![scope] + cands.map_values(|c: CandidateCategory| c.path@)
}

pub open spec fn gen_init(scope: PathView, cands: Seq<CandidateCategory>) -> GenState {
    GenState { ops: seq![], warnings: seq![], created: known_dirs(scope, cands), dirs_created: 0, files_moved: 0 }
}

/// The first move whose source is absent yet reported a directory.
pub open spec fn missing_dir_source(ops: Seq<OpView>, fs: FsView) -> Option<PathView>
    decreases ops.len(),
{
    if ops.len() == 0 {
        None
    } else {
        match ops[0] {
            OpView::Move { source, .. } => if !exists_in(fs, source) && crate::snapshot::is_dir_in(fs, source) {
                Some(source)
            } else {
                missing_dir_source(ops.drop_first(), fs)
            },
            _ => missing_dir_source(ops.drop_first(), fs),
        }
    }
}

/// The operations, warnings, unresolved items and impact counts a
/// recommendation produces: through the proposal converter when its proposal
/// assigns files, otherwise from the proposed operations.
pub open spec fn generated_parts(
    rec: Recommendation,
    scope: PathView,
    cands: Seq<CandidateCategory>,
    names: Seq<Seq<char>>,
    partial: bool,
    fs: FsView,
) -> Result<GenState, PlanErrorView> {
    if proposal_assigns_files(rec.organization_proposal) {
        let c = convert_spec(categories_view(rec.organization_proposal->0.proposed_categories@), scope, cands, fs);
        Ok(GenState { ops: c.0, warnings: seq![], created: seq![], dirs_created: 0, files_moved: 0 })
    } else {
        let pops = proposed_view(rec.proposed_operations@);
        gen_fold(gen_init(scope, cands), pops, pops.len() as int, scope, cands, names, partial, fs)
    }
}

pub open spec fn generated_unresolved(
    rec: Recommendation,
    scope: PathView,
    cands: Seq<CandidateCategory>,
    fs: FsView,
) -> Seq<UnresolvedView> {
    if proposal_assigns_files(rec.organization_proposal) {
        convert_spec(categories_view(rec.organization_proposal->0.proposed_categories@), scope, cands, fs).1
    } else {
        seq![]
    }
}

/// The plan generated at time `created_at`, or why generation failed.
pub open spec fn generation_matches(
    r: Result<OperationPlan, PlanError>,
    rec: Recommendation,
    scope: PathView,
    cands: Seq<CandidateCategory>,
    names: Seq<Seq<char>>,
    partial: bool,
    fs: FsView,
    created_at: u64,
) -> bool {
    match generated_parts(rec, scope, cands, names, partial, fs) {
        Err(e) => r is Err && r->Err_0@ == e,
        Ok(g) => match first_plan_error(g.ops, scope) {
            Some(e) => r is Err && r->Err_0@ == e,
            None => match missing_dir_source(g.ops, fs) {
                Some(p) => r is Err && r->Err_0@ == PlanErrorView::SourcePathNotFound(p),
                None => r is Ok && {
                    let plan = r->Ok_0;
                    &&& plan.id@ == "plan-"@ + decimal(created_at as nat)
                    &&& plan.recommendation_id@ == rec.id@
                    &&& plan.scope@ == scope
                    &&& ops_view(plan.operations@) == g.ops
                    &&& plan.estimated_impact == (EstimatedImpact {
                        files_moved: g.files_moved as u64,
                        dirs_created: g.dirs_created as u64,
                        files_deleted: 0,
                        dirs_affected: 0,
                        total_bytes: 0,
                    })
                    &&& g.files_moved + g.dirs_created <= g.ops.len()
                    &&& warn_triples(plan.validation_warnings@) == g.warnings
                    &&& plan.has_conflicts == has_dest_collision(g.ops)
                    &&& unresolved_view(plan.unresolved_proposals@) == generated_unresolved(rec, scope, cands, fs)
                    &&& plan.dry_run
                    &&& plan.created_at == created_at
                    &&& plan.validation_context == Some(PlanValidationContext::new_spec())
                },
            },
        },
    }
}


/// Once generation fails, later operations do not change the failure.
proof fn lemma_gen_fold_err_stays(
    init: GenState,
    pops: Seq<ProposedView>,
    k: int,
    m: int,
    scope: PathView,
    cands: Seq<CandidateCategory>,
    names: Seq<Seq<char>>,
    partial: bool,
    fs: FsView,
)
    requires
        0 < k <= m <= pops.len(),
        gen_fold(init, pops, k, scope, cands, names, partial, fs) is Err,
    ensures
        gen_fold(init, pops, m, scope, cands, names, partial, fs) == gen_fold(init, pops, k, scope, cands, names, partial, fs),
    decreases m - k,
{
    if m > k {
        lemma_gen_fold_err_stays(init, pops, k, m - 1, scope, cands, names, partial, fs);
    }
}

fn find_missing_dir_source(ops: &Vec<FileSystemOperation>, fs: &FsSnapshot) -> (r: Option<FsPath>)
    ensures
        match r {
            Some(p) => missing_dir_source(ops_view(ops@), fs@) == Some(p@),
            None => missing_dir_source(ops_view(ops@), fs@) is None,
        },
{
    let ghost gops = ops_view(ops@);
    let mut i: usize = 0;
    assert(gops.skip(0) =~= gops);
    while i < ops.len()
        invariant
            i <= ops@.len(),
            gops == ops_view(ops@),
            missing_dir_source(gops, fs@) == missing_dir_source(gops.skip(i as int), fs@),
        decreases ops@.len() - i,
    {
        assert(gops.skip(i as int)[0] == ops@[i as int]@);
        assert(gops.skip(i as int).drop_first() =~= gops.skip(i + 1));
        match &ops[i] {
            FileSystemOperation::Move { source, .. } => {
                if !fs.is_present(source) && fs.is_dir(source) {
                    return Some(source.copy());
                }
            },
            _ => {},
        }
        i = i + 1;
    }
    None
}

fn moves_from(moved: &Vec<(FsPath, u64)>, dest: &FsPath) -> (b: bool)
    ensures
        b == exists|i: int| 0 <= i < moved@.len() && (#[trigger] moves_view(moved@)[i]).0 == dest@,
{
    let ghost mv = moved@.map_values(|m: (FsPath, u64)| (m.0@, m.1));
    let mut i: usize = 0;
    while i < moved.len()
        invariant
            i <= moved@.len(),
            mv == moved@.map_values(|m: (FsPath, u64)| (m.0@, m.1)),
            forall|k: int| 0 <= k < i ==> mv[k].0 != dest@,
        decreases moved@.len() - i,
    {
        if moved[i].0.same_as(dest) {
            assert(moves_view(moved@)[i as int].0 == dest@);
            return true;
        }
        i = i + 1;
    }
    false
}

struct GenBuffers {
    ops: Vec<FileSystemOperation>,
    warnings: Vec<ValidationWarning>,
    created: Vec<FsPath>,
    dirs_created: u64,
    files_moved: u64,
}

impl GenBuffers {
    closed spec fn state(&self) -> GenState {
        GenState {
            ops: ops_view(self.ops@),
            warnings: warn_triples(self.warnings@),
            created: self.created@.map_values(|p: FsPath| p@),
            dirs_created: self.dirs_created as nat,
            files_moved: self.files_moved as nat,
        }
    }

    closed spec fn wf(&self) -> bool {
        self.dirs_created + self.files_moved <= self.ops@.len()
    }
}

fn name_part_exec(p: &FsPath) -> (r: FsPath)
    ensures
        r@ == name_part(p@),
{
    match p.file_name() {
        Some(n) => {
            let r = FsPath { absolute: false, parts: vec![n] };
            assert(r@.parts =~= seq![n@]);
            r
        },
        None => {
            let r = FsPath { absolute: false, parts: Vec::new() };
            assert(r@.parts =~= Seq::<Seq<char>>::empty());
            r
        },
    }
}

fn path_listed(v: &Vec<FsPath>, p: &FsPath) -> (b: bool)
    ensures
        b == v@.map_values(|q: FsPath| q@).contains(p@),
{
    let ghost pv = v@.map_values(|q: FsPath| q@);
    let mut i: usize = 0;
    while i < v.len()
        invariant
            i <= v@.len(),
            pv == v@.map_values(|q: FsPath| q@),
            forall|k: int| 0 <= k < i ==> pv[k] != p@,
        decreases v@.len() - i,
    {
        if v[i].same_as(p) {
            assert(pv[i as int] == p@);
            return true;
        }
        i = i + 1;
    }
    false
}

impl PlanGenerator {
    fn ensure_dir_exec(buf: &mut GenBuffers, d: &FsPath, fs: &FsSnapshot)
        requires
            old(buf).wf(),
        ensures
            final(buf).wf(),
            final(buf).state() == ensure_dir(old(buf).state(), d@, fs@),
    {
        if !path_listed(&buf.created, d) && !fs.is_present(d) {
            let ghost s0 = buf.state();
            buf.ops.push(FileSystemOperation::CreateDir { path: d.copy() });
            buf.created.push(d.copy());
            let n = buf.ops.len();
            buf.dirs_created = buf.dirs_created + 1;
            assert(ops_view(buf.ops@) =~= s0.ops.push(OpView::CreateDir { path: d@ }));
            assert(buf.created@.map_values(|p: FsPath| p@) =~= s0.created.push(d@));
            assert(buf.state() =~= ensure_dir(s0, d@, fs@));
        }
    }

    fn gen_step_exec(
        &self,
        buf: &mut GenBuffers,
        op: &ProposedOperation,
        scope: &FsPath,
        candidates: &Vec<CandidateCategory>,
        sample: &Vec<String>,
        partial_scan: bool,
        fs: &FsSnapshot,
    ) -> (r: Result<(), PlanError>)
        requires
            old(buf).wf(),
        ensures
            match gen_step(
                old(buf).state(),
                op@,
                scope@,
                candidates@,
                sample@.map_values(|s: String| s@),
                partial_scan,
                fs@,
            ) {
                Ok(st) => r is Ok && final(buf).wf() && final(buf).state() == st,
                Err(e) => r is Err && r->Err_0@ == e,
            },
    {
        let ghost names = sample@.map_values(|s: String| s@);
        match op {
            ProposedOperation::CreateCategory { name, .. } => {
                let dest = resolve_category_dir_in(scope, candidates, name.as_str());
                Self::ensure_dir_exec(buf, &dest, fs);
                Ok(())
            },
            ProposedOperation::MoveCategory { to_category, content_type, file_count, .. } => {
                let dest = resolve_category_dir_in(scope, candidates, to_category.as_str());
                Self::ensure_dir_exec(buf, &dest, fs);
                let ghost st1 = buf.state();
                let ct = self.parse_content_type(content_type.as_str());
                let moved = self.resolve_file_moves(scope, sample, partial_scan, ct, *file_count, fs, &mut buf.warnings);
                let ghost mv = moved@.map_values(|m: (FsPath, u64)| (m.0@, m.1));
                assert(moves_view(moved@) == found_moves(names, scope@, ct, fs@));
                if moves_from(&moved, &dest) {
                    return Err(PlanError::SourceEqualsDestination { source: dest.copy(), dest: dest.copy() });
                }
                assert(!(exists|q: int|
                    0 <= q < found_moves(names, scope@, ct, fs@).len() && (#[trigger] found_moves(
                        names,
                        scope@,
                        ct,
                        fs@,
                    )[q]).0 == dest@));
                let ghost o0 = ops_view(buf.ops@);
                let mut j: usize = 0;
                while j < moved.len()
                    invariant
                        j <= moved@.len(),
                        mv == moved@.map_values(|m: (FsPath, u64)| (m.0@, m.1)),
                        ops_view(buf.ops@) == o0 + moves_into(dest@, mv.take(j as int)),
                        buf.ops@.len() == o0.len() + j,
                        buf.dirs_created + buf.files_moved <= o0.len(),
                        buf.dirs_created as nat == st1.dirs_created,
                        buf.files_moved as nat == st1.files_moved,
                        warn_triples(buf.warnings@) == st1.warnings + move_warnings(names, scope@, ct, fs@, partial_scan, *file_count),
                        buf.created@.map_values(|p: FsPath| p@) == st1.created,
                        o0 == st1.ops,
                    decreases moved@.len() - j,
                {
                    let src = &moved[j].0;
                    let target = dest.join(&name_part_exec(src));
                    let ghost prev = ops_view(buf.ops@);
                    buf.ops.push(FileSystemOperation::Move { source: src.copy(), dest: target });
                    assert(ops_view(buf.ops@) =~= prev.push(move_into(dest@, mv[j as int].0)));
                    assert(moves_into(dest@, mv.take(j + 1)) =~= moves_into(dest@, mv.take(j as int)).push(
                        move_into(dest@, mv[j as int].0),
                    ));
                    j = j + 1;
                }
                assert(mv.take(moved@.len() as int) =~= mv);
                let total = buf.ops.len();
                assert(buf.files_moved + moved@.len() <= total);
                buf.files_moved = buf.files_moved + moved.len() as u64;
                assert(buf.state() =~= GenState {
                    ops: st1.ops + moves_into(dest@, mv),
                    warnings: st1.warnings + move_warnings(names, scope@, ct, fs@, partial_scan, *file_count),
                    files_moved: st1.files_moved + mv.len(),
                    ..st1
                });
                Ok(())
            },
            ProposedOperation::PreserveDirectory { path } => {
                let ghost s0 = buf.state();
                buf.created.push(path.copy());
                assert(buf.created@.map_values(|p: FsPath| p@) =~= s0.created.push(path@));
                assert(buf.state() =~= GenState { created: s0.created.push(path@), ..s0 });
                Ok(())
            },
            ProposedOperation::ArchiveFiles { category, .. } => {
                let ad = scope.join_str("archive");
                Self::ensure_dir_exec(buf, &ad, fs);
                let dest = ad.join_str(category.as_str());
                let ghost s1 = buf.state();
                if !fs.is_present(&dest) {
                    buf.ops.push(FileSystemOperation::CreateDir { path: dest.copy() });
                    buf.created.push(dest.copy());
                    let n = buf.ops.len();
                    buf.dirs_created = buf.dirs_created + 1;
                    assert(ops_view(buf.ops@) =~= s1.ops.push(OpView::CreateDir { path: dest@ }));
                    assert(buf.created@.map_values(|p: FsPath| p@) =~= s1.created.push(dest@));
                }
                let ghost s2 = buf.state();
                let src = scope.join_str(category.as_str());
                buf.ops.push(FileSystemOperation::Move { source: src, dest });
                assert(ops_view(buf.ops@) =~= s2.ops.push(OpView::Move { source: join_spec(scope@, parse_spec(category@)), dest: dest@ }));
                assert(buf.state() =~= GenState {
                    ops: s2.ops.push(OpView::Move { source: join_spec(scope@, parse_spec(category@)), dest: dest@ }),
                    ..s2
                });
                Ok(())
            },
            ProposedOperation::LeaveUnclassified { .. } => Ok(()),
        }
    }

    /// The plan for a recommendation as of time `created_at`: operations from
    /// the proposal converter when the recommendation's proposal assigns files,
    /// otherwise from its proposed operations; then checked as
    /// `validate_operations` checks, and for moves of missing directories.
    pub fn generate_at(
        &self,
        recommendation: &Recommendation,
        scope: &FsPath,
        candidates: &Vec<CandidateCategory>,
        filename_sample: &Vec<String>,
        partial_scan: bool,
        fs: &FsSnapshot,
        created_at: u64,
    ) -> (r: Result<OperationPlan, PlanError>)
        ensures
            generation_matches(
                r,
                *recommendation,
                scope@,
                candidates@,
                names_of(filename_sample@),
                partial_scan,
                fs@,
                created_at,
            ),
    {
        let ghost names = filename_sample@.map_values(|s: String| s@);
        assert(names == names_of(filename_sample@));
        let mut unresolved: Vec<UnresolvedItem> = Vec::new();
        let mut buf = GenBuffers {
            ops: Vec::new(),
            warnings: Vec::new(),
            created: Vec::new(),
            dirs_created: 0,
            files_moved: 0,
        };
        if crate::recommendation::uses_proposal(recommendation) {
            let proposal = match &recommendation.organization_proposal {
                Some(p) => p,
                None => {
                    proof {
                        assert(false);
                    }
                    return Err(PlanError::InvalidCategory(String::new()));
                },
            };
            let converted = crate::proposal_converter::ProposalConverter.convert(proposal, candidates, scope, fs);
            match converted {
                Ok((ops, items)) => {
                    buf.ops = ops;
                    unresolved = items;
                },
                Err(e) => {
                    return Err(e);
                },
            }
            assert(buf.state() =~= GenState {
                ops: convert_spec(categories_view(proposal.proposed_categories@), scope@, candidates@, fs@).0,
                warnings: seq![],
                created: seq![],
                dirs_created: 0,
                files_moved: 0,
            });
        } else {
            buf.created.push(scope.copy());
            let mut c: usize = 0;
            while c < candidates.len()
                invariant
                    c <= candidates@.len(),
                    buf.ops@.len() == 0,
                    buf.warnings@.len() == 0,
                    buf.dirs_created == 0,
                    buf.files_moved == 0,
                    buf.created@.map_values(|p: FsPath| p@) == seq![scope@] + candidates@.take(c as int).map_values(
                        |x: CandidateCategory| x.path@,
                    ),
                decreases candidates@.len() - c,
            {
                let ghost prev = buf.created@.map_values(|p: FsPath| p@);
                buf.created.push(candidates[c].path.copy());
                assert(buf.created@.map_values(|p: FsPath| p@) =~= prev.push(candidates@[c as int].path@));
                assert(candidates@.take(c + 1).map_values(|x: CandidateCategory| x.path@) =~= candidates@.take(
                    c as int,
                ).map_values(|x: CandidateCategory| x.path@).push(candidates@[c as int].path@));
                c = c + 1;
            }
            assert(candidates@.take(candidates@.len() as int) =~= candidates@);
            assert(buf.state() =~= gen_init(scope@, candidates@));
            let pops = &recommendation.proposed_operations;
            let ghost pv = proposed_view(pops@);
            let mut k: usize = 0;
            while k < pops.len()
                invariant
                    k <= pops@.len(),
                    pv == proposed_view(pops@),
                    pv == proposed_view(recommendation.proposed_operations@),
                    names == filename_sample@.map_values(|s: String| s@),
                    !proposal_assigns_files(recommendation.organization_proposal),
                    buf.wf(),
                    gen_fold(gen_init(scope@, candidates@), pv, k as int, scope@, candidates@, names, partial_scan, fs@)
                        == Ok::<GenState, PlanErrorView>(buf.state()),
                decreases pops@.len() - k,
            {
                assert(pv[k as int] == pops@[k as int]@);
                let ghost before = buf.state();
                match self.gen_step_exec(&mut buf, &pops[k], scope, candidates, filename_sample, partial_scan, fs) {
                    Ok(()) => {},
                    Err(e) => {
                        proof {
                            assert(gen_step(before, pv[k as int], scope@, candidates@, names, partial_scan, fs@)
                                == Err::<GenState, PlanErrorView>(e@));
                            assert(gen_fold(gen_init(scope@, candidates@), pv, k + 1, scope@, candidates@, names, partial_scan, fs@)
                                == Err::<GenState, PlanErrorView>(e@));
                            lemma_gen_fold_err_stays(
                                gen_init(scope@, candidates@),
                                pv,
                                k + 1,
                                pv.len() as int,
                                scope@,
                                candidates@,
                                names,
                                partial_scan,
                                fs@,
                            );
                            assert(generated_parts(*recommendation, scope@, candidates@, names, partial_scan, fs@)
                                == Err::<GenState, PlanErrorView>(e@));
                        }
                        return Err(e);
                    },
                }
                k = k + 1;
            }
        }
        assert(buf.wf());
        assert(generated_parts(*recommendation, scope@, candidates@, names, partial_scan, fs@) == Ok::<
            GenState,
            PlanErrorView,
        >(buf.state()));
        assert(unresolved_view(unresolved@) == generated_unresolved(*recommendation, scope@, candidates@, fs@));
        let has_conflicts = match self.validate_operations(&buf.ops, scope) {
            Ok(b) => b,
            Err(e) => {
                return Err(e);
            },
        };
        match find_missing_dir_source(&buf.ops, fs) {
            Some(p) => {
                return Err(PlanError::SourcePathNotFound(p));
            },
            None => {},
        }
        Ok(OperationPlan {
            id: cat("plan-", u64_to_text(created_at).as_str()),
            recommendation_id: recommendation.id.clone(),
            scope: scope.copy(),
            operations: buf.ops,
            estimated_impact: EstimatedImpact {
                files_moved: buf.files_moved,
                dirs_created: buf.dirs_created,
                files_deleted: 0,
                dirs_affected: 0,
                total_bytes: 0,
            },
            validation_warnings: buf.warnings,
            has_conflicts,
            unresolved_proposals: unresolved,
            dry_run: true,
            created_at,
            validation_context: Some(PlanValidationContext::new()),
        })
    }

    /// The plan for a recommendation, stamped with the current time.
    pub fn generate(
        &self,
        recommendation: &Recommendation,
        scope: &FsPath,
        candidates: &Vec<CandidateCategory>,
        filename_sample: &Vec<String>,
        partial_scan: bool,
        fs: &FsSnapshot,
    ) -> (r: Result<OperationPlan, PlanError>)
        ensures
            exists|t: u64|
                #[trigger] generation_matches(
                    r,
                    *recommendation,
                    scope@,
                    candidates@,
                    names_of(filename_sample@),
                    partial_scan,
                    fs@,
                    t,
                ),
    {
        let now = crate::executor::now_secs();
        let r = self.generate_at(recommendation, scope, candidates, filename_sample, partial_scan, fs, now);
        assert(names_of(filename_sample@) == filename_sample@.map_values(|s: String| s@));
        assert(generation_matches(r, *recommendation, scope@, candidates@, names_of(filename_sample@), partial_scan, fs@, now));
        r
    }
}


proof fn lemma_no_plan_error_each(ops: Seq<OpView>, scope: PathView, i: int)
    requires
        first_plan_error(ops, scope) is None,
        0 <= i < ops.len(),
    ensures
        op_plan_error(ops[i], scope) is None,
    decreases ops.len(),
{
    if i > 0 {
        assert(ops.drop_first()[i - 1] == ops[i]);
        lemma_no_plan_error_each(ops.drop_first(), scope, i - 1);
    }
}

/// Every plan that generation produces stays inside its scope and never moves
/// a path onto itself: each destination lies under the scope, each move has a
/// source different from its destination; and the plan is a dry run until the
/// caller says otherwise.
pub proof fn law_generated_plans_stay_in_scope(
    r: Result<OperationPlan, PlanError>,
    rec: Recommendation,
    scope: PathView,
    cands: Seq<CandidateCategory>,
    names: Seq<Seq<char>>,
    partial: bool,
    fs: FsView,
    created_at: u64,
)
    requires
        generation_matches(r, rec, scope, cands, names, partial, fs, created_at),
        r is Ok,
    ensures
        r->Ok_0.dry_run,
        forall|i: int|
            0 <= i < r->Ok_0.operations@.len() ==> (dest_spec(#[trigger] r->Ok_0.operations@[i]@) matches Some(
                d,
            ) ==> starts_with_spec(d, scope)),
        forall|i: int|
            0 <= i < r->Ok_0.operations@.len() ==> (#[trigger] r->Ok_0.operations@[i]@ matches OpView::Move {
                source,
                dest,
            } ==> source != dest),
{
    let ops = ops_view(r->Ok_0.operations@);
    assert forall|i: int| 0 <= i < r->Ok_0.operations@.len() implies (dest_spec(
        #[trigger] r->Ok_0.operations@[i]@,
    ) matches Some(d) ==> starts_with_spec(d, scope)) && (r->Ok_0.operations@[i]@ matches OpView::Move {
        source,
        dest,
    } ==> source != dest) by {
        assert(ops[i] == r->Ok_0.operations@[i]@);
        lemma_no_plan_error_each(ops, scope, i);
    }
}


/// A plan generated from a proposal that assigns files never collides: no two
/// of its moves write the same destination or read the same file, and no
/// directory is created twice.
pub proof fn law_proposal_plans_never_collide(
    r: Result<OperationPlan, PlanError>,
    rec: Recommendation,
    scope: PathView,
    cands: Seq<CandidateCategory>,
    names: Seq<Seq<char>>,
    partial: bool,
    fs: FsView,
    created_at: u64,
)
    requires
        generation_matches(r, rec, scope, cands, names, partial, fs, created_at),
        r is Ok,
        proposal_assigns_files(rec.organization_proposal),
    ensures
        crate::proposal_converter::conversion_well_formed(ops_view(r->Ok_0.operations@)),
{
    crate::proposal_converter::law_conversion_never_collides(
        categories_view(rec.organization_proposal->0.proposed_categories@),
        scope,
        cands,
        fs,
    );
}


proof fn lemma_found_move_listed(names: Seq<Seq<char>>, scope: PathView, ct: ContentType, fs: FsView, i: int)
    requires
        0 <= i < names.len(),
        plan_exts(ct).contains(lowercase_of(after_last_dot(names[i]))),
        exists_in(fs, join_spec(scope, parse_spec(names[i]))),
    ensures
        found_moves(names, scope, ct, fs).contains((join_spec(scope, parse_spec(names[i])), 1024u64)),
    decreases names.len(),
{
    let prev = found_moves(names.drop_last(), scope, ct, fs);
    if i == names.len() - 1 {
        let cur = found_moves(names, scope, ct, fs);
        assert(cur[cur.len() - 1] == (join_spec(scope, parse_spec(names[i])), 1024u64));
    } else {
        assert(names.drop_last()[i] == names[i]);
        lemma_found_move_listed(names.drop_last(), scope, ct, fs, i);
        let x = (join_spec(scope, parse_spec(names[i])), 1024u64);
        let k = choose|k: int| 0 <= k < prev.len() && prev[k] == x;
        let cur = found_moves(names, scope, ct, fs);
        assert(cur[k] == x);
    }
}

/// Every sampled file with a standard image extension (`jpg`, `jpeg`, `png`,
/// `gif`, `bmp`, `tiff`, `webp`, `svg`, `ico`, in any case) that exists is
/// moved when images are organized.
pub proof fn law_images_are_moved_by_extension(
    names: Seq<Seq<char>>,
    scope: PathView,
    fs: FsView,
    i: int,
)
    requires
        0 <= i < names.len(),
        ({
            let e = lowercase_of(after_last_dot(names[i]));
            e == "jpg"@ || e == "jpeg"@ || e == "png"@ || e == "gif"@ || e == "bmp"@ || e == "tiff"@ || e == "webp"@
                || e == "svg"@ || e == "ico"@
        }),
        exists_in(fs, join_spec(scope, parse_spec(names[i]))),
    ensures
        found_moves(names, scope, ContentType::Images, fs).contains((join_spec(scope, parse_spec(names[i])), 1024u64)),
{
    let e = lowercase_of(after_last_dot(names[i]));
    let xs = plan_exts(ContentType::Images);
    assert(xs[0] == "jpg"@ && xs[1] == "jpeg"@ && xs[2] == "png"@ && xs[3] == "gif"@ && xs[4] == "bmp"@ && xs[5]
        == "tiff"@ && xs[6] == "webp"@ && xs[7] == "svg"@ && xs[8] == "ico"@);
    assert(xs.contains(e));
    lemma_found_move_listed(names, scope, ContentType::Images, fs, i);
}


/// Every sampled file of a content type's extension that exists is moved when
/// that type is organized.
pub proof fn law_sampled_files_of_the_type_are_moved(
    names: Seq<Seq<char>>,
    scope: PathView,
    ct: ContentType,
    fs: FsView,
    i: int,
)
    requires
        0 <= i < names.len(),
        plan_exts(ct).contains(lowercase_of(after_last_dot(names[i]))),
        exists_in(fs, join_spec(scope, parse_spec(names[i]))),
    ensures
        found_moves(names, scope, ct, fs).contains((join_spec(scope, parse_spec(names[i])), 1024u64)),
{
    lemma_found_move_listed(names, scope, ct, fs, i);
}

/// The extensions plan generation moves for each content type.
pub proof fn law_plan_extension_table()
    ensures
        plan_exts(ContentType::Documents) == seq![
            "pdf"@, "doc"@, "docx"@, "xls"@, "xlsx"@, "ppt"@, "pptx"@, "txt"@, "md"@, "csv"@, "rtf"@,
        ],
        plan_exts(ContentType::Images) == seq!["jpg"@, "jpeg"@, "png"@, "gif"@, "bmp"@, "tiff"@, "webp"@, "svg"@, "ico"@],
        plan_exts(ContentType::Archives) == seq!["zip"@, "rar"@, "7z"@, "tar"@, "gz"@, "bz2"@, "xz"@],
        plan_exts(ContentType::Media) == seq!["mp4"@, "avi"@, "mkv"@, "mov"@, "mp3"@, "wav"@, "flac"@],
        plan_exts(ContentType::Code) == seq![
            "py"@, "js"@, "ts"@, "rs"@, "go"@, "java"@, "c"@, "cpp"@, "h"@, "sh"@, "rb"@, "php"@,
        ],
        plan_exts(ContentType::Installers) == seq!["exe"@, "msi"@, "dmg"@, "pkg"@, "deb"@, "rpm"@],
        plan_exts(ContentType::Data) == seq!["db"@, "sqlite"@, "dat"@, "bin"@],
        plan_exts(ContentType::Config) == seq!["conf"@, "cfg"@, "ini"@, "env"@, "properties"@],
        plan_exts(ContentType::Other).len() == 0,
{
}

} // verus!

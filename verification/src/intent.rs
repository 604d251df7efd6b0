//! A natural-language request turned into a structured intent: the goal
//! (organize, reorganize, clean), its scope and purpose, the user's
//! constraints, hints, and the factors still left open.
use crate::path::{join_spec, parse_spec, FsPath, PathView};
use crate::snapshot::{is_dir_in, FsSnapshot, FsView};
use crate::text::{clone_strings, lowercase_of, seq_contains, seq_starts_with, str_contains, str_eq, str_starts_with, to_lowercase, owned};
use vstd::prelude::*;

verus! {

/// A cleaning rule; an archive age is given in seconds.
#[derive(Clone, Debug, PartialEq, Eq)]
pub enum CleanRule {
    DeleteTemps,
    ArchiveOld(u64),
    DeleteByNamePattern(String),
}

/// What the user wants done, and where.
#[derive(Clone, Debug, PartialEq, Eq)]
pub enum Goal {
    Organize { scope: FsPath, purpose: String },
    Reorganize { scope: FsPath, strategy: Option<String> },
    Clean { scope: FsPath, rules: Vec<CleanRule> },
}

/// The user's constraints; `archive_old` is an age in seconds.
#[derive(Clone, Copy, Debug, PartialEq, Eq)]
pub struct ConstraintSet {
    pub preserve_existing_folders: bool,
    pub merge_duplicates: bool,
    pub archive_old: Option<u64>,
    pub auto_delete_temps: bool,
    pub max_interactive_questions: usize,
}

/// One hint: a key and its value.
#[derive(Clone, Debug, PartialEq, Eq)]
pub struct Hint {
    pub key: String,
    pub value: String,
}

/// Free-form hints keyed by name; a later entry for a key shadows an earlier one.
#[derive(Clone, Debug, PartialEq, Eq)]
pub struct UserHints {
    pub entries: Vec<Hint>,
}

/// A structured request.
#[derive(Clone, Debug, PartialEq, Eq)]
pub struct TaskIntent {
    pub goal: Goal,
    pub constraints: ConstraintSet,
    pub user_hints: UserHints,
    pub unknown_factors: Vec<String>,
}

/// Why a request could not be read.
#[derive(Clone, Copy, Debug, PartialEq, Eq)]
pub enum IntentParseError {
    ScopeNotSpecified,
    AmbiguousPurpose,
    UnrecognizedIntent,
}

/// The intent a recognized request of kind `k` is read as.
pub open spec fn parsed_as(
    t: TaskIntent,
    request: Seq<char>,
    k: GoalKind,
    env: ScopeEnv,
    default_scope: PathView,
) -> bool {
    let l = lowercase_of(request);
    &&& t.goal@ == goal_of(l, k, scope_of(l, opt_text(env.user_profile), opt_text(env.home), env.dirs@, default_scope))
    &&& constraints_of(l, t.constraints)
    &&& t.user_hints@ == hints_of(l)
    &&& t.unknown_factors@.map_values(|s: String| s@) == unknowns_of(l, k)
}

pub open spec fn intent_error_message(e: IntentParseError) -> Seq<char> {
    match e {
        IntentParseError::ScopeNotSpecified => "Scope directory not specified"@,
        IntentParseError::AmbiguousPurpose => "Intent purpose is ambiguous"@,
        IntentParseError::UnrecognizedIntent => "Could not recognize intent from request"@,
    }
}

impl IntentParseError {
    /// The error as shown to users.
    pub fn message(&self) -> (r: String)
        ensures
            r@ == intent_error_message(*self),
    {
        match self {
            IntentParseError::ScopeNotSpecified => owned("Scope directory not specified"),
            IntentParseError::AmbiguousPurpose => owned("Intent purpose is ambiguous"),
            IntentParseError::UnrecognizedIntent => owned("Could not recognize intent from request"),
        }
    }
}

/// Where the special folder names (Downloads, Desktop, Documents) resolve:
/// the `USERPROFILE` and `HOME` variables, and the directories among the
/// request's words as probed on disk.
#[derive(Clone, Debug)]
pub struct ScopeEnv {
    pub user_profile: Option<String>,
    pub home: Option<String>,
    pub dirs: FsSnapshot,
}

/// Reads requests; paths that name no directory fall back to `default_scope`.
#[derive(Clone, Debug)]
pub struct TaskIntentParser {
    pub default_scope: FsPath,
}

// ---------------------------------------------------------------- views

pub enum CleanRuleView {
    DeleteTemps,
    ArchiveOld(u64),
    DeleteByNamePattern(Seq<char>),
}

pub enum GoalView {
    Organize { scope: PathView, purpose: Seq<char> },
    Reorganize { scope: PathView, strategy: Option<Seq<char>> },
    Clean { scope: PathView, rules: Seq<CleanRuleView> },
}

impl View for CleanRule {
    type V = CleanRuleView;

    open spec fn view(&self) -> CleanRuleView {
        match self {
            CleanRule::DeleteTemps => CleanRuleView::DeleteTemps,
            CleanRule::ArchiveOld(d) => CleanRuleView::ArchiveOld(*d),
            CleanRule::DeleteByNamePattern(p) => CleanRuleView::DeleteByNamePattern(p@),
        }
    }
}

pub open spec fn opt_text(o: Option<String>) -> Option<Seq<char>> {
    match o {
        Some(s) => Some(s@),
        None => None,
    }
}

impl View for Goal {
    type V = GoalView;

    open spec fn view(&self) -> GoalView {
        match self {
            Goal::Organize { scope, purpose } => GoalView::Organize { scope: scope@, purpose: purpose@ },
            Goal::Reorganize { scope, strategy } => GoalView::Reorganize {
                scope: scope@,
                strategy: opt_text(*strategy),
            },
            Goal::Clean { scope, rules } => GoalView::Clean {
                scope: scope@,
                rules: rules@.map_values(|r: CleanRule| r@),
            },
        }
    }
}

/// The scope a goal applies to.
pub open spec fn goal_scope(g: GoalView) -> PathView {
    match g {
        GoalView::Organize { scope, .. } => scope,
        GoalView::Reorganize { scope, .. } => scope,
        GoalView::Clean { scope, .. } => scope,
    }
}

impl View for UserHints {
    type V = Seq<(Seq<char>, Seq<char>)>;

    open spec fn view(&self) -> Seq<(Seq<char>, Seq<char>)> {
        self.entries@.map_values(|h: Hint| (h.key@, h.value@))
    }
}

/// The value of `key`: that of its last entry, if any.
pub open spec fn hint_get(es: Seq<(Seq<char>, Seq<char>)>, key: Seq<char>) -> Option<Seq<char>>
    decreases es.len(),
{
    if es.len() == 0 {
        None
    } else if es.last().0 == key {
        Some(es.last().1)
    } else {
        hint_get(es.drop_last(), key)
    }
}

/// The mathematical value of an intent.
pub struct IntentView {
    pub goal: GoalView,
    pub constraints: ConstraintSet,
    pub hints: Seq<(Seq<char>, Seq<char>)>,
    pub unknowns: Seq<Seq<char>>,
}

impl View for TaskIntent {
    type V = IntentView;

    open spec fn view(&self) -> IntentView {
        IntentView {
            goal: self.goal@,
            constraints: self.constraints,
            hints: self.user_hints@,
            unknowns: self.unknown_factors@.map_values(|s: String| s@),
        }
    }
}

impl TaskIntent {
    /// An independent copy of this intent.
    pub fn copy(&self) -> (r: TaskIntent)
        ensures
            r@ == self@,
    {
        let r = TaskIntent {
            goal: self.goal.copy(),
            constraints: self.constraints,
            user_hints: self.user_hints.copy(),
            unknown_factors: clone_strings(&self.unknown_factors),
        };
        assert(r@.unknowns =~= self@.unknowns);
        r
    }
}

impl UserHints {
    /// An independent copy of these hints.
    pub fn copy(&self) -> (r: UserHints)
        ensures
            r@ == self@,
    {
        let mut entries: Vec<Hint> = Vec::new();
        let mut i: usize = 0;
        while i < self.entries.len()
            invariant
                i <= self.entries@.len(),
                entries@.map_values(|h: Hint| (h.key@, h.value@)) == self@.take(i as int),
            decreases self.entries@.len() - i,
        {
            let h = &self.entries[i];
            let ghost prev = entries@.map_values(|h: Hint| (h.key@, h.value@));
            entries.push(Hint { key: h.key.clone(), value: h.value.clone() });
            assert(self@[i as int] == (h.key@, h.value@));
            assert(entries@.map_values(|h: Hint| (h.key@, h.value@)) =~= prev.push((h.key@, h.value@)));
            assert(self@.take(i + 1) =~= self@.take(i as int).push(self@[i as int]));
            i = i + 1;
        }
        assert(self@.take(i as int) =~= self@);
        UserHints { entries }
    }

    /// No hints.
    pub fn new() -> (r: UserHints)
        ensures
            r@ == Seq::<(Seq<char>, Seq<char>)>::empty(),
    {
        let r = UserHints { entries: Vec::new() };
        assert(r@ =~= Seq::<(Seq<char>, Seq<char>)>::empty());
        r
    }

    /// Sets `key` to `value`.
    pub fn insert(&mut self, key: String, value: String)
        ensures
            final(self)@ == old(self)@.push((key@, value@)),
    {
        let ghost before = self@;
        self.entries.push(Hint { key, value });
        assert(self@ =~= before.push((key@, value@)));
    }

    /// The value of `key`, if set.
    pub fn get(&self, key: &str) -> (r: Option<String>)
        ensures
            opt_text(r) == hint_get(self@, key@),
    {
        let mut i: usize = self.entries.len();
        assert(self@.subrange(0, i as int) =~= self@);
        while i > 0
            invariant
                i <= self@.len(),
                self@.len() == self.entries@.len(),
                hint_get(self@, key@) == hint_get(self@.subrange(0, i as int), key@),
            decreases i,
        {
            let ghost pre = self@.subrange(0, i as int);
            assert(pre.last() == self@[i - 1]);
            assert(pre.drop_last() =~= self@.subrange(0, i - 1));
            if str_eq(self.entries[i - 1].key.as_str(), key) {
                return Some(self.entries[i - 1].value.clone());
            }
            i = i - 1;
        }
        None
    }
}

/// Copy of a list of cleaning rules.
fn copy_rules(v: &Vec<CleanRule>) -> (r: Vec<CleanRule>)
    ensures
        r@.map_values(|x: CleanRule| x@) == v@.map_values(|x: CleanRule| x@),
{
    let mut r: Vec<CleanRule> = Vec::new();
    let mut i: usize = 0;
    while i < v.len()
        invariant
            i <= v@.len(),
            r@.map_values(|x: CleanRule| x@) == v@.subrange(0, i as int).map_values(|x: CleanRule| x@),
        decreases v@.len() - i,
    {
        let c = match &v[i] {
            CleanRule::DeleteTemps => CleanRule::DeleteTemps,
            CleanRule::ArchiveOld(d) => CleanRule::ArchiveOld(*d),
            CleanRule::DeleteByNamePattern(p) => CleanRule::DeleteByNamePattern(p.clone()),
        };
        assert(c@ == v@[i as int]@);
        let ghost prev = r@.map_values(|x: CleanRule| x@);
        r.push(c);
        assert(r@.map_values(|x: CleanRule| x@) =~= prev.push(c@));
        assert(v@.subrange(0, i + 1).map_values(|x: CleanRule| x@) =~= v@.subrange(0, i as int).map_values(
            |x: CleanRule| x@,
        ).push(v@[i as int]@));
        i = i + 1;
    }
    assert(v@.subrange(0, i as int) =~= v@);
    r
}

impl Goal {
    /// An independent copy of this goal.
    pub fn copy(&self) -> (r: Goal)
        ensures
            r@ == self@,
    {
        match self {
            Goal::Organize { scope, purpose } => Goal::Organize { scope: scope.copy(), purpose: purpose.clone() },
            Goal::Reorganize { scope, strategy } => {
                let s = match strategy {
                    Some(x) => Some(x.clone()),
                    None => None,
                };
                Goal::Reorganize { scope: scope.copy(), strategy: s }
            },
            Goal::Clean { scope, rules } => Goal::Clean { scope: scope.copy(), rules: copy_rules(rules) },
        }
    }

    /// The scope this goal applies to.
    pub fn scope(&self) -> (r: FsPath)
        ensures
            r@ == goal_scope(self@),
    {
        match self {
            Goal::Organize { scope, .. } => scope.copy(),
            Goal::Reorganize { scope, .. } => scope.copy(),
            Goal::Clean { scope, .. } => scope.copy(),
        }
    }
}

impl ConstraintSet {
    /// All constraints off, no questions allowed.
    pub fn new() -> (r: ConstraintSet)
        ensures
            !r.preserve_existing_folders,
            !r.merge_duplicates,
            r.archive_old is None,
            !r.auto_delete_temps,
            r.max_interactive_questions == 0,
    {
        ConstraintSet {
            preserve_existing_folders: false,
            merge_duplicates: false,
            archive_old: None,
            auto_delete_temps: false,
            max_interactive_questions: 0,
        }
    }
}

impl Default for ConstraintSet {
    fn default() -> (r: ConstraintSet)
        ensures
            !r.preserve_existing_folders,
            !r.merge_duplicates,
            r.archive_old is None,
            !r.auto_delete_temps,
            r.max_interactive_questions == 0,
    {
        ConstraintSet::new()
    }
}

// ------------------------------------------------------ request reading

/// `l` contains the literal `lit`.
pub open spec fn mentions(l: Seq<char>, lit: &str) -> bool {
    seq_contains(l, lit@)
}

/// The three kinds of goal a request can name.
pub enum GoalKind {
    Organize,
    Reorganize,
    Clean,
}

pub open spec fn names_reorganize(l: Seq<char>) -> bool {
    mentions(l, "reorganize") || mentions(l, "re-organize") || mentions(l, "重新整理") || mentions(l, "rearrange")
        || mentions(l, "重新排列")
}

pub open spec fn names_clean(l: Seq<char>) -> bool {
    mentions(l, "clean") || mentions(l, "clean up") || mentions(l, "清理") || mentions(l, "delete") || mentions(l, "remove")
        || mentions(l, "archive") || mentions(l, "歸檔") || mentions(l, "整理乾淨")
}

pub open spec fn names_organize(l: Seq<char>) -> bool {
    mentions(l, "organize") || mentions(l, "整治") || mentions(l, "整理") || mentions(l, "歸類") || mentions(l, "sort")
        || mentions(l, "arrange") || mentions(l, "structure")
}

/// The goal a lower-cased request names: reorganizing is tested first, then
/// cleaning, then organizing.
pub open spec fn goal_kind(l: Seq<char>) -> Option<GoalKind> {
    if names_reorganize(l) {
        Some(GoalKind::Reorganize)
    } else if names_clean(l) {
        Some(GoalKind::Clean)
    } else if names_organize(l) {
        Some(GoalKind::Organize)
    } else {
        None
    }
}

/// The archive age in days that a request mentions.
pub open spec fn archive_days(l: Seq<char>) -> Option<u64> {
    if mentions(l, "30") {
        Some(30)
    } else if mentions(l, "90") {
        Some(90)
    } else if mentions(l, "365") || mentions(l, "1 year") {
        Some(365)
    } else {
        None
    }
}

/// The cleaning rules a cleaning request asks for.
pub open spec fn clean_rules(l: Seq<char>) -> Seq<CleanRuleView> {
    let temps: Seq<CleanRuleView> = if mentions(l, "temp") || mentions(l, "temporary") || mentions(l, "暫存") || mentions(
        l,
        "暫時",
    ) {
        seq![CleanRuleView::DeleteTemps]
    } else {
        seq![]
    };
    if (mentions(l, "old") || mentions(l, "過期") || mentions(l, "久未使用")) && archive_days(l) is Some {
        temps.push(CleanRuleView::ArchiveOld((archive_days(l)->0 * 86400) as u64))
    } else {
        temps
    }
}

/// The purpose (taxonomy) a request asks for.
pub open spec fn purpose_of(l: Seq<char>) -> Seq<char> {
    if mentions(l, "work") && (mentions(l, "personal") || mentions(l, "個人")) && (mentions(l, "entertainment") || mentions(
        l,
        "娛樂",
    )) {
        "work/personal/entertainment"@
    } else if (mentions(l, "work") || mentions(l, "工作")) && (mentions(l, "project") || mentions(l, "專案")) {
        "work/project"@
    } else if mentions(l, "project") || mentions(l, "專案") {
        "by_project"@
    } else if mentions(l, "year") || mentions(l, "年度") || mentions(l, "date") || mentions(l, "時間") {
        "by_date"@
    } else if mentions(l, "type") || mentions(l, "category") || mentions(l, "類別") || mentions(l, "種類") {
        "by_category"@
    } else if mentions(l, "size") || mentions(l, "大小") {
        "by_size"@
    } else {
        "general_organization"@
    }
}

pub open spec fn wants_archive(l: Seq<char>) -> bool {
    mentions(l, "archive old") || mentions(l, "archive") || mentions(l, "歸檔") || mentions(l, "舊檔")
}

/// The constraints a request implies.
pub open spec fn constraints_of(l: Seq<char>, c: ConstraintSet) -> bool {
    &&& c.preserve_existing_folders == (mentions(l, "preserve") || mentions(l, "保留") || mentions(l, "keep existing")
        || mentions(l, "existing folder"))
    &&& c.merge_duplicates == (mentions(l, "merge") || mentions(l, "合併") || mentions(l, "duplicate"))
    &&& c.archive_old == (if wants_archive(l) {
        Some(
            (match archive_days(l) {
                Some(d) => d,
                None => 365u64,
            } * 86400) as u64,
        )
    } else {
        None::<u64>
    })
    &&& c.auto_delete_temps == (mentions(l, "delete temp") || mentions(l, "auto-delete") || mentions(l, "刪除暫存")
        || mentions(l, "自動刪除") || mentions(l, "clean up temp") || mentions(l, "clean temp"))
    &&& c.max_interactive_questions == 10
}

/// The hints a request carries, in the order they are recorded.
pub open spec fn hints_of(l: Seq<char>) -> Seq<(Seq<char>, Seq<char>)> {
    let a: Seq<(Seq<char>, Seq<char>)> = if mentions(l, "dry run") || mentions(l, "preview") || mentions(l, "預覽") {
        seq![("dry_run"@, "true"@)]
    } else {
        seq![]
    };
    if mentions(l, "verbose") || mentions(l, "詳細") {
        a.push(("verbose"@, "true"@))
    } else {
        a
    }
}

/// The factors a request leaves open, for the goal it names.
pub open spec fn unknowns_of(l: Seq<char>, k: GoalKind) -> Seq<Seq<char>> {
    let org = !(k is Clean);
    let s1: Seq<Seq<char>> = if org && purpose_of(l) == "general_organization"@ {
        seq!["desired_category_structure"@]
    } else {
        seq![]
    };
    let s2 = if org && !mentions(l, "delete") && !mentions(l, "remove") && !mentions(l, "clean") {
        s1.push("file_disposition_policy"@)
    } else {
        s1
    };
    let s3 = if org {
        s2.push("duplicate_handling_strategy"@).push("ambiguous_file_resolution"@)
    } else {
        s2
    };
    if !org && !mentions(l, "delete temp") && !mentions(l, "archive old") {
        s3.push("cleanup_scope_definition"@)
    } else {
        s3
    }
}

/// Whether a character has Unicode's White_Space property, which is what
/// `char::is_whitespace` tests: tab through carriage return, space, next
/// line, no-break space, ogham space mark, the spaces from en quad to hair
/// space, line and paragraph separators, narrow no-break space, medium
/// mathematical space and ideographic space.
pub open spec fn is_whitespace_char(c: char) -> bool {
    let u = c as int;
    ||| 0x9 <= u <= 0xD
    ||| u == 0x20
    ||| u == 0x85
    ||| u == 0xA0
    ||| u == 0x1680
    ||| 0x2000 <= u <= 0x200A
    ||| u == 0x2028
    ||| u == 0x2029
    ||| u == 0x202F
    ||| u == 0x205F
    ||| u == 0x3000
}

/// Whether a character is alphanumeric, as `char::is_alphanumeric` decides (Unicode).
pub uninterp spec fn is_alphanumeric_char(c: char) -> bool;

/// Whether the character has the Unicode White_Space property, as
/// `char::is_whitespace` decides.
pub(crate) fn char_is_whitespace(c: char) -> (b: bool)
    ensures
        b == is_whitespace_char(c),
{
    let u = c as u32;
    (0x9 <= u && u <= 0xD) || u == 0x20 || u == 0x85 || u == 0xA0 || u == 0x1680 || (0x2000 <= u && u <= 0x200A)
        || u == 0x2028 || u == 0x2029 || u == 0x202F || u == 0x205F || u == 0x3000
}

/// `char::is_alphanumeric`; its result is named by `is_alphanumeric_char`.
#[verifier::external_body]
fn char_is_alphanumeric(c: char) -> (b: bool)
    ensures
        b == is_alphanumeric_char(c),
{
    c.is_alphanumeric()
}

/// Adds the word being read, unless it is empty.
pub open spec fn flush_word(words: Seq<Seq<char>>, cur: Seq<char>) -> Seq<Seq<char>> {
    if cur.len() == 0 {
        words
    } else {
        words.push(cur)
    }
}

/// Whitespace splitting after `k` characters: finished words and the word being read.
pub open spec fn word_scan(s: Seq<char>, k: nat) -> (Seq<Seq<char>>, Seq<char>)
    decreases k,
{
    if k == 0 || k > s.len() {
        (seq![], seq![])
    } else {
        let prev = word_scan(s, (k - 1) as nat);
        if is_whitespace_char(s[k - 1]) {
            (flush_word(prev.0, prev.1), seq![])
        } else {
            (prev.0, prev.1.push(s[k - 1]))
        }
    }
}

/// The whitespace-separated words of `s`.
pub open spec fn words_of(s: Seq<char>) -> Seq<Seq<char>> {
    let st = word_scan(s, s.len());
    flush_word(st.0, st.1)
}

/// A word without its leading non-alphanumeric characters.
pub open spec fn trim_leading(t: Seq<char>) -> Seq<char>
    decreases t.len(),
{
    if t.len() == 0 {
        t
    } else if is_alphanumeric_char(t[0]) {
        t
    } else {
        trim_leading(t.drop_first())
    }
}

/// A trimmed word that names the scope.
pub open spec fn word_names_dir(w: Seq<char>, fs: FsView) -> bool {
    seq_starts_with(w, "/"@) || seq_starts_with(w, "\\"@) || seq_starts_with(w, "./"@) || is_dir_in(
        fs,
        parse_spec(w),
    )
}

/// The first word (trimmed) that names a directory, or `fallback`.
pub open spec fn scope_from_words(ws: Seq<Seq<char>>, fs: FsView, fallback: PathView) -> PathView
    decreases ws.len(),
{
    if ws.len() == 0 {
        fallback
    } else if word_names_dir(trim_leading(ws[0]), fs) {
        parse_spec(trim_leading(ws[0]))
    } else {
        scope_from_words(ws.drop_first(), fs, fallback)
    }
}

/// Where a special folder name resolves: under `USERPROFILE`, else under `HOME`, else as is.
pub open spec fn special_path(folder: Seq<char>, profile: Option<Seq<char>>, home: Option<Seq<char>>) -> PathView {
    match profile {
        Some(p) => join_spec(parse_spec(p), parse_spec(folder)),
        None => match home {
            Some(h) => join_spec(parse_spec(h), parse_spec(folder)),
            None => parse_spec(folder),
        },
    }
}

/// The scope a lower-cased request names.
pub open spec fn scope_of(
    l: Seq<char>,
    profile: Option<Seq<char>>,
    home: Option<Seq<char>>,
    fs: FsView,
    fallback: PathView,
) -> PathView {
    if mentions(l, "downloads") || mentions(l, "下載") {
        special_path("Downloads"@, profile, home)
    } else if mentions(l, "desktop") || mentions(l, "桌面") {
        special_path("Desktop"@, profile, home)
    } else if mentions(l, "documents") {
        special_path("Documents"@, profile, home)
    } else {
        scope_from_words(words_of(l), fs, fallback)
    }
}

/// The goal a request yields, given its kind and the scope it names.
pub open spec fn goal_of(l: Seq<char>, k: GoalKind, scope: PathView) -> GoalView {
    match k {
        GoalKind::Organize => GoalView::Organize { scope, purpose: purpose_of(l) },
        GoalKind::Reorganize => GoalView::Reorganize { scope, strategy: Some(purpose_of(l)) },
        GoalKind::Clean => GoalView::Clean { scope, rules: clean_rules(l) },
    }
}

fn has_text(l: &str, lit: &str) -> (b: bool)
    ensures
        b == seq_contains(l@, lit@),
{
    str_contains(l, lit)
}

impl TaskIntentParser {
    pub fn new(default_scope: FsPath) -> (r: TaskIntentParser)
        ensures
            r.default_scope@ == default_scope@,
    {
        TaskIntentParser { default_scope }
    }

    /// Reads a request into a `TaskIntent`.
    ///
    /// The request is lower-cased, then matched against keyword lists: the goal
    /// (reorganize before clean before organize), the purpose, the constraints,
    /// the hints and the open factors. The scope is a special folder (Downloads,
    /// Desktop, Documents) when one is named, else the first word that names a
    /// directory, else `default_scope`.
    pub fn parse(&self, request: &str, env: &ScopeEnv) -> (r: Result<TaskIntent, IntentParseError>)
        ensures
            ({
                let l = lowercase_of(request@);
                match goal_kind(l) {
                    None => r == Err::<TaskIntent, IntentParseError>(IntentParseError::UnrecognizedIntent),
                    Some(k) => r is Ok && {
                        let t = r->Ok_0;
                        &&& t.goal@ == goal_of(
                            l,
                            k,
                            scope_of(l, opt_text(env.user_profile), opt_text(env.home), env.dirs@, self.default_scope@),
                        )
                        &&& constraints_of(l, t.constraints)
                        &&& t.user_hints@ == hints_of(l)
                        &&& t.unknown_factors@.map_values(|s: String| s@) == unknowns_of(l, k)
                    },
                }
            }),
    {
        let lower = to_lowercase(request);
        let l = lower.as_str();
        let kind = Self::detect_goal(l);
        let kind = match kind {
            None => return Err(IntentParseError::UnrecognizedIntent),
            Some(k) => k,
        };
        let scope = self.detect_scope(l, env);
        let purpose = Self::detect_purpose(l);
        let constraints = Self::infer_constraints(l);
        let user_hints = Self::extract_hints(l);
        let unknown_factors = Self::identify_unknown_factors(l, &kind);
        let goal = match kind {
            GoalKind::Organize => Goal::Organize { scope, purpose },
            GoalKind::Reorganize => Goal::Reorganize { scope, strategy: Some(purpose) },
            GoalKind::Clean => {
                let rules = Self::detect_clean_rules(l);
                Goal::Clean { scope, rules }
            },
        };
        Ok(TaskIntent { goal, constraints, user_hints, unknown_factors })
    }

    fn detect_goal(l: &str) -> (r: Option<GoalKind>)
        ensures
            r == goal_kind(l@),
    {
        if has_text(l, "reorganize") || has_text(l, "re-organize") || has_text(l, "重新整理")
            || has_text(l, "rearrange") || has_text(l, "重新排列") {
            return Some(GoalKind::Reorganize);
        }
        if has_text(l, "clean") || has_text(l, "clean up") || has_text(l, "清理") || has_text(l, "delete")
            || has_text(l, "remove") || has_text(l, "archive") || has_text(l, "歸檔") || has_text(
            l,
            "整理乾淨",
        ) {
            return Some(GoalKind::Clean);
        }
        if has_text(l, "organize") || has_text(l, "整治") || has_text(l, "整理") || has_text(l, "歸類")
            || has_text(l, "sort") || has_text(l, "arrange") || has_text(l, "structure") {
            return Some(GoalKind::Organize);
        }
        None
    }

    fn detect_clean_rules(l: &str) -> (r: Vec<CleanRule>)
        ensures
            r@.map_values(|x: CleanRule| x@) == clean_rules(l@),
    {
        let mut rules: Vec<CleanRule> = Vec::new();
        if has_text(l, "temp") || has_text(l, "temporary") || has_text(l, "暫存") || has_text(l, "暫時") {
            rules.push(CleanRule::DeleteTemps);
        }
        let ghost first = rules@.map_values(|x: CleanRule| x@);
        if has_text(l, "old") || has_text(l, "過期") || has_text(l, "久未使用") {
            match Self::extract_archive_days(l) {
                Some(days) => {
                    rules.push(CleanRule::ArchiveOld(days * 86400));
                    assert(rules@.map_values(|x: CleanRule| x@) =~= first.push(
                        CleanRuleView::ArchiveOld((days * 86400) as u64),
                    ));
                },
                None => {},
            }
        }
        assert(rules@.map_values(|x: CleanRule| x@) =~= clean_rules(l@));
        rules
    }

    fn extract_archive_days(l: &str) -> (r: Option<u64>)
        ensures
            r == archive_days(l@),
    {
        if has_text(l, "30") {
            Some(30)
        } else if has_text(l, "90") {
            Some(90)
        } else if has_text(l, "365") || has_text(l, "1 year") {
            Some(365)
        } else {
            None
        }
    }

    fn expand_special_path(folder: &str, env: &ScopeEnv) -> (r: FsPath)
        ensures
            r@ == special_path(folder@, opt_text(env.user_profile), opt_text(env.home)),
    {
        match &env.user_profile {
            Some(p) => FsPath::parse(p.as_str()).join_str(folder),
            None => match &env.home {
                Some(h) => FsPath::parse(h.as_str()).join_str(folder),
                None => FsPath::parse(folder),
            },
        }
    }

    /// The words of a request that may name its scope directory: each word
    /// of the lower-cased request with its leading non-alphanumeric
    /// characters removed. A caller probes these paths into `ScopeEnv::dirs`.
    pub fn scope_words(request: &str) -> (r: Vec<String>)
        ensures
            r@.map_values(|s: String| s@) == words_of(lowercase_of(request@)).map_values(
                |w: Seq<char>| trim_leading(w),
            ),
    {
        let lower = to_lowercase(request);
        let words = split_words(lower.as_str());
        let ghost ws = words@.map_values(|w: Vec<char>| w@);
        let mut r: Vec<String> = Vec::new();
        let mut i: usize = 0;
        while i < words.len()
            invariant
                i <= words@.len(),
                ws == words@.map_values(|w: Vec<char>| w@),
                r@.map_values(|s: String| s@) == ws.take(i as int).map_values(|w: Seq<char>| trim_leading(w)),
            decreases words@.len() - i,
        {
            let trimmed = trim_leading_exec(&words[i]);
            let t = crate::path::chars_to_string(&trimmed);
            let ghost prev = r@.map_values(|s: String| s@);
            r.push(t);
            assert(r@.map_values(|s: String| s@) =~= prev.push(trim_leading(ws[i as int])));
            assert(ws.take(i + 1).map_values(|w: Seq<char>| trim_leading(w)) =~= ws.take(i as int).map_values(
                |w: Seq<char>| trim_leading(w),
            ).push(trim_leading(ws[i as int])));
            i = i + 1;
        }
        assert(ws.take(words@.len() as int) =~= ws);
        r
    }

    fn detect_scope(&self, l: &str, env: &ScopeEnv) -> (r: FsPath)
        ensures
            r@ == scope_of(l@, opt_text(env.user_profile), opt_text(env.home), env.dirs@, self.default_scope@),
    {
        if has_text(l, "downloads") || has_text(l, "下載") {
            return Self::expand_special_path("Downloads", env);
        }
        if has_text(l, "desktop") || has_text(l, "桌面") {
            return Self::expand_special_path("Desktop", env);
        }
        if has_text(l, "documents") {
            return Self::expand_special_path("Documents", env);
        }
        assert(scope_of(l@, opt_text(env.user_profile), opt_text(env.home), env.dirs@, self.default_scope@)
            == scope_from_words(words_of(l@), env.dirs@, self.default_scope@));
        let words = split_words(l);
        let mut i: usize = 0;
        assert(words@.map_values(|w: Vec<char>| w@).skip(0) =~= words@.map_values(|w: Vec<char>| w@));
        while i < words.len()
            invariant
                i <= words@.len(),
                scope_of(l@, opt_text(env.user_profile), opt_text(env.home), env.dirs@, self.default_scope@)
                    == scope_from_words(words_of(l@), env.dirs@, self.default_scope@),
                scope_from_words(words_of(l@), env.dirs@, self.default_scope@) == scope_from_words(
                    words@.map_values(|w: Vec<char>| w@).skip(i as int),
                    env.dirs@,
                    self.default_scope@,
                ),
            decreases words@.len() - i,
        {
            let ghost ws = words@.map_values(|w: Vec<char>| w@);
            assert(ws.skip(i as int)[0] == words@[i as int]@);
            assert(ws.skip(i as int).drop_first() =~= ws.skip(i + 1));
            let trimmed = trim_leading_exec(&words[i]);
            let t = crate::path::chars_to_string(&trimmed);
            let hit = str_starts_with(t.as_str(), "/") || str_starts_with(t.as_str(), "\\")
                || str_starts_with(t.as_str(), "./");
            let candidate = FsPath::parse(t.as_str());
            let is_dir = env.dirs.is_dir(&candidate);
            assert(t@ == trim_leading(ws.skip(i as int)[0]));
            assert((hit || is_dir) == word_names_dir(trim_leading(ws.skip(i as int)[0]), env.dirs@));
            if hit || is_dir {
                assert(scope_from_words(ws.skip(i as int), env.dirs@, self.default_scope@) == parse_spec(t@));
                return candidate;
            }
            i = i + 1;
        }
        self.default_scope.copy()
    }

    fn detect_purpose(l: &str) -> (r: String)
        ensures
            r@ == purpose_of(l@),
    {
        if has_text(l, "work") && (has_text(l, "personal") || has_text(l, "個人")) && (has_text(
            l,
            "entertainment",
        ) || has_text(l, "娛樂")) {
            return owned("work/personal/entertainment");
        }
        if (has_text(l, "work") || has_text(l, "工作")) && (has_text(l, "project") || has_text(l, "專案")) {
            return owned("work/project");
        }
        if has_text(l, "project") || has_text(l, "專案") {
            return owned("by_project");
        }
        if has_text(l, "year") || has_text(l, "年度") || has_text(l, "date") || has_text(l, "時間") {
            return owned("by_date");
        }
        if has_text(l, "type") || has_text(l, "category") || has_text(l, "類別") || has_text(l, "種類") {
            return owned("by_category");
        }
        if has_text(l, "size") || has_text(l, "大小") {
            return owned("by_size");
        }
        owned("general_organization")
    }

    fn infer_constraints(l: &str) -> (r: ConstraintSet)
        ensures
            constraints_of(l@, r),
    {
        let preserve = has_text(l, "preserve") || has_text(l, "保留") || has_text(l, "keep existing")
            || has_text(l, "existing folder");
        let merge = has_text(l, "merge") || has_text(l, "合併") || has_text(l, "duplicate");
        let archive_old = if has_text(l, "archive old") || has_text(l, "archive") || has_text(l, "歸檔")
            || has_text(l, "舊檔") {
            let days = match Self::extract_archive_days(l) {
                Some(d) => d,
                None => 365,
            };
            Some(days * 86400)
        } else {
            None
        };
        let auto_delete = has_text(l, "delete temp") || has_text(l, "auto-delete") || has_text(
            l,
            "刪除暫存",
        ) || has_text(l, "自動刪除") || has_text(l, "clean up temp") || has_text(l, "clean temp");
        ConstraintSet {
            preserve_existing_folders: preserve,
            merge_duplicates: merge,
            archive_old,
            auto_delete_temps: auto_delete,
            max_interactive_questions: 10,
        }
    }

    fn extract_hints(l: &str) -> (r: UserHints)
        ensures
            r@ == hints_of(l@),
    {
        let mut hints = UserHints::new();
        if has_text(l, "dry run") || has_text(l, "preview") || has_text(l, "預覽") {
            hints.insert(owned("dry_run"), owned("true"));
        }
        if has_text(l, "verbose") || has_text(l, "詳細") {
            hints.insert(owned("verbose"), owned("true"));
        }
        assert(hints@ =~= hints_of(l@));
        hints
    }

    fn identify_unknown_factors(l: &str, kind: &GoalKind) -> (r: Vec<String>)
        ensures
            r@.map_values(|s: String| s@) == unknowns_of(l@, *kind),
    {
        let mut unknowns: Vec<String> = Vec::new();
        let org = match kind {
            GoalKind::Clean => false,
            _ => true,
        };
        if org {
            let purpose = Self::detect_purpose(l);
            if str_eq(purpose.as_str(), "general_organization") {
                unknowns.push(owned("desired_category_structure"));
            }
            if !has_text(l, "delete") && !has_text(l, "remove") && !has_text(l, "clean") {
                unknowns.push(owned("file_disposition_policy"));
            }
            unknowns.push(owned("duplicate_handling_strategy"));
            unknowns.push(owned("ambiguous_file_resolution"));
        }
        if !org && !has_text(l, "delete temp") && !has_text(l, "archive old") {
            unknowns.push(owned("cleanup_scope_definition"));
        }
        assert(unknowns@.map_values(|s: String| s@) =~= unknowns_of(l@, *kind));
        unknowns
    }
}

impl Default for TaskIntentParser {
    fn default() -> (r: TaskIntentParser)
        ensures
            r.default_scope@ == parse_spec("."@),
    {
        TaskIntentParser { default_scope: FsPath::parse(".") }
    }
}

/// Splits on whitespace, as `str::split_whitespace` does.
fn split_words(s: &str) -> (r: Vec<Vec<char>>)
    ensures
        r@.map_values(|w: Vec<char>| w@) == words_of(s@),
{
    let cs = crate::text::chars_of(s);
    let n = cs.len();
    let mut words: Vec<Vec<char>> = Vec::new();
    let mut cur: Vec<char> = Vec::new();
    let mut i: usize = 0;
    while i < n
        invariant
            n == s@.len(),
            cs@ == s@,
            i <= n,
            words@.map_values(|w: Vec<char>| w@) == word_scan(s@, i as nat).0,
            cur@ == word_scan(s@, i as nat).1,
        decreases n - i,
    {
        let c = cs[i];
        let ghost prev = words@.map_values(|w: Vec<char>| w@);
        if char_is_whitespace(c) {
            if cur.len() > 0 {
                words.push(cur);
                assert(words@.map_values(|w: Vec<char>| w@) =~= prev.push(word_scan(s@, i as nat).1));
            }
            cur = Vec::new();
        } else {
            cur.push(c);
        }
        i = i + 1;
    }
    let ghost prev = words@.map_values(|w: Vec<char>| w@);
    if cur.len() > 0 {
        words.push(cur);
        assert(words@.map_values(|w: Vec<char>| w@) =~= prev.push(word_scan(s@, n as nat).1));
    }
    words
}

/// Drops leading characters that are not alphanumeric.
fn trim_leading_exec(w: &Vec<char>) -> (r: Vec<char>)
    ensures
        r@ == trim_leading(w@),
{
    let n = w.len();
    let mut k: usize = 0;
    assert(w@.skip(0) =~= w@);
    while k < n && !char_is_alphanumeric(w[k])
        invariant
            n == w@.len(),
            k <= n,
            trim_leading(w@) == trim_leading(w@.skip(k as int)),
        decreases n - k,
    {
        assert(w@.skip(k as int).drop_first() =~= w@.skip(k + 1));
        k = k + 1;
    }
    let mut r: Vec<char> = Vec::new();
    let mut j: usize = k;
    while j < n
        invariant
            n == w@.len(),
            k <= j <= n,
            r@ == w@.subrange(k as int, j as int),
        decreases n - j,
    {
        r.push(w[j]);
        j = j + 1;
        assert(r@ =~= w@.subrange(k as int, j as int));
    }
    assert(w@.skip(k as int) =~= w@.subrange(k as int, n as int));
    r
}


/// A request to organize that mentions a date or a year (`date`, `year`,
/// `年度`, `時間`) and neither a project (`project`, `專案`) nor work (`work`)
/// is organized by date.
pub proof fn law_dated_requests_are_organized_by_date(
    t: TaskIntent,
    request: Seq<char>,
    env: ScopeEnv,
    default_scope: PathView,
)
    requires
        parsed_as(t, request, GoalKind::Organize, env, default_scope),
        seq_contains(lowercase_of(request), "date"@) || seq_contains(lowercase_of(request), "year"@) || seq_contains(
            lowercase_of(request),
            "年度"@,
        ) || seq_contains(lowercase_of(request), "時間"@),
        !seq_contains(lowercase_of(request), "project"@),
        !seq_contains(lowercase_of(request), "專案"@),
        !seq_contains(lowercase_of(request), "work"@),
    ensures
        t.goal@ matches GoalView::Organize { purpose, .. } && purpose == "by_date"@,
{
}

/// A request to organize that mentions a project (`project`, `專案`) and no
/// work (`work`, `工作`) is organized by project.
pub proof fn law_project_requests_are_organized_by_project(
    t: TaskIntent,
    request: Seq<char>,
    env: ScopeEnv,
    default_scope: PathView,
)
    requires
        parsed_as(t, request, GoalKind::Organize, env, default_scope),
        seq_contains(lowercase_of(request), "project"@) || seq_contains(lowercase_of(request), "專案"@),
        !seq_contains(lowercase_of(request), "work"@),
        !seq_contains(lowercase_of(request), "工作"@),
    ensures
        t.goal@ matches GoalView::Organize { purpose, .. } && purpose == "by_project"@,
{
}

/// A request to organize that mentions a kind of file (`type`, `category`,
/// `類別`, `種類`) and no project, work, date or year is organized by category.
pub proof fn law_typed_requests_are_organized_by_category(
    t: TaskIntent,
    request: Seq<char>,
    env: ScopeEnv,
    default_scope: PathView,
)
    requires
        parsed_as(t, request, GoalKind::Organize, env, default_scope),
        seq_contains(lowercase_of(request), "type"@) || seq_contains(lowercase_of(request), "category"@)
            || seq_contains(lowercase_of(request), "類別"@) || seq_contains(lowercase_of(request), "種類"@),
        !seq_contains(lowercase_of(request), "project"@),
        !seq_contains(lowercase_of(request), "專案"@),
        !seq_contains(lowercase_of(request), "work"@),
        !seq_contains(lowercase_of(request), "date"@),
        !seq_contains(lowercase_of(request), "year"@),
        !seq_contains(lowercase_of(request), "年度"@),
        !seq_contains(lowercase_of(request), "時間"@),
    ensures
        t.goal@ matches GoalView::Organize { purpose, .. } && purpose == "by_category"@,
{
}


/// A request to organize that mentions size (`size`, `大小`) and no project,
/// work, date, year or kind of file is organized by size.
pub proof fn law_sized_requests_are_organized_by_size(
    t: TaskIntent,
    request: Seq<char>,
    env: ScopeEnv,
    default_scope: PathView,
)
    requires
        parsed_as(t, request, GoalKind::Organize, env, default_scope),
        seq_contains(lowercase_of(request), "size"@) || seq_contains(lowercase_of(request), "大小"@),
        !seq_contains(lowercase_of(request), "project"@),
        !seq_contains(lowercase_of(request), "專案"@),
        !seq_contains(lowercase_of(request), "work"@),
        !seq_contains(lowercase_of(request), "date"@),
        !seq_contains(lowercase_of(request), "year"@),
        !seq_contains(lowercase_of(request), "年度"@),
        !seq_contains(lowercase_of(request), "時間"@),
        !seq_contains(lowercase_of(request), "type"@),
        !seq_contains(lowercase_of(request), "category"@),
        !seq_contains(lowercase_of(request), "類別"@),
        !seq_contains(lowercase_of(request), "種類"@),
    ensures
        t.goal@ matches GoalView::Organize { purpose, .. } && purpose == "by_size"@,
{
}

/// A request to organize that names work together with projects is organized
/// as work projects, unless it also names personal and entertainment files.
pub proof fn law_work_project_requests(t: TaskIntent, request: Seq<char>, env: ScopeEnv, default_scope: PathView)
    requires
        parsed_as(t, request, GoalKind::Organize, env, default_scope),
        seq_contains(lowercase_of(request), "work"@) || seq_contains(lowercase_of(request), "工作"@),
        seq_contains(lowercase_of(request), "project"@) || seq_contains(lowercase_of(request), "專案"@),
        !seq_contains(lowercase_of(request), "personal"@),
        !seq_contains(lowercase_of(request), "個人"@),
    ensures
        t.goal@ matches GoalView::Organize { purpose, .. } && purpose == "work/project"@,
{
}

/// A request to reorganize carries the same taxonomy as its strategy: by date
/// when it mentions a date or a year and no project or work.
pub proof fn law_dated_reorganization(t: TaskIntent, request: Seq<char>, env: ScopeEnv, default_scope: PathView)
    requires
        parsed_as(t, request, GoalKind::Reorganize, env, default_scope),
        seq_contains(lowercase_of(request), "date"@) || seq_contains(lowercase_of(request), "year"@) || seq_contains(
            lowercase_of(request),
            "年度"@,
        ) || seq_contains(lowercase_of(request), "時間"@),
        !seq_contains(lowercase_of(request), "project"@),
        !seq_contains(lowercase_of(request), "專案"@),
        !seq_contains(lowercase_of(request), "work"@),
    ensures
        t.goal@ matches GoalView::Reorganize { strategy, .. } && strategy == Some("by_date"@),
{
}

} // verus!

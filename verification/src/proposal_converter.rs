//! Turning an organization proposal (categories with their files) into move
//! and create-directory operations, and the items that could not be placed.
use crate::analysis::CandidateCategory;
use crate::path::{file_name_spec, join_spec, FsPath, PathView};
use crate::plan::{category_dir, ops_view, resolve_category_dir_in, FileSystemOperation, OpView, PlanError};
use crate::recommendation::{categories_view, paths_view, CategoryView, OrganizationProposal};
use crate::snapshot::{exists_in, is_file_in, is_symlink_in, FsSnapshot, FsView};
use crate::text::str_eq;
use vstd::prelude::*;

verus! {

/// Why a proposed file could not be turned into a move.
#[derive(Clone, Copy, Debug, PartialEq, Eq)]
pub enum UnresolvedReason {
    MissingFile,
    Ambiguous,
    AlreadyOrganized,
    DestinationOutsideScope,
    InvalidDestination,
    ConflictingDestination,
}

/// A proposed file that was left out of the plan, and why.
#[derive(Clone, Debug, PartialEq, Eq)]
pub struct UnresolvedItem {
    pub file: FsPath,
    pub category: String,
    pub reason: UnresolvedReason,
}

pub struct UnresolvedView {
    pub file: PathView,
    pub category: Seq<char>,
    pub reason: UnresolvedReason,
}

pub open spec fn unresolved_view(v: Seq<UnresolvedItem>) -> Seq<UnresolvedView> {
    v.map_values(|u: UnresolvedItem| UnresolvedView { file: u.file@, category: u.category@, reason: u.reason })
}

/// A copy of a list of unresolved items.
pub fn copy_unresolved(v: &Vec<UnresolvedItem>) -> (r: Vec<UnresolvedItem>)
    ensures
        unresolved_view(r@) == unresolved_view(v@),
{
    let mut r: Vec<UnresolvedItem> = Vec::new();
    let mut i: usize = 0;
    while i < v.len()
        invariant
            i <= v@.len(),
            unresolved_view(r@) == unresolved_view(v@.take(i as int)),
        decreases v@.len() - i,
    {
        let u = &v[i];
        let ghost prev = unresolved_view(r@);
        r.push(UnresolvedItem { file: u.file.copy(), category: u.category.clone(), reason: u.reason });
        assert(unresolved_view(r@) =~= prev.push(unresolved_view(v@)[i as int]));
        assert(unresolved_view(v@.take(i + 1)) =~= unresolved_view(v@.take(i as int)).push(unresolved_view(v@)[i as int]));
        i = i + 1;
    }
    assert(v@.take(v@.len() as int) =~= v@);
    r
}


// ------------------------------------------------------ scope test

/// The components of a path with each `..` taking back the component before it.
pub open spec fn resolved_stack(parts: Seq<Seq<char>>) -> Seq<Seq<char>>
    decreases parts.len(),
{
    if parts.len() == 0 {
        seq![]
    } else {
        let prev = resolved_stack(parts.drop_last());
        if parts.last() == seq!['.', '.'] {
            if prev.len() > 0 {
                prev.drop_last()
            } else {
                prev
            }
        } else {
            prev.push(parts.last())
        }
    }
}

/// The named components of a path (every component but `..`).
pub open spec fn named_parts(parts: Seq<Seq<char>>) -> Seq<Seq<char>>
    decreases parts.len(),
{
    if parts.len() == 0 {
        seq![]
    } else if parts.last() == seq!['.', '.'] {
        named_parts(parts.drop_last())
    } else {
        named_parts(parts.drop_last()).push(parts.last())
    }
}

/// The path, with its `..` components resolved, begins with the scope's named
/// components; whether either is rooted is not considered.
pub open spec fn lies_within(path: PathView, scope: PathView) -> bool {
    let ps = resolved_stack(path.parts);
    let ss = named_parts(scope.parts);
    ps.len() >= ss.len() && ps.take(ss.len() as int) == ss
}

fn resolve_stack_exec(parts: &Vec<String>) -> (r: Vec<String>)
    ensures
        r@.map_values(|s: String| s@) == resolved_stack(parts@.map_values(|s: String| s@)),
{
    let ghost pv = parts@.map_values(|s: String| s@);
    let mut st: Vec<String> = Vec::new();
    let mut i: usize = 0;
    while i < parts.len()
        invariant
            i <= parts@.len(),
            pv == parts@.map_values(|s: String| s@),
            st@.map_values(|s: String| s@) == resolved_stack(pv.take(i as int)),
        decreases parts@.len() - i,
    {
        assert(pv.take(i + 1).drop_last() =~= pv.take(i as int));
        assert(pv.take(i + 1).last() == parts@[i as int]@);
        let ghost prev = st@.map_values(|s: String| s@);
        proof {
            reveal_strlit("..");
            assert(".."@ =~= seq!['.', '.']);
        }
        if str_eq(parts[i].as_str(), "..") {
            if st.len() > 0 {
                st.pop();
                assert(st@.map_values(|s: String| s@) =~= prev.drop_last());
            }
        } else {
            st.push(parts[i].clone());
            assert(st@.map_values(|s: String| s@) =~= prev.push(parts@[i as int]@));
        }
        i = i + 1;
    }
    assert(pv.take(parts@.len() as int) =~= pv);
    st
}

fn named_parts_exec(parts: &Vec<String>) -> (r: Vec<String>)
    ensures
        r@.map_values(|s: String| s@) == named_parts(parts@.map_values(|s: String| s@)),
{
    let ghost pv = parts@.map_values(|s: String| s@);
    let mut st: Vec<String> = Vec::new();
    let mut i: usize = 0;
    while i < parts.len()
        invariant
            i <= parts@.len(),
            pv == parts@.map_values(|s: String| s@),
            st@.map_values(|s: String| s@) == named_parts(pv.take(i as int)),
        decreases parts@.len() - i,
    {
        assert(pv.take(i + 1).drop_last() =~= pv.take(i as int));
        assert(pv.take(i + 1).last() == parts@[i as int]@);
        proof {
            reveal_strlit("..");
            assert(".."@ =~= seq!['.', '.']);
        }
        if !str_eq(parts[i].as_str(), "..") {
            let ghost prev = st@.map_values(|s: String| s@);
            st.push(parts[i].clone());
            assert(st@.map_values(|s: String| s@) =~= prev.push(parts@[i as int]@));
        }
        i = i + 1;
    }
    assert(pv.take(parts@.len() as int) =~= pv);
    st
}

/// Whether `path` lies within `scope` once `..` components are resolved.
fn lies_within_exec(path: &FsPath, scope: &FsPath) -> (b: bool)
    ensures
        b == lies_within(path@, scope@),
{
    let ps = resolve_stack_exec(&path.parts);
    let ss = named_parts_exec(&scope.parts);
    let ghost pv = ps@.map_values(|s: String| s@);
    let ghost sv = ss@.map_values(|s: String| s@);
    assert(pv.len() == ps@.len() && sv.len() == ss@.len());
    if ps.len() < ss.len() {
        return false;
    }
    let mut i: usize = 0;
    while i < ss.len()
        invariant
            i <= ss@.len(),
            ss@.len() <= ps@.len(),
            pv == ps@.map_values(|s: String| s@),
            sv == ss@.map_values(|s: String| s@),
            pv == resolved_stack(path@.parts),
            sv == named_parts(scope@.parts),
            forall|k: int| 0 <= k < i ==> pv[k] == sv[k],
        decreases ss@.len() - i,
    {
        if !str_eq(ps[i].as_str(), ss[i].as_str()) {
            assert(pv.take(sv.len() as int)[i as int] != sv[i as int]);
            return false;
        }
        i = i + 1;
    }
    assert(pv.take(sv.len() as int) =~= sv);
    true
}

// ------------------------------------------------------ conversion

/// A request to move `source` into `dest_dir` under the name `filename`, on
/// behalf of the category `category`.
pub struct RequestView {
    pub source: PathView,
    pub category: Seq<char>,
    pub dest_dir: PathView,
    pub filename: PathView,
}

/// The file name of a proposed file as a one-component path, or the path
/// itself when it has no file name.
pub open spec fn filename_part(f: PathView) -> PathView {
    match file_name_spec(f) {
        Some(n) => PathView { absolute: false, parts: seq![n] },
        None => f,
    }
}

/// Where a proposed file is read from: a rooted path as it is, otherwise its
/// file name under the scope.
pub open spec fn request_source(f: PathView, scope: PathView) -> PathView {
    if f.absolute {
        f
    } else {
        join_spec(scope, filename_part(f))
    }
}

/// A proposed file as reported when its category lies outside the scope: a
/// rooted path as it is, otherwise the path under the scope.
pub open spec fn reported_source(f: PathView, scope: PathView) -> PathView {
    if f.absolute {
        f
    } else {
        join_spec(scope, f)
    }
}

/// The file at `i` does not occur earlier in the list.
pub open spec fn first_occurrence(files: Seq<PathView>, i: int) -> bool {
    forall|j: int| 0 <= j < i ==> files[j] != files[i]
}

/// The requests of one category for its first `k` files, each file once.
pub open spec fn category_requests(files: Seq<PathView>, k: int, name: Seq<char>, scope: PathView, dest_dir: PathView) -> Seq<
    RequestView,
>
    decreases k,
{
    if k <= 0 || k > files.len() {
        seq![]
    } else {
        let prev = category_requests(files, k - 1, name, scope, dest_dir);
        if first_occurrence(files, k - 1) {
            prev.push(
                RequestView {
                    source: request_source(files[k - 1], scope),
                    category: name,
                    dest_dir,
                    filename: filename_part(files[k - 1]),
                },
            )
        } else {
            prev
        }
    }
}

/// One unresolved item per file of a category whose directory lies outside the scope.
pub open spec fn outside_items(files: Seq<PathView>, name: Seq<char>, scope: PathView) -> Seq<UnresolvedView> {
    files.map_values(
        |f: PathView| UnresolvedView { file: reported_source(f, scope), category: name, reason: UnresolvedReason::DestinationOutsideScope },
    )
}

/// The move requests of all categories whose directory lies within the scope.
pub open spec fn all_requests(cats: Seq<CategoryView>, scope: PathView, cands: Seq<CandidateCategory>) -> Seq<RequestView>
    decreases cats.len(),
{
    if cats.len() == 0 {
        seq![]
    } else {
        let prev = all_requests(cats.drop_last(), scope, cands);
        let c = cats.last();
        let dir = category_dir(scope, cands, c.name);
        if lies_within(dir, scope) {
            prev + category_requests(c.source_files, c.source_files.len() as int, c.name, scope, dir)
        } else {
            prev
        }
    }
}

/// The files of the categories whose directory lies outside the scope.
pub open spec fn outside_unresolved(cats: Seq<CategoryView>, scope: PathView, cands: Seq<CandidateCategory>) -> Seq<
    UnresolvedView,
>
    decreases cats.len(),
{
    if cats.len() == 0 {
        seq![]
    } else {
        let prev = outside_unresolved(cats.drop_last(), scope, cands);
        let c = cats.last();
        let dir = category_dir(scope, cands, c.name);
        if lies_within(dir, scope) {
            prev
        } else {
            prev + outside_items(c.source_files, c.name, scope)
        }
    }
}

/// Conversion state: operations and unresolved items so far, destinations
/// taken, and directories already created.
#[verifier::ext_equal]
pub struct ConvState {
    pub ops: Seq<OpView>,
    pub unresolved: Seq<UnresolvedView>,
    pub dests: Seq<PathView>,
    pub created: Seq<PathView>,
}

/// No earlier request has the same source.
pub open spec fn first_request(reqs: Seq<RequestView>, k: int) -> bool {
    forall|j: int| 0 <= j < k ==> reqs[j].source != reqs[k].source
}

/// Another category also requests the source of request `k`.
pub open spec fn contested(reqs: Seq<RequestView>, k: int) -> bool {
    exists|j: int| 0 <= j < reqs.len() && reqs[j].source == reqs[k].source && reqs[j].category != reqs[k].category
}

/// An ambiguity item for each of the first `m` requests for `src`.
pub open spec fn ambiguity_items(reqs: Seq<RequestView>, src: PathView, m: int) -> Seq<UnresolvedView>
    decreases m,
{
    if m <= 0 || m > reqs.len() {
        seq![]
    } else {
        let prev = ambiguity_items(reqs, src, m - 1);
        if reqs[m - 1].source == src {
            prev.push(UnresolvedView { file: src, category: reqs[m - 1].category, reason: UnresolvedReason::Ambiguous })
        } else {
            prev
        }
    }
}

/// Handles request `k` when it is the first for its source: a contested
/// source is ambiguous for every request; a missing source, a source already
/// at its destination, a destination already holding a file (or a link) on
/// disk, or a destination already taken by another move is unresolved;
/// otherwise the destination directory is created when neither created nor
/// present, and the move is added.
pub open spec fn convert_step(st: ConvState, reqs: Seq<RequestView>, k: int, fs: FsView) -> ConvState {
    let r = reqs[k];
    let src = r.source;
    let item = |reason: UnresolvedReason| UnresolvedView { file: src, category: r.category, reason };
    if !first_request(reqs, k) {
        st
    } else if contested(reqs, k) {
        ConvState { unresolved: st.unresolved + ambiguity_items(reqs, src, reqs.len() as int), ..st }
    } else if !exists_in(fs, src) {
        ConvState { unresolved: st.unresolved.push(item(UnresolvedReason::MissingFile)), ..st }
    } else {
        let dest = join_spec(r.dest_dir, r.filename);
        if src == dest {
            ConvState { unresolved: st.unresolved.push(item(UnresolvedReason::AlreadyOrganized)), ..st }
        } else if is_file_in(fs, dest) || is_symlink_in(fs, dest) {
            ConvState { unresolved: st.unresolved.push(item(UnresolvedReason::ConflictingDestination)), ..st }
        } else if st.dests.contains(dest) {
            ConvState { unresolved: st.unresolved.push(item(UnresolvedReason::InvalidDestination)), ..st }
        } else {
            let mkdir = !st.created.contains(r.dest_dir) && !exists_in(fs, r.dest_dir);
            let ops1 = if mkdir {
                st.ops.push(OpView::CreateDir { path: r.dest_dir })
            } else {
                st.ops
            };
            ConvState {
                ops: ops1.push(OpView::Move { source: src, dest }),
                unresolved: st.unresolved,
                dests: st.dests.push(dest),
                created: if mkdir {
                    st.created.push(r.dest_dir)
                } else {
                    st.created
                },
            }
        }
    }
}

/// The state after handling the first `k` requests.
pub open spec fn convert_fold(init: ConvState, reqs: Seq<RequestView>, k: int, fs: FsView) -> ConvState
    decreases k,
{
    if k <= 0 || k > reqs.len() {
        init
    } else {
        convert_step(convert_fold(init, reqs, k - 1, fs), reqs, k - 1, fs)
    }
}

/// The operations and unresolved items for a proposal: the files of
/// categories outside the scope come first among the unresolved items; the
/// requests are then handled in the order of the categories and their files.
pub open spec fn convert_spec(cats: Seq<CategoryView>, scope: PathView, cands: Seq<CandidateCategory>, fs: FsView) -> (
    Seq<OpView>,
    Seq<UnresolvedView>,
) {
    let reqs = all_requests(cats, scope, cands);
    let init = ConvState {
        ops: seq![],
        unresolved: outside_unresolved(cats, scope, cands),
        dests: seq![],
        created: seq![],
    };
    let st = convert_fold(init, reqs, reqs.len() as int, fs);
    (st.ops, st.unresolved)
}

struct FileRequest {
    source: FsPath,
    category: String,
    dest_dir: FsPath,
    filename: FsPath,
}

impl View for FileRequest {
    type V = RequestView;

    closed spec fn view(&self) -> RequestView {
        RequestView {
            source: self.source@,
            category: self.category@,
            dest_dir: self.dest_dir@,
            filename: self.filename@,
        }
    }
}

spec fn requests_view(v: Seq<FileRequest>) -> Seq<RequestView> {
    v.map_values(|r: FileRequest| r@)
}

fn filename_part_exec(f: &FsPath) -> (r: FsPath)
    ensures
        r@ == filename_part(f@),
{
    match f.file_name() {
        Some(n) => {
            let r = FsPath { absolute: false, parts: vec![n] };
            assert(r@.parts =~= seq![n@]);
            r
        },
        None => f.copy(),
    }
}

/// Whether the file at `i` occurs earlier in the list.
fn seen_earlier(files: &Vec<FsPath>, i: usize) -> (b: bool)
    requires
        i < files@.len(),
    ensures
        b == !first_occurrence(paths_view(files@), i as int),
{
    let ghost fv = paths_view(files@);
    let mut j: usize = 0;
    while j < i
        invariant
            i < files@.len(),
            fv == paths_view(files@),
            j <= i,
            forall|k: int| 0 <= k < j ==> fv[k] != fv[i as int],
        decreases i - j,
    {
        if files[j].same_as(&files[i]) {
            assert(fv[j as int] == fv[i as int]);
            return true;
        }
        j = j + 1;
    }
    false
}

fn contains_path(v: &Vec<FsPath>, p: &FsPath) -> (b: bool)
    ensures
        b == paths_view(v@).contains(p@),
{
    let ghost pv = paths_view(v@);
    let mut i: usize = 0;
    while i < v.len()
        invariant
            i <= v@.len(),
            pv == paths_view(v@),
            forall|k: int| 0 <= k < i ==> pv[k] != p@,
        decreases v@.len() - i,
    {
        if v[i].same_as(p) {
            assert(pv[i as int] == p@);
            return true;
        }
        i = i + 1;
    }
    false
}

/// Turns proposals into filesystem operations.
pub struct ProposalConverter;

impl ProposalConverter {
    fn collect_requests(
        cats: &Vec<crate::recommendation::ProposedCategory>,
        candidates: &Vec<CandidateCategory>,
        scope: &FsPath,
        unresolved: &mut Vec<UnresolvedItem>,
    ) -> (r: Vec<FileRequest>)
        ensures
            requests_view(r@) == all_requests(categories_view(cats@), scope@, candidates@),
            unresolved_view(final(unresolved)@) == unresolved_view(old(unresolved)@) + outside_unresolved(
                categories_view(cats@),
                scope@,
                candidates@,
            ),
    {
        let ghost cv = categories_view(cats@);
        let ghost u0 = unresolved_view(unresolved@);
        let mut reqs: Vec<FileRequest> = Vec::new();
        let mut c: usize = 0;
        while c < cats.len()
            invariant
                c <= cats@.len(),
                cv == categories_view(cats@),
                requests_view(reqs@) == all_requests(cv.take(c as int), scope@, candidates@),
                unresolved_view(unresolved@) == u0 + outside_unresolved(cv.take(c as int), scope@, candidates@),
            decreases cats@.len() - c,
        {
            assert(cv.take(c + 1).drop_last() =~= cv.take(c as int));
            assert(cv.take(c + 1).last() == cats@[c as int]@);
            let cat = &cats[c];
            let files = &cat.source_files;
            let ghost fv = paths_view(files@);
            let dir = resolve_category_dir_in(scope, candidates, cat.name.as_str());
            if lies_within_exec(&dir, scope) {
                let ghost base = requests_view(reqs@);
                let mut i: usize = 0;
                while i < files.len()
                    invariant
                        i <= files@.len(),
                        fv == paths_view(files@),
                        fv == cv[c as int].source_files,
                        dir@ == category_dir(scope@, candidates@, cv[c as int].name),
                        cat.name@ == cv[c as int].name,
                        requests_view(reqs@) == base + category_requests(fv, i as int, cat.name@, scope@, dir@),
                    decreases files@.len() - i,
                {
                    if !seen_earlier(files, i) {
                        let f = &files[i];
                        let fname = filename_part_exec(f);
                        let source = if f.absolute {
                            f.copy()
                        } else {
                            scope.join(&fname)
                        };
                        let req = FileRequest { source, category: cat.name.clone(), dest_dir: dir.copy(), filename: fname };
                        let ghost prev = requests_view(reqs@);
                        reqs.push(req);
                        assert(requests_view(reqs@) =~= prev.push(req@));
                    }
                    i = i + 1;
                }
                assert(all_requests(cv.take(c + 1), scope@, candidates@) =~= base + category_requests(
                    fv,
                    fv.len() as int,
                    cat.name@,
                    scope@,
                    dir@,
                ));
            } else {
                let ghost base = unresolved_view(unresolved@);
                let mut i: usize = 0;
                while i < files.len()
                    invariant
                        i <= files@.len(),
                        fv == paths_view(files@),
                        unresolved_view(unresolved@) == base + outside_items(fv.take(i as int), cat.name@, scope@),
                    decreases files@.len() - i,
                {
                    let f = &files[i];
                    let file = if f.absolute {
                        f.copy()
                    } else {
                        scope.join(f)
                    };
                    let item = UnresolvedItem {
                        file,
                        category: cat.name.clone(),
                        reason: UnresolvedReason::DestinationOutsideScope,
                    };
                    let ghost prev = unresolved_view(unresolved@);
                    unresolved.push(item);
                    assert(unresolved_view(unresolved@) =~= prev.push(
                        UnresolvedView { file: item.file@, category: item.category@, reason: item.reason },
                    ));
                    assert(outside_items(fv.take(i + 1), cat.name@, scope@) =~= outside_items(
                        fv.take(i as int),
                        cat.name@,
                        scope@,
                    ).push(UnresolvedView { file: item.file@, category: item.category@, reason: item.reason }));
                    i = i + 1;
                }
                assert(fv.take(files@.len() as int) =~= fv);
                assert(u0 + outside_unresolved(cv.take(c + 1), scope@, candidates@) =~= base + outside_items(
                    fv,
                    cat.name@,
                    scope@,
                ));
            }
            c = c + 1;
        }
        assert(cv.take(cats@.len() as int) =~= cv);
        reqs
    }
}


fn is_first_request(reqs: &Vec<FileRequest>, k: usize) -> (b: bool)
    requires
        k < reqs@.len(),
    ensures
        b == first_request(requests_view(reqs@), k as int),
{
    let ghost rv = requests_view(reqs@);
    let mut j: usize = 0;
    while j < k
        invariant
            k < reqs@.len(),
            rv == requests_view(reqs@),
            j <= k,
            forall|i: int| 0 <= i < j ==> rv[i].source != rv[k as int].source,
        decreases k - j,
    {
        if reqs[j].source.same_as(&reqs[k].source) {
            assert(rv[j as int].source == rv[k as int].source);
            return false;
        }
        j = j + 1;
    }
    true
}

fn is_contested(reqs: &Vec<FileRequest>, k: usize) -> (b: bool)
    requires
        k < reqs@.len(),
    ensures
        b == contested(requests_view(reqs@), k as int),
{
    let ghost rv = requests_view(reqs@);
    let mut j: usize = 0;
    while j < reqs.len()
        invariant
            k < reqs@.len(),
            rv == requests_view(reqs@),
            j <= reqs@.len(),
            forall|i: int| 0 <= i < j ==> !(rv[i].source == rv[k as int].source && rv[i].category != rv[k as int].category),
        decreases reqs@.len() - j,
    {
        if reqs[j].source.same_as(&reqs[k].source) && !str_eq(reqs[j].category.as_str(), reqs[k].category.as_str()) {
            assert(rv[j as int].source == rv[k as int].source && rv[j as int].category != rv[k as int].category);
            return true;
        }
        j = j + 1;
    }
    false
}

fn push_ambiguities(reqs: &Vec<FileRequest>, k: usize, unresolved: &mut Vec<UnresolvedItem>)
    requires
        k < reqs@.len(),
    ensures
        unresolved_view(final(unresolved)@) == unresolved_view(old(unresolved)@) + ambiguity_items(
            requests_view(reqs@),
            requests_view(reqs@)[k as int].source,
            reqs@.len() as int,
        ),
{
    let ghost rv = requests_view(reqs@);
    let ghost base = unresolved_view(unresolved@);
    let ghost src = rv[k as int].source;
    let mut j: usize = 0;
    while j < reqs.len()
        invariant
            k < reqs@.len(),
            rv == requests_view(reqs@),
            src == rv[k as int].source,
            j <= reqs@.len(),
            unresolved_view(unresolved@) == base + ambiguity_items(rv, src, j as int),
        decreases reqs@.len() - j,
    {
        if reqs[j].source.same_as(&reqs[k].source) {
            let item = UnresolvedItem {
                file: reqs[k].source.copy(),
                category: reqs[j].category.clone(),
                reason: UnresolvedReason::Ambiguous,
            };
            let ghost prev = unresolved_view(unresolved@);
            unresolved.push(item);
            assert(unresolved_view(unresolved@) =~= prev.push(
                UnresolvedView { file: src, category: rv[j as int].category, reason: UnresolvedReason::Ambiguous },
            ));
        }
        j = j + 1;
    }
}

pub open spec fn conv_state_of(
    ops: Seq<FileSystemOperation>,
    unresolved: Seq<UnresolvedItem>,
    dests: Seq<FsPath>,
    created: Seq<FsPath>,
) -> ConvState {
    ConvState {
        ops: ops_view(ops),
        unresolved: unresolved_view(unresolved),
        dests: paths_view(dests),
        created: paths_view(created),
    }
}

impl ProposalConverter {
    /// The operations and unresolved items for a proposal, as `convert_spec`
    /// describes them; a conversion always succeeds.
    pub fn convert(
        &self,
        proposal: &OrganizationProposal,
        candidates: &Vec<CandidateCategory>,
        scope: &FsPath,
        fs: &FsSnapshot,
    ) -> (r: Result<(Vec<FileSystemOperation>, Vec<UnresolvedItem>), PlanError>)
        ensures
            r is Ok,
            (ops_view(r->Ok_0.0@), unresolved_view(r->Ok_0.1@)) == convert_spec(
                categories_view(proposal.proposed_categories@),
                scope@,
                candidates@,
                fs@,
            ),
    {
        let mut unresolved: Vec<UnresolvedItem> = Vec::new();
        let reqs = Self::collect_requests(&proposal.proposed_categories, candidates, scope, &mut unresolved);
        let ghost cv = categories_view(proposal.proposed_categories@);
        assert(unresolved_view(unresolved@) =~= outside_unresolved(cv, scope@, candidates@));
        let ghost rv = requests_view(reqs@);
        let ghost init = conv_state_of(seq![], unresolved@, seq![], seq![]);
        assert(ops_view(Seq::<FileSystemOperation>::empty()) =~= Seq::<OpView>::empty());
        assert(paths_view(Seq::<FsPath>::empty()) =~= Seq::<PathView>::empty());
        assert(init == ConvState {
            ops: seq![],
            unresolved: outside_unresolved(cv, scope@, candidates@),
            dests: seq![],
            created: seq![],
        });
        let mut ops: Vec<FileSystemOperation> = Vec::new();
        let mut dests: Vec<FsPath> = Vec::new();
        let mut created: Vec<FsPath> = Vec::new();
        assert(conv_state_of(ops@, unresolved@, dests@, created@) =~= init);
        let mut k: usize = 0;
        while k < reqs.len()
            invariant
                k <= reqs@.len(),
                rv == requests_view(reqs@),
                conv_state_of(ops@, unresolved@, dests@, created@) == convert_fold(init, rv, k as int, fs@),
            decreases reqs@.len() - k,
        {
            let ghost st = conv_state_of(ops@, unresolved@, dests@, created@);
            let r = &reqs[k];
            assert(rv[k as int] == r@);
            if is_first_request(&reqs, k) {
                if is_contested(&reqs, k) {
                    push_ambiguities(&reqs, k, &mut unresolved);
                    assert(conv_state_of(ops@, unresolved@, dests@, created@) =~= convert_step(st, rv, k as int, fs@));
                } else if !fs.is_present(&r.source) {
                    let ghost prev = unresolved_view(unresolved@);
                    unresolved.push(
                        UnresolvedItem {
                            file: r.source.copy(),
                            category: r.category.clone(),
                            reason: UnresolvedReason::MissingFile,
                        },
                    );
                    assert(unresolved_view(unresolved@) =~= prev.push(
                        UnresolvedView { file: r.source@, category: r.category@, reason: UnresolvedReason::MissingFile },
                    ));
                    assert(conv_state_of(ops@, unresolved@, dests@, created@) =~= convert_step(st, rv, k as int, fs@));
                } else {
                    let dest = r.dest_dir.join(&r.filename);
                    if r.source.same_as(&dest) {
                        let ghost prev = unresolved_view(unresolved@);
                        unresolved.push(
                            UnresolvedItem {
                                file: r.source.copy(),
                                category: r.category.clone(),
                                reason: UnresolvedReason::AlreadyOrganized,
                            },
                        );
                        assert(unresolved_view(unresolved@) =~= prev.push(
                            UnresolvedView {
                                file: r.source@,
                                category: r.category@,
                                reason: UnresolvedReason::AlreadyOrganized,
                            },
                        ));
                        assert(conv_state_of(ops@, unresolved@, dests@, created@) =~= convert_step(st, rv, k as int, fs@));
                    } else if fs.is_file(&dest) || fs.is_symlink(&dest) {
                        let ghost prev = unresolved_view(unresolved@);
                        unresolved.push(
                            UnresolvedItem {
                                file: r.source.copy(),
                                category: r.category.clone(),
                                reason: UnresolvedReason::ConflictingDestination,
                            },
                        );
                        assert(unresolved_view(unresolved@) =~= prev.push(
                            UnresolvedView {
                                file: r.source@,
                                category: r.category@,
                                reason: UnresolvedReason::ConflictingDestination,
                            },
                        ));
                        assert(conv_state_of(ops@, unresolved@, dests@, created@) =~= convert_step(st, rv, k as int, fs@));
                    } else if contains_path(&dests, &dest) {
                        let ghost prev = unresolved_view(unresolved@);
                        unresolved.push(
                            UnresolvedItem {
                                file: r.source.copy(),
                                category: r.category.clone(),
                                reason: UnresolvedReason::InvalidDestination,
                            },
                        );
                        assert(unresolved_view(unresolved@) =~= prev.push(
                            UnresolvedView {
                                file: r.source@,
                                category: r.category@,
                                reason: UnresolvedReason::InvalidDestination,
                            },
                        ));
                        assert(conv_state_of(ops@, unresolved@, dests@, created@) =~= convert_step(st, rv, k as int, fs@));
                    } else {
                        let ghost d0 = paths_view(dests@);
                        dests.push(dest.copy());
                        assert(paths_view(dests@) =~= d0.push(dest@));
                        let mkdir = !contains_path(&created, &r.dest_dir) && !fs.is_present(&r.dest_dir);
                        if mkdir {
                            let ghost o0 = ops_view(ops@);
                            let ghost c0 = paths_view(created@);
                            ops.push(FileSystemOperation::CreateDir { path: r.dest_dir.copy() });
                            created.push(r.dest_dir.copy());
                            assert(ops_view(ops@) =~= o0.push(OpView::CreateDir { path: r.dest_dir@ }));
                            assert(paths_view(created@) =~= c0.push(r.dest_dir@));
                        }
                        let ghost o1 = ops_view(ops@);
                        ops.push(FileSystemOperation::Move { source: r.source.copy(), dest });
                        assert(ops_view(ops@) =~= o1.push(OpView::Move { source: r.source@, dest: dest@ }));
                        assert(conv_state_of(ops@, unresolved@, dests@, created@) =~= convert_step(st, rv, k as int, fs@));
                    }
                }
            } else {
                assert(conv_state_of(ops@, unresolved@, dests@, created@) =~= convert_step(st, rv, k as int, fs@));
            }
            k = k + 1;
        }
        Ok((ops, unresolved))
    }
}


// ------------------------------------------------------ what conversion keeps

pub open spec fn move_dest_of(op: OpView) -> Option<PathView> {
    match op {
        OpView::Move { dest, .. } => Some(dest),
        _ => None,
    }
}

pub open spec fn move_source_of(op: OpView) -> Option<PathView> {
    match op {
        OpView::Move { source, .. } => Some(source),
        _ => None,
    }
}

pub open spec fn created_dir_of(op: OpView) -> Option<PathView> {
    match op {
        OpView::CreateDir { path } => Some(path),
        _ => None,
    }
}

/// No two moves write the same destination or read the same source, no move
/// reads its own destination, and no directory is created twice.
pub open spec fn conversion_well_formed(ops: Seq<OpView>) -> bool {
    &&& forall|i: int, j: int|
        #![trigger ops[i], ops[j]]
        0 <= i < j < ops.len() && move_dest_of(ops[i]) is Some ==> move_dest_of(ops[i]) != move_dest_of(ops[j])
    &&& forall|i: int, j: int|
        #![trigger ops[i], ops[j]]
        0 <= i < j < ops.len() && move_source_of(ops[i]) is Some ==> move_source_of(ops[i]) != move_source_of(ops[j])
    &&& forall|i: int, j: int|
        #![trigger ops[i], ops[j]]
        0 <= i < j < ops.len() && created_dir_of(ops[i]) is Some ==> created_dir_of(ops[i]) != created_dir_of(ops[j])
    &&& forall|i: int| 0 <= i < ops.len() ==> (#[trigger] ops[i] matches OpView::Move { source, dest } ==> source != dest)
}

spec fn conv_inv(st: ConvState, reqs: Seq<RequestView>, k: int) -> bool {
    &&& conversion_well_formed(st.ops)
    &&& forall|i: int|
        0 <= i < st.ops.len() && move_dest_of(#[trigger] st.ops[i]) is Some ==> st.dests.contains(
            move_dest_of(st.ops[i])->0,
        )
    &&& forall|i: int|
        0 <= i < st.ops.len() && created_dir_of(#[trigger] st.ops[i]) is Some ==> st.created.contains(
            created_dir_of(st.ops[i])->0,
        )
    &&& forall|i: int|
        0 <= i < st.ops.len() && move_source_of(#[trigger] st.ops[i]) is Some ==> exists|j: int|
            0 <= j < k && (#[trigger] reqs[j]).source == move_source_of(st.ops[i])->0
}

proof fn lemma_conv_step_inv(st: ConvState, reqs: Seq<RequestView>, k: int, fs: FsView)
    requires
        conv_inv(st, reqs, k),
        0 <= k < reqs.len(),
    ensures
        conv_inv(convert_step(st, reqs, k, fs), reqs, k + 1),
{
    let r = reqs[k];
    let src = r.source;
    let next = convert_step(st, reqs, k, fs);
    assert forall|i: int|
        0 <= i < st.ops.len() && move_source_of(#[trigger] st.ops[i]) is Some implies exists|j: int|
            0 <= j < k + 1 && (#[trigger] reqs[j]).source == move_source_of(st.ops[i])->0 by {
        let j = choose|j: int| 0 <= j < k && (#[trigger] reqs[j]).source == move_source_of(st.ops[i])->0;
        assert(reqs[j].source == move_source_of(st.ops[i])->0);
    }
    if first_request(reqs, k) && !contested(reqs, k) && exists_in(fs, src) {
        let dest = join_spec(r.dest_dir, r.filename);
        if src != dest && !(is_file_in(fs, dest) || is_symlink_in(fs, dest)) && !st.dests.contains(dest) {
            let mkdir = !st.created.contains(r.dest_dir) && !exists_in(fs, r.dest_dir);
            let ops1 = if mkdir {
                st.ops.push(OpView::CreateDir { path: r.dest_dir })
            } else {
                st.ops
            };
            let mv = OpView::Move { source: src, dest };
            assert(next.ops == ops1.push(mv));
            assert forall|i: int| 0 <= i < st.ops.len() && move_source_of(#[trigger] st.ops[i]) is Some implies move_source_of(
                st.ops[i],
            ) != Some(src) by {
                let j = choose|j: int| 0 <= j < k && (#[trigger] reqs[j]).source == move_source_of(st.ops[i])->0;
                assert(reqs[j].source != reqs[k].source);
            }
            assert forall|i: int| 0 <= i < ops1.len() implies move_dest_of(#[trigger] ops1[i]) != Some(dest)
                && move_source_of(ops1[i]) != Some(src) by {
                if i < st.ops.len() {
                    assert(ops1[i] == st.ops[i]);
                }
            }
            assert forall|i: int| 0 <= i < st.ops.len() && created_dir_of(#[trigger] st.ops[i]) is Some implies created_dir_of(
                st.ops[i],
            ) != Some(r.dest_dir) || !mkdir by {}
            assert(conversion_well_formed(ops1));
            assert(conversion_well_formed(next.ops)) by {
                let o = next.ops;
                assert forall|i: int, j: int|
                    #![trigger o[i], o[j]]
                    0 <= i < j < o.len() && move_dest_of(o[i]) is Some implies move_dest_of(o[i]) != move_dest_of(
                        o[j],
                    ) by {
                    if j == o.len() - 1 {
                        assert(o[i] == ops1[i]);
                    } else {
                        assert(o[i] == ops1[i] && o[j] == ops1[j]);
                    }
                }
                assert forall|i: int, j: int|
                    #![trigger o[i], o[j]]
                    0 <= i < j < o.len() && move_source_of(o[i]) is Some implies move_source_of(o[i])
                        != move_source_of(o[j]) by {
                    if j == o.len() - 1 {
                        assert(o[i] == ops1[i]);
                    } else {
                        assert(o[i] == ops1[i] && o[j] == ops1[j]);
                    }
                }
                assert forall|i: int, j: int|
                    #![trigger o[i], o[j]]
                    0 <= i < j < o.len() && created_dir_of(o[i]) is Some implies created_dir_of(o[i])
                        != created_dir_of(o[j]) by {
                    if j < o.len() - 1 {
                        assert(o[i] == ops1[i] && o[j] == ops1[j]);
                    }
                }
                assert forall|i: int| 0 <= i < o.len() implies (#[trigger] o[i] matches OpView::Move { source, dest } ==> source
                    != dest) by {
                    if i < o.len() - 1 {
                        assert(o[i] == ops1[i]);
                    }
                }
            }
            assert forall|i: int|
                0 <= i < next.ops.len() && move_dest_of(#[trigger] next.ops[i]) is Some implies next.dests.contains(
                    move_dest_of(next.ops[i])->0,
                ) by {
                if i < next.ops.len() - 1 {
                    assert(next.ops[i] == ops1[i]);
                    if i < st.ops.len() {
                        assert(ops1[i] == st.ops[i]);
                        let w = choose|w: int| 0 <= w < st.dests.len() && st.dests[w] == move_dest_of(st.ops[i])->0;
                        assert(next.dests[w] == st.dests[w]);
                    }
                } else {
                    assert(next.dests[st.dests.len() as int] == dest);
                }
            }
            assert forall|i: int|
                0 <= i < next.ops.len() && created_dir_of(#[trigger] next.ops[i]) is Some implies next.created.contains(
                    created_dir_of(next.ops[i])->0,
                ) by {
                assert(next.ops[i] == ops1.push(mv)[i]);
                if i < st.ops.len() {
                    assert(ops1[i] == st.ops[i]);
                    let w = choose|w: int| 0 <= w < st.created.len() && st.created[w] == created_dir_of(st.ops[i])->0;
                    assert(next.created[w] == st.created[w]);
                } else if i < next.ops.len() - 1 {
                    assert(mkdir);
                    assert(next.created[st.created.len() as int] == r.dest_dir);
                }
            }
            assert forall|i: int|
                0 <= i < next.ops.len() && move_source_of(#[trigger] next.ops[i]) is Some implies exists|j: int|
                    0 <= j < k + 1 && (#[trigger] reqs[j]).source == move_source_of(next.ops[i])->0 by {
                if i < st.ops.len() {
                    assert(next.ops[i] == st.ops[i]);
                    let j = choose|j: int| 0 <= j < k && (#[trigger] reqs[j]).source == move_source_of(st.ops[i])->0;
                    assert(reqs[j].source == move_source_of(next.ops[i])->0);
                } else if i == next.ops.len() - 1 {
                    assert(reqs[k].source == move_source_of(next.ops[i])->0);
                } else {
                    assert(next.ops[i] == ops1[i]);
                }
            }
        }
    }
}

proof fn lemma_conv_fold_inv(init: ConvState, reqs: Seq<RequestView>, k: int, fs: FsView)
    requires
        conv_inv(init, reqs, 0),
        0 <= k <= reqs.len(),
    ensures
        conv_inv(convert_fold(init, reqs, k, fs), reqs, k),
    decreases k,
{
    if k > 0 {
        lemma_conv_fold_inv(init, reqs, k - 1, fs);
        lemma_conv_step_inv(convert_fold(init, reqs, k - 1, fs), reqs, k - 1, fs);
    }
}

/// The operations a proposal converts to never collide: no two moves write the
/// same destination or read the same file, no move reads its own destination,
/// and no directory is created twice.
pub proof fn law_conversion_never_collides(
    cats: Seq<CategoryView>,
    scope: PathView,
    cands: Seq<CandidateCategory>,
    fs: FsView,
)
    ensures
        conversion_well_formed(convert_spec(cats, scope, cands, fs).0),
{
    let reqs = all_requests(cats, scope, cands);
    let init = ConvState {
        ops: seq![],
        unresolved: outside_unresolved(cats, scope, cands),
        dests: seq![],
        created: seq![],
    };
    lemma_conv_fold_inv(init, reqs, reqs.len() as int, fs);
}

} // verus!

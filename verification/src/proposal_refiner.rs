//! Edits to an organization proposal: renaming, removing and adding
//! categories, and moving a file from one category to another. Each edit
//! returns a revised proposal and leaves the original untouched.
use crate::path::{display_spec, file_name_spec, FsPath, PathView};
use crate::recommendation::{
    categories_view, CategoryView, OrganizationProposal, ProposalView, ProposedCategory, paths_view,
};
use crate::text::{cat, cat3, owned, str_eq};
use vstd::prelude::*;

verus! {

/// Why an edit was refused.
#[derive(Clone, Debug, PartialEq, Eq)]
pub enum ProposalRefinementError {
    CategoryNotFound(String),
    CategoryAlreadyExists(String),
    FileNotFound(String),
    FileAlreadyInCategory { file: FsPath, category: String },
}

pub enum RefinementErrorView {
    CategoryNotFound(Seq<char>),
    CategoryAlreadyExists(Seq<char>),
    FileNotFound(Seq<char>),
    FileAlreadyInCategory { file: PathView, category: Seq<char> },
}

impl View for ProposalRefinementError {
    type V = RefinementErrorView;

    open spec fn view(&self) -> RefinementErrorView {
        match self {
            ProposalRefinementError::CategoryNotFound(n) => RefinementErrorView::CategoryNotFound(n@),
            ProposalRefinementError::CategoryAlreadyExists(n) => RefinementErrorView::CategoryAlreadyExists(n@),
            ProposalRefinementError::FileNotFound(f) => RefinementErrorView::FileNotFound(f@),
            ProposalRefinementError::FileAlreadyInCategory { file, category } => RefinementErrorView::FileAlreadyInCategory {
                file: file@,
                category: category@,
            },
        }
    }
}

pub open spec fn refinement_error_message(e: RefinementErrorView) -> Seq<char> {
    match e {
        RefinementErrorView::CategoryNotFound(n) => "Category not found: "@ + n,
        RefinementErrorView::CategoryAlreadyExists(n) => "Category already exists: "@ + n,
        RefinementErrorView::FileNotFound(f) => "File not found in proposal: "@ + f,
        RefinementErrorView::FileAlreadyInCategory { file, category } => "File "@ + display_spec(file)
            + " is already in category "@ + category,
    }
}

impl ProposalRefinementError {
    /// The message shown for this error.
    pub fn message(&self) -> (r: String)
        ensures
            r@ == refinement_error_message(self@),
    {
        match self {
            ProposalRefinementError::CategoryNotFound(n) => cat("Category not found: ", n.as_str()),
            ProposalRefinementError::CategoryAlreadyExists(n) => cat("Category already exists: ", n.as_str()),
            ProposalRefinementError::FileNotFound(f) => cat("File not found in proposal: ", f.as_str()),
            ProposalRefinementError::FileAlreadyInCategory { file, category } => {
                let a = cat3("File ", file.display().as_str(), " is already in category ");
                cat(a.as_str(), category.as_str())
            },
        }
    }
}

/// One edit to a proposal.
#[derive(Clone, Debug, PartialEq, Eq)]
pub enum ProposalRefinement {
    RenameCategory { from: String, to: String },
    RemoveCategory { name: String },
    AddCategory { name: String, purpose: String },
    MoveFileToCategory { file: FsPath, category: String },
}

pub enum RefinementView {
    RenameCategory { from: Seq<char>, to: Seq<char> },
    RemoveCategory { name: Seq<char> },
    AddCategory { name: Seq<char>, purpose: Seq<char> },
    MoveFileToCategory { file: PathView, category: Seq<char> },
}

impl View for ProposalRefinement {
    type V = RefinementView;

    open spec fn view(&self) -> RefinementView {
        match self {
            ProposalRefinement::RenameCategory { from, to } => RefinementView::RenameCategory { from: from@, to: to@ },
            ProposalRefinement::RemoveCategory { name } => RefinementView::RemoveCategory { name: name@ },
            ProposalRefinement::AddCategory { name, purpose } => RefinementView::AddCategory {
                name: name@,
                purpose: purpose@,
            },
            ProposalRefinement::MoveFileToCategory { file, category } => RefinementView::MoveFileToCategory {
                file: file@,
                category: category@,
            },
        }
    }
}

/// Some category has the name.
pub open spec fn has_category(cs: Seq<CategoryView>, name: Seq<char>) -> bool {
    exists|i: int| 0 <= i < cs.len() && (#[trigger] cs[i]).name == name
}

/// The categories with every one named `from` renamed to `to`.
pub open spec fn renamed(cs: Seq<CategoryView>, from: Seq<char>, to: Seq<char>) -> Seq<CategoryView> {
    cs.map_values(|c: CategoryView| if c.name == from { CategoryView { name: to, ..c } } else { c })
}

/// The categories without those named `name`, order kept.
pub open spec fn without_named(cs: Seq<CategoryView>, name: Seq<char>) -> Seq<CategoryView>
    decreases cs.len(),
{
    if cs.len() == 0 {
        seq![]
    } else if cs.last().name == name {
        without_named(cs.drop_last(), name)
    } else {
        without_named(cs.drop_last(), name).push(cs.last())
    }
}

/// A new, empty category.
pub open spec fn fresh_category(name: Seq<char>, purpose: Seq<char>) -> CategoryView {
    CategoryView {
        name,
        purpose,
        target_content_types: seq![],
        confidence_bits: 0,
        is_existing: false,
        target_path: None,
        source_files: seq![],
    }
}

/// The first of `files` whose file name is `fname`.
pub open spec fn first_file_named(files: Seq<PathView>, fname: Seq<char>) -> Option<int>
    decreases files.len(),
{
    if files.len() == 0 {
        None
    } else if file_name_spec(files[0]) == Some(fname) {
        Some(0)
    } else {
        match first_file_named(files.subrange(1, files.len() as int), fname) {
            Some(k) => Some(k + 1),
            None => None,
        }
    }
}

/// The first category holding a file named `fname`.
pub open spec fn first_holder(cs: Seq<CategoryView>, fname: Seq<char>) -> Option<int>
    decreases cs.len(),
{
    if cs.len() == 0 {
        None
    } else if first_file_named(cs[0].source_files, fname) is Some {
        Some(0)
    } else {
        match first_holder(cs.subrange(1, cs.len() as int), fname) {
            Some(k) => Some(k + 1),
            None => None,
        }
    }
}

/// The first category named `name`.
pub open spec fn first_named(cs: Seq<CategoryView>, name: Seq<char>) -> Option<int>
    decreases cs.len(),
{
    if cs.len() == 0 {
        None
    } else if cs[0].name == name {
        Some(0)
    } else {
        match first_named(cs.subrange(1, cs.len() as int), name) {
            Some(k) => Some(k + 1),
            None => None,
        }
    }
}

/// `files` without those whose file name is `fname`, order kept.
pub open spec fn files_without(files: Seq<PathView>, fname: Seq<char>) -> Seq<PathView>
    decreases files.len(),
{
    if files.len() == 0 {
        seq![]
    } else if file_name_spec(files.last()) == Some(fname) {
        files_without(files.drop_last(), fname)
    } else {
        files_without(files.drop_last(), fname).push(files.last())
    }
}

/// The categories after moving the file named `fname` from category `s` to
/// category `t`: every file of that name leaves `s`, and the first of them is
/// appended to `t`.
pub open spec fn moved_between(cs: Seq<CategoryView>, s: int, t: int, fname: Seq<char>) -> Seq<CategoryView> {
    let moved = cs[s].source_files[first_file_named(cs[s].source_files, fname)->0];
    Seq::new(
        cs.len(),
        |i: int|
            if i == s {
                CategoryView { source_files: files_without(cs[s].source_files, fname), ..cs[s] }
            } else if i == t {
                CategoryView { source_files: cs[t].source_files.push(moved), ..cs[t] }
            } else {
                cs[i]
            },
    )
}

/// The result of an edit: renaming needs the old name present and the new one
/// absent; removing needs the name present; adding needs the name absent;
/// moving needs the target category, a file name, a category holding a file of
/// that name, and that category not to be the target.
pub open spec fn refine_spec(p: ProposalView, r: RefinementView) -> Result<ProposalView, RefinementErrorView> {
    let cs = p.categories;
    match r {
        RefinementView::RenameCategory { from, to } => if !has_category(cs, from) {
            Err(RefinementErrorView::CategoryNotFound(from))
        } else if has_category(cs, to) {
            Err(RefinementErrorView::CategoryAlreadyExists(to))
        } else {
            Ok(ProposalView { categories: renamed(cs, from, to), ..p })
        },
        RefinementView::RemoveCategory { name } => if !has_category(cs, name) {
            Err(RefinementErrorView::CategoryNotFound(name))
        } else {
            Ok(ProposalView { categories: without_named(cs, name), ..p })
        },
        RefinementView::AddCategory { name, purpose } => if has_category(cs, name) {
            Err(RefinementErrorView::CategoryAlreadyExists(name))
        } else {
            Ok(ProposalView { categories: cs.push(fresh_category(name, purpose)), ..p })
        },
        RefinementView::MoveFileToCategory { file, category } => if !has_category(cs, category) {
            Err(RefinementErrorView::CategoryNotFound(category))
        } else {
            match file_name_spec(file) {
                None => Err(RefinementErrorView::FileNotFound(display_spec(file))),
                Some(fname) => match first_holder(cs, fname) {
                    None => Err(RefinementErrorView::FileNotFound(display_spec(file))),
                    Some(s) => if cs[s].name == category {
                        Err(RefinementErrorView::FileAlreadyInCategory { file, category })
                    } else {
                        Ok(
                            ProposalView {
                                categories: moved_between(cs, s, first_named(cs, category)->0, fname),
                                ..p
                            },
                        )
                    },
                },
            }
        },
    }
}

pub open spec fn refine_view(r: Result<OrganizationProposal, ProposalRefinementError>) -> Result<
    ProposalView,
    RefinementErrorView,
> {
    match r {
        Ok(p) => Ok(p@),
        Err(e) => Err(e@),
    }
}

// ------------------------------------------------------ search helpers

proof fn lemma_first_named_some(cs: Seq<CategoryView>, name: Seq<char>)
    ensures
        (first_named(cs, name) is Some) == has_category(cs, name),
        first_named(cs, name) is Some ==> {
            let k = first_named(cs, name)->0;
            &&& 0 <= k < cs.len()
            &&& cs[k].name == name
            &&& forall|j: int| 0 <= j < k ==> cs[j].name != name
        },
    decreases cs.len(),
{
    if cs.len() > 0 {
        let rest = cs.subrange(1, cs.len() as int);
        lemma_first_named_some(rest, name);
        if has_category(rest, name) {
            let i = choose|i: int| 0 <= i < rest.len() && (#[trigger] rest[i]).name == name;
            assert(cs[i + 1].name == name);
        }
        if has_category(cs, name) && cs[0].name != name {
            let i = choose|i: int| 0 <= i < cs.len() && (#[trigger] cs[i]).name == name;
            assert(rest[i - 1].name == name);
        }
        if first_named(cs, name) is Some && cs[0].name != name {
            let k = first_named(rest, name)->0;
            assert forall|j: int| 0 <= j < k + 1 implies cs[j].name != name by {
                if j > 0 {
                    assert(cs[j] == rest[j - 1]);
                }
            }
        }
    }
}

proof fn lemma_first_file_named(files: Seq<PathView>, fname: Seq<char>)
    ensures
        first_file_named(files, fname) is Some ==> {
            let k = first_file_named(files, fname)->0;
            &&& 0 <= k < files.len()
            &&& file_name_spec(files[k]) == Some(fname)
        },
        first_file_named(files, fname) is None ==> forall|j: int|
            0 <= j < files.len() ==> file_name_spec(#[trigger] files[j]) != Some(fname),
    decreases files.len(),
{
    if files.len() > 0 {
        let rest = files.subrange(1, files.len() as int);
        lemma_first_file_named(rest, fname);
        if first_file_named(files, fname) is None {
            assert forall|j: int| 0 <= j < files.len() implies file_name_spec(#[trigger] files[j]) != Some(fname) by {
                if j > 0 {
                    assert(files[j] == rest[j - 1]);
                }
            }
        }
    }
}

proof fn lemma_first_holder(cs: Seq<CategoryView>, fname: Seq<char>)
    ensures
        first_holder(cs, fname) is Some ==> {
            let k = first_holder(cs, fname)->0;
            &&& 0 <= k < cs.len()
            &&& first_file_named(cs[k].source_files, fname) is Some
        },
    decreases cs.len(),
{
    if cs.len() > 0 {
        lemma_first_holder(cs.subrange(1, cs.len() as int), fname);
    }
}

fn find_named(cats: &Vec<ProposedCategory>, name: &str) -> (r: Option<usize>)
    ensures
        match r {
            Some(k) => first_named(categories_view(cats@), name@) == Some(k as int),
            None => first_named(categories_view(cats@), name@) is None,
        },
{
    let ghost cv = categories_view(cats@);
    let mut i: usize = 0;
    assert(cv.subrange(0, cv.len() as int) =~= cv);
    while i < cats.len()
        invariant
            i <= cats@.len(),
            cv == categories_view(cats@),
            first_named(cv, name@) == match first_named(cv.subrange(i as int, cv.len() as int), name@) {
                Some(k) => Some(k + i),
                None => None,
            },
        decreases cats@.len() - i,
    {
        let ghost rest = cv.subrange(i as int, cv.len() as int);
        assert(rest[0] == cats@[i as int]@);
        if str_eq(cats[i].name.as_str(), name) {
            return Some(i);
        }
        assert(rest.subrange(1, rest.len() as int) =~= cv.subrange(i + 1, cv.len() as int));
        i = i + 1;
    }
    None
}

fn find_file_named(files: &Vec<FsPath>, fname: &str) -> (r: Option<usize>)
    ensures
        match r {
            Some(k) => first_file_named(paths_view(files@), fname@) == Some(k as int),
            None => first_file_named(paths_view(files@), fname@) is None,
        },
{
    let ghost fv = paths_view(files@);
    let mut i: usize = 0;
    assert(fv.subrange(0, fv.len() as int) =~= fv);
    while i < files.len()
        invariant
            i <= files@.len(),
            fv == paths_view(files@),
            first_file_named(fv, fname@) == match first_file_named(fv.subrange(i as int, fv.len() as int), fname@) {
                Some(k) => Some(k + i),
                None => None,
            },
        decreases files@.len() - i,
    {
        let ghost rest = fv.subrange(i as int, fv.len() as int);
        assert(rest[0] == files@[i as int]@);
        let hit = match files[i].file_name() {
            Some(n) => str_eq(n.as_str(), fname),
            None => false,
        };
        if hit {
            return Some(i);
        }
        assert(rest.subrange(1, rest.len() as int) =~= fv.subrange(i + 1, fv.len() as int));
        i = i + 1;
    }
    None
}

fn find_holder(cats: &Vec<ProposedCategory>, fname: &str) -> (r: Option<usize>)
    ensures
        match r {
            Some(k) => first_holder(categories_view(cats@), fname@) == Some(k as int),
            None => first_holder(categories_view(cats@), fname@) is None,
        },
{
    let ghost cv = categories_view(cats@);
    let mut i: usize = 0;
    assert(cv.subrange(0, cv.len() as int) =~= cv);
    while i < cats.len()
        invariant
            i <= cats@.len(),
            cv == categories_view(cats@),
            first_holder(cv, fname@) == match first_holder(cv.subrange(i as int, cv.len() as int), fname@) {
                Some(k) => Some(k + i),
                None => None,
            },
        decreases cats@.len() - i,
    {
        let ghost rest = cv.subrange(i as int, cv.len() as int);
        assert(rest[0] == cats@[i as int]@);
        if find_file_named(&cats[i].source_files, fname).is_some() {
            return Some(i);
        }
        assert(rest.subrange(1, rest.len() as int) =~= cv.subrange(i + 1, cv.len() as int));
        i = i + 1;
    }
    None
}

fn files_without_named(files: &Vec<FsPath>, fname: &str) -> (r: Vec<FsPath>)
    ensures
        paths_view(r@) == files_without(paths_view(files@), fname@),
{
    let ghost fv = paths_view(files@);
    let mut r: Vec<FsPath> = Vec::new();
    let mut i: usize = 0;
    while i < files.len()
        invariant
            i <= files@.len(),
            fv == paths_view(files@),
            paths_view(r@) == files_without(fv.take(i as int), fname@),
        decreases files@.len() - i,
    {
        assert(fv.take(i + 1).drop_last() =~= fv.take(i as int));
        assert(fv.take(i + 1).last() == files@[i as int]@);
        let hit = match files[i].file_name() {
            Some(n) => str_eq(n.as_str(), fname),
            None => false,
        };
        if !hit {
            let ghost prev = paths_view(r@);
            r.push(files[i].copy());
            assert(paths_view(r@) =~= prev.push(files@[i as int]@));
        }
        i = i + 1;
    }
    assert(fv.take(files@.len() as int) =~= fv);
    r
}

/// Applies edits to proposals.
pub struct ProposalRefiner;

impl ProposalRefiner {
    /// The proposal revised by one edit, or why the edit was refused.
    pub fn refine(&self, proposal: &OrganizationProposal, refinement: &ProposalRefinement) -> (r: Result<
        OrganizationProposal,
        ProposalRefinementError,
    >)
        ensures
            refine_view(r) == refine_spec(proposal@, refinement@),
    {
        match refinement {
            ProposalRefinement::RenameCategory { from, to } => Self::rename_category(proposal, from.as_str(), to.as_str()),
            ProposalRefinement::RemoveCategory { name } => Self::remove_category(proposal, name.as_str()),
            ProposalRefinement::AddCategory { name, purpose } => Self::add_category(
                proposal,
                name.as_str(),
                purpose.as_str(),
            ),
            ProposalRefinement::MoveFileToCategory { file, category } => Self::move_file_to_category(
                proposal,
                file,
                category.as_str(),
            ),
        }
    }

    fn rename_category(proposal: &OrganizationProposal, from: &str, to: &str) -> (r: Result<
        OrganizationProposal,
        ProposalRefinementError,
    >)
        ensures
            refine_view(r) == refine_spec(
                proposal@,
                RefinementView::RenameCategory { from: from@, to: to@ },
            ),
    {
        let cats = &proposal.proposed_categories;
        let ghost cv = categories_view(cats@);
        proof {
            lemma_first_named_some(cv, from@);
            lemma_first_named_some(cv, to@);
        }
        if find_named(cats, from).is_none() {
            return Err(ProposalRefinementError::CategoryNotFound(owned(from)));
        }
        if find_named(cats, to).is_some() {
            return Err(ProposalRefinementError::CategoryAlreadyExists(owned(to)));
        }
        let mut out: Vec<ProposedCategory> = Vec::new();
        let mut i: usize = 0;
        while i < cats.len()
            invariant
                i <= cats@.len(),
                cv == categories_view(cats@),
                categories_view(out@) == renamed(cv.take(i as int), from@, to@),
            decreases cats@.len() - i,
        {
            let mut c = cats[i].copy();
            if str_eq(c.name.as_str(), from) {
                c.name = owned(to);
            }
            let ghost prev = categories_view(out@);
            out.push(c);
            assert(categories_view(out@) =~= prev.push(c@));
            assert(renamed(cv.take(i + 1), from@, to@) =~= renamed(cv.take(i as int), from@, to@).push(c@));
            i = i + 1;
        }
        assert(cv.take(cats@.len() as int) =~= cv);
        Ok(proposal.with_categories(out))
    }

    fn remove_category(proposal: &OrganizationProposal, name: &str) -> (r: Result<
        OrganizationProposal,
        ProposalRefinementError,
    >)
        ensures
            refine_view(r) == refine_spec(proposal@, RefinementView::RemoveCategory { name: name@ }),
    {
        let cats = &proposal.proposed_categories;
        let ghost cv = categories_view(cats@);
        proof {
            lemma_first_named_some(cv, name@);
        }
        if find_named(cats, name).is_none() {
            return Err(ProposalRefinementError::CategoryNotFound(owned(name)));
        }
        let mut out: Vec<ProposedCategory> = Vec::new();
        let mut i: usize = 0;
        while i < cats.len()
            invariant
                i <= cats@.len(),
                cv == categories_view(cats@),
                categories_view(out@) == without_named(cv.take(i as int), name@),
            decreases cats@.len() - i,
        {
            assert(cv.take(i + 1).drop_last() =~= cv.take(i as int));
            assert(cv.take(i + 1).last() == cats@[i as int]@);
            if !str_eq(cats[i].name.as_str(), name) {
                let ghost prev = categories_view(out@);
                out.push(cats[i].copy());
                assert(categories_view(out@) =~= prev.push(cats@[i as int]@));
            }
            i = i + 1;
        }
        assert(cv.take(cats@.len() as int) =~= cv);
        Ok(proposal.with_categories(out))
    }

    fn add_category(proposal: &OrganizationProposal, name: &str, purpose: &str) -> (r: Result<
        OrganizationProposal,
        ProposalRefinementError,
    >)
        ensures
            refine_view(r) == refine_spec(
                proposal@,
                RefinementView::AddCategory { name: name@, purpose: purpose@ },
            ),
    {
        let cats = &proposal.proposed_categories;
        let ghost cv = categories_view(cats@);
        proof {
            lemma_first_named_some(cv, name@);
        }
        if find_named(cats, name).is_some() {
            return Err(ProposalRefinementError::CategoryAlreadyExists(owned(name)));
        }
        let mut out: Vec<ProposedCategory> = Vec::new();
        let mut i: usize = 0;
        while i < cats.len()
            invariant
                i <= cats@.len(),
                cv == categories_view(cats@),
                categories_view(out@) == cv.take(i as int),
            decreases cats@.len() - i,
        {
            let ghost prev = categories_view(out@);
            out.push(cats[i].copy());
            assert(categories_view(out@) =~= prev.push(cats@[i as int]@));
            assert(cv.take(i + 1) =~= cv.take(i as int).push(cats@[i as int]@));
            i = i + 1;
        }
        assert(cv.take(cats@.len() as int) =~= cv);
        let fresh = ProposedCategory {
            name: owned(name),
            purpose: owned(purpose),
            target_content_types: Vec::new(),
            confidence_bits: 0,
            is_existing: false,
            target_path: None,
            source_files: Vec::new(),
        };
        assert(fresh@ =~= fresh_category(name@, purpose@));
        let ghost prev = categories_view(out@);
        out.push(fresh);
        assert(categories_view(out@) =~= prev.push(fresh@));
        Ok(proposal.with_categories(out))
    }

    fn move_file_to_category(proposal: &OrganizationProposal, file: &FsPath, category: &str) -> (r: Result<
        OrganizationProposal,
        ProposalRefinementError,
    >)
        ensures
            refine_view(r) == refine_spec(
                proposal@,
                RefinementView::MoveFileToCategory { file: file@, category: category@ },
            ),
    {
        let cats = &proposal.proposed_categories;
        let ghost cv = categories_view(cats@);
        proof {
            lemma_first_named_some(cv, category@);
        }
        let t = match find_named(cats, category) {
            Some(t) => t,
            None => {
                return Err(ProposalRefinementError::CategoryNotFound(owned(category)));
            },
        };
        let fname = match file.file_name() {
            Some(n) => n,
            None => {
                return Err(ProposalRefinementError::FileNotFound(file.display()));
            },
        };
        let s = match find_holder(cats, fname.as_str()) {
            Some(s) => s,
            None => {
                return Err(ProposalRefinementError::FileNotFound(file.display()));
            },
        };
        proof {
            lemma_first_holder(cv, fname@);
        }
        if str_eq(cats[s].name.as_str(), category) {
            return Err(ProposalRefinementError::FileAlreadyInCategory { file: file.copy(), category: owned(category) });
        }
        assert(s != t);
        let src_files = &cats[s].source_files;
        let k = match find_file_named(src_files, fname.as_str()) {
            Some(k) => k,
            None => {
                proof {
                    assert(false);
                }
                return Err(ProposalRefinementError::FileNotFound(file.display()));
            },
        };
        proof {
            lemma_first_file_named(paths_view(src_files@), fname@);
        }
        let ghost target = moved_between(cv, s as int, t as int, fname@);
        let mut out: Vec<ProposedCategory> = Vec::new();
        let mut i: usize = 0;
        while i < cats.len()
            invariant
                i <= cats@.len(),
                cv == categories_view(cats@),
                s < cats@.len(),
                t < cats@.len(),
                s != t,
                k < cats@[s as int].source_files@.len(),
                first_file_named(cv[s as int].source_files, fname@) == Some(k as int),
                target == moved_between(cv, s as int, t as int, fname@),
                categories_view(out@) == target.take(i as int),
            decreases cats@.len() - i,
        {
            let mut c = cats[i].copy();
            if i == s {
                c.source_files = files_without_named(&cats[s].source_files, fname.as_str());
            } else if i == t {
                c.source_files.push(cats[s].source_files[k].copy());
                assert(paths_view(c.source_files@) =~= cv[t as int].source_files.push(cv[s as int].source_files[k as int]));
            }
            assert(c@ =~= target[i as int]);
            let ghost prev = categories_view(out@);
            out.push(c);
            assert(categories_view(out@) =~= prev.push(target[i as int]));
            assert(target.take(i + 1) =~= target.take(i as int).push(target[i as int]));
            i = i + 1;
        }
        assert(target.take(cats@.len() as int) =~= target);
        Ok(proposal.with_categories(out))
    }
}


// ------------------------------------------------------ laws

/// No two categories share a name.
pub open spec fn names_distinct(cs: Seq<CategoryView>) -> bool {
    forall|i: int, j: int| 0 <= i < j < cs.len() ==> (#[trigger] cs[i]).name != (#[trigger] cs[j]).name
}

proof fn lemma_without_named_members(cs: Seq<CategoryView>, name: Seq<char>)
    ensures
        forall|i: int|
            0 <= i < without_named(cs, name).len() ==> (#[trigger] without_named(cs, name)[i]).name != name
                && cs.contains(without_named(cs, name)[i]),
        names_distinct(cs) ==> names_distinct(without_named(cs, name)),
    decreases cs.len(),
{
    if cs.len() > 0 {
        let prev = without_named(cs.drop_last(), name);
        lemma_without_named_members(cs.drop_last(), name);
        let w = without_named(cs, name);
        assert forall|i: int| 0 <= i < w.len() implies (#[trigger] w[i]).name != name && cs.contains(w[i]) by {
            if i < prev.len() {
                assert(w[i] == prev[i]);
                let j = choose|j: int| 0 <= j < cs.drop_last().len() && cs.drop_last()[j] == prev[i];
                assert(cs[j] == w[i]);
            } else {
                assert(cs[cs.len() - 1] == w[i]);
            }
        }
        if names_distinct(cs) && cs.last().name != name {
            assert(names_distinct(cs.drop_last()));
            assert forall|i: int, j: int| 0 <= i < j < w.len() implies (#[trigger] w[i]).name != (#[trigger] w[j]).name by {
                if j == w.len() - 1 {
                    let a = choose|a: int| 0 <= a < cs.drop_last().len() && cs.drop_last()[a] == prev[i];
                    assert(cs[a] == w[i]);
                    assert(w[j] == cs[cs.len() - 1]);
                } else {
                    assert(w[i] == prev[i] && w[j] == prev[j]);
                }
            }
        } else if names_distinct(cs) {
            assert(names_distinct(cs.drop_last()));
        }
    }
}

proof fn lemma_without_named_absent(cs: Seq<CategoryView>, name: Seq<char>)
    requires
        !has_category(cs, name),
    ensures
        without_named(cs, name) == cs,
    decreases cs.len(),
{
    if cs.len() > 0 {
        assert(cs[cs.len() - 1].name != name);
        assert(!has_category(cs.drop_last(), name)) by {
            if has_category(cs.drop_last(), name) {
                let i = choose|i: int| 0 <= i < cs.drop_last().len() && (#[trigger] cs.drop_last()[i]).name == name;
                assert(cs[i].name == name);
            }
        }
        lemma_without_named_absent(cs.drop_last(), name);
        assert(cs.drop_last().push(cs.last()) =~= cs);
    }
}

/// Renaming a category and renaming it back gives the proposal back.
pub proof fn law_rename_round_trip(p: ProposalView, a: Seq<char>, b: Seq<char>)
    requires
        has_category(p.categories, a),
        !has_category(p.categories, b),
    ensures
        refine_spec(p, RefinementView::RenameCategory { from: a, to: b }) is Ok,
        refine_spec(
            refine_spec(p, RefinementView::RenameCategory { from: a, to: b })->Ok_0,
            RefinementView::RenameCategory { from: b, to: a },
        ) == Ok::<ProposalView, RefinementErrorView>(p),
{
    let cs = p.categories;
    let q = refine_spec(p, RefinementView::RenameCategory { from: a, to: b })->Ok_0;
    let i0 = choose|i: int| 0 <= i < cs.len() && (#[trigger] cs[i]).name == a;
    assert(q.categories[i0].name == b);
    assert(has_category(q.categories, b));
    assert(!has_category(q.categories, a)) by {
        if has_category(q.categories, a) {
            let i = choose|i: int| 0 <= i < q.categories.len() && (#[trigger] q.categories[i]).name == a;
            if cs[i].name == a {
                assert(q.categories[i].name == b);
            } else {
                assert(q.categories[i] == cs[i]);
            }
        }
    }
    let back = renamed(q.categories, b, a);
    assert forall|i: int| 0 <= i < cs.len() implies back[i] == cs[i] by {
        if cs[i].name == a {
            assert(q.categories[i] == CategoryView { name: b, ..cs[i] });
            assert(back[i] =~= cs[i]);
        } else {
            assert(cs[i].name != b);
            assert(q.categories[i] == cs[i]);
        }
    }
    assert(back =~= cs);
    assert(ProposalView { categories: back, ..q } =~= p);
}

/// Adding a category and then removing it gives the proposal back.
pub proof fn law_add_then_remove(p: ProposalView, name: Seq<char>, purpose: Seq<char>)
    requires
        !has_category(p.categories, name),
    ensures
        refine_spec(p, RefinementView::AddCategory { name, purpose }) is Ok,
        refine_spec(
            refine_spec(p, RefinementView::AddCategory { name, purpose })->Ok_0,
            RefinementView::RemoveCategory { name },
        ) == Ok::<ProposalView, RefinementErrorView>(p),
{
    let cs = p.categories;
    let q = refine_spec(p, RefinementView::AddCategory { name, purpose })->Ok_0;
    let ext = cs.push(fresh_category(name, purpose));
    assert(q.categories == ext);
    assert(ext[ext.len() - 1].name == name);
    assert(has_category(ext, name));
    assert(ext.drop_last() =~= cs);
    lemma_without_named_absent(cs, name);
    assert(without_named(ext, name) == cs);
    assert(ProposalView { categories: cs, ..q } =~= p);
}

/// Every edit keeps category names distinct.
pub proof fn law_refine_keeps_names_distinct(p: ProposalView, r: RefinementView)
    requires
        names_distinct(p.categories),
    ensures
        refine_spec(p, r) is Ok ==> names_distinct(refine_spec(p, r)->Ok_0.categories),
{
    let cs = p.categories;
    match r {
        RefinementView::RenameCategory { from, to } => {
            if refine_spec(p, r) is Ok {
                let out = renamed(cs, from, to);
                assert forall|i: int, j: int| 0 <= i < j < out.len() implies (#[trigger] out[i]).name != (
                #[trigger] out[j]).name by {
                    assert(cs[i].name != cs[j].name);
                    if cs[i].name != from && cs[j].name != from {
                        assert(cs[i].name != to);
                    } else if cs[i].name == from {
                        assert(cs[j].name != to);
                    } else {
                        assert(cs[i].name != to);
                    }
                }
            }
        },
        RefinementView::RemoveCategory { name } => {
            lemma_without_named_members(cs, name);
        },
        RefinementView::AddCategory { name, purpose } => {
            if refine_spec(p, r) is Ok {
                let out = cs.push(fresh_category(name, purpose));
                assert forall|i: int, j: int| 0 <= i < j < out.len() implies (#[trigger] out[i]).name != (
                #[trigger] out[j]).name by {
                    if j == out.len() - 1 {
                        assert(out[i] == cs[i]);
                    } else {
                        assert(out[i] == cs[i] && out[j] == cs[j]);
                    }
                }
            }
        },
        RefinementView::MoveFileToCategory { file, category } => {
            if refine_spec(p, r) is Ok {
                let fname = file_name_spec(file)->0;
                let s = first_holder(cs, fname)->0;
                lemma_first_holder(cs, fname);
                lemma_first_named_some(cs, category);
                let t = first_named(cs, category)->0;
                let out = moved_between(cs, s, t, fname);
                assert forall|i: int, j: int| 0 <= i < j < out.len() implies (#[trigger] out[i]).name != (
                #[trigger] out[j]).name by {
                    assert(out[i].name == cs[i].name && out[j].name == cs[j].name);
                }
            }
        },
    }
}

proof fn lemma_files_without(files: Seq<PathView>, fname: Seq<char>)
    ensures
        forall|i: int|
            0 <= i < files_without(files, fname).len() ==> file_name_spec(#[trigger] files_without(files, fname)[i])
                != Some(fname),
    decreases files.len(),
{
    if files.len() > 0 {
        lemma_files_without(files.drop_last(), fname);
        let prev = files_without(files.drop_last(), fname);
        let w = files_without(files, fname);
        assert forall|i: int| 0 <= i < w.len() implies file_name_spec(#[trigger] w[i]) != Some(fname) by {
            if i < prev.len() {
                assert(w[i] == prev[i]);
            }
        }
    }
}

/// Moving a file puts a file of that name into the target category and
/// leaves none in the category it came from; the other categories are untouched.
pub proof fn law_move_places_file(p: ProposalView, file: PathView, category: Seq<char>)
    requires
        refine_spec(p, RefinementView::MoveFileToCategory { file, category }) is Ok,
    ensures
        ({
            let cs = p.categories;
            let q = refine_spec(p, RefinementView::MoveFileToCategory { file, category })->Ok_0.categories;
            let fname = file_name_spec(file)->0;
            let s = first_holder(cs, fname)->0;
            let t = first_named(cs, category)->0;
            &&& q.len() == cs.len()
            &&& q[t].name == category
            &&& q[t].source_files.len() == cs[t].source_files.len() + 1
            &&& file_name_spec(q[t].source_files.last()) == Some(fname)
            &&& forall|j: int|
                0 <= j < q[s].source_files.len() ==> file_name_spec(#[trigger] q[s].source_files[j]) != Some(fname)
            &&& forall|i: int| 0 <= i < cs.len() && i != s && i != t ==> q[i] == cs[i]
        }),
{
    let cs = p.categories;
    let fname = file_name_spec(file)->0;
    let s = first_holder(cs, fname)->0;
    lemma_first_holder(cs, fname);
    lemma_first_named_some(cs, category);
    lemma_first_file_named(cs[s].source_files, fname);
    lemma_files_without(cs[s].source_files, fname);
}

} // verus!

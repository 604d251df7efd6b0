//! A filesystem path as the rest of the library reasons about it: whether it
//! is rooted, and the sequence of its components, read as path comparison
//! reads them: text is split on `/`, empty components are dropped, and so is
//! `.` except at the start of a relative path (`./a` keeps it, `a/./b` does
//! not). A path is displayed from those components.
use crate::text::{chars_of, clone_strings, str_eq, cat};
use vstd::prelude::*;

verus! {

/// The mathematical value of a path.
#[verifier::ext_equal]
pub struct PathView {
    pub absolute: bool,
    pub parts: Seq<Seq<char>>,
}

/// A path: a root flag and its components, in order.
#[derive(Clone, Debug, PartialEq, Eq, Hash)]
pub struct FsPath {
    pub absolute: bool,
    pub parts: Vec<String>,
}

impl View for FsPath {
    type V = PathView;

    open spec fn view(&self) -> PathView {
        PathView { absolute: self.absolute, parts: self.parts@.map_values(|s: String| s@) }
    }
}

/// A component that parsing can produce: non-empty and free of `/`.
pub open spec fn part_wf(p: Seq<char>) -> bool {
    &&& p.len() > 0
    &&& forall|i: int| 0 <= i < p.len() ==> p[i] != '/'
}

/// Every component of the path is one that parsing can produce, and `.`
/// only stands first in a relative path.
pub open spec fn path_wf(p: PathView) -> bool {
    forall|i: int|
        0 <= i < p.parts.len() ==> part_wf(#[trigger] p.parts[i]) && (p.parts[i] == seq!['.'] ==> i == 0
            && !p.absolute)
}

/// The text names a rooted path.
pub open spec fn rooted(s: Seq<char>) -> bool {
    s.len() > 0 && s[0] == '/'
}

/// Adds the pending component `cur` to `parts`, unless it is empty, or `.`
/// anywhere but at the start of a relative path.
pub open spec fn flush(parts: Seq<Seq<char>>, cur: Seq<char>, absolute: bool) -> Seq<Seq<char>> {
    if cur.len() == 0 || (cur == seq!['.'] && (parts.len() > 0 || absolute)) {
        parts
    } else {
        parts.push(cur)
    }
}

/// The state after reading the first `k` characters: the finished components
/// and the component being read.
pub open spec fn scan(s: Seq<char>, k: nat) -> (Seq<Seq<char>>, Seq<char>)
    decreases k,
{
    if k == 0 || k > s.len() {
        (seq![], seq![])
    } else {
        let prev = scan(s, (k - 1) as nat);
        if s[k - 1] == '/' {
            (flush(prev.0, prev.1, rooted(s)), seq![])
        } else {
            (prev.0, prev.1.push(s[k - 1]))
        }
    }
}

/// The components of a path text.
pub open spec fn parse_parts(s: Seq<char>) -> Seq<Seq<char>> {
    let st = scan(s, s.len());
    flush(st.0, st.1, rooted(s))
}

/// The path that a text denotes.
pub open spec fn parse_spec(s: Seq<char>) -> PathView {
    PathView { absolute: rooted(s), parts: parse_parts(s) }
}

/// Components joined with `/`.
pub open spec fn join_parts(parts: Seq<Seq<char>>) -> Seq<char>
    decreases parts.len(),
{
    if parts.len() == 0 {
        seq![]
    } else if parts.len() == 1 {
        parts[0]
    } else {
        join_parts(parts.drop_last()) + seq!['/'] + parts.last()
    }
}

/// The text of a path: a leading `/` when rooted, then the components joined with `/`.
pub open spec fn display_spec(p: PathView) -> Seq<char> {
    if p.absolute {
        seq!['/'] + join_parts(p.parts)
    } else {
        join_parts(p.parts)
    }
}

/// `rel`'s components as they follow others: a leading `.` no longer counts.
pub open spec fn appended_parts(rel: PathView) -> Seq<Seq<char>> {
    if rel.parts.len() > 0 && rel.parts[0] == seq!['.'] {
        rel.parts.drop_first()
    } else {
        rel.parts
    }
}

/// `base.join(rel)`: a rooted `rel` replaces `base`; otherwise `rel`'s
/// components are appended (onto an empty relative `base`, `rel` is kept as it is).
pub open spec fn join_spec(base: PathView, rel: PathView) -> PathView {
    if rel.absolute {
        rel
    } else if !base.absolute && base.parts.len() == 0 {
        rel
    } else {
        PathView { absolute: base.absolute, parts: base.parts + appended_parts(rel) }
    }
}

/// `p` lies at or below `base`, compared component by component.
pub open spec fn starts_with_spec(p: PathView, base: PathView) -> bool {
    &&& p.absolute == base.absolute
    &&& base.parts.len() <= p.parts.len()
    &&& p.parts.subrange(0, base.parts.len() as int) == base.parts
}

/// The final component, unless there is none or it is `..` or `.`.
pub open spec fn file_name_spec(p: PathView) -> Option<Seq<char>> {
    if p.parts.len() == 0 || p.parts.last() == seq!['.', '.'] || p.parts.last() == seq!['.'] {
        None
    } else {
        Some(p.parts.last())
    }
}

/// The path without its final component; a path without components has no parent.
pub open spec fn parent_spec(p: PathView) -> Option<PathView> {
    if p.parts.len() == 0 {
        None
    } else {
        Some(PathView { absolute: p.absolute, parts: p.parts.drop_last() })
    }
}

/// Index of the last `.` in the first `k` characters of `s`, or -1.
pub open spec fn last_dot_before(s: Seq<char>, k: int) -> int
    decreases k,
{
    if k <= 0 || k > s.len() {
        -1
    } else if s[k - 1] == '.' {
        k - 1
    } else {
        last_dot_before(s, k - 1)
    }
}

/// The extension of a file name: the text after its last `.`, when that `.`
/// is not the name's first character.
pub open spec fn name_extension(name: Seq<char>) -> Option<Seq<char>> {
    let d = last_dot_before(name, name.len() as int);
    if d <= 0 {
        None
    } else {
        Some(name.subrange(d + 1, name.len() as int))
    }
}

/// The extension of the path's file name.
pub open spec fn extension_spec(p: PathView) -> Option<Seq<char>> {
    match file_name_spec(p) {
        None => None,
        Some(n) => name_extension(n),
    }
}

/// Number of components as path iteration counts them (the root counts as one).
pub open spec fn component_count_spec(p: PathView) -> nat {
    p.parts.len() + if p.absolute { 1nat } else { 0nat }
}

pub open spec fn opt_view(o: Option<String>) -> Option<Seq<char>> {
    match o {
        Some(s) => Some(s@),
        None => None,
    }
}

pub open spec fn opt_path_view(o: Option<FsPath>) -> Option<PathView> {
    match o {
        Some(p) => Some(p@),
        None => None,
    }
}

impl FsPath {
    /// The empty relative path.
    pub fn empty() -> (r: FsPath)
        ensures
            r@ == (PathView { absolute: false, parts: Seq::<Seq<char>>::empty() }),
    {
        let r = FsPath { absolute: false, parts: Vec::new() };
        assert(r@.parts =~= Seq::<Seq<char>>::empty());
        r
    }

    /// Reads a path from its text.
    pub fn parse(s: &str) -> (r: FsPath)
        ensures
            r@ == parse_spec(s@),
            path_wf(r@),
    {
        let cs = chars_of(s);
        let n = cs.len();
        let absolute = n > 0 && cs[0] == '/';
        let mut parts: Vec<String> = Vec::new();
        let mut cur: Vec<char> = Vec::new();
        let mut i: usize = 0;
        while i < n
            invariant
                n == s@.len(),
                cs@ == s@,
                absolute == rooted(s@),
                i <= n,
                parts@.map_values(|x: String| x@) == scan(s@, i as nat).0,
                cur@ == scan(s@, i as nat).1,
                path_wf(PathView { absolute, parts: scan(s@, i as nat).0 }),
                forall|j: int| 0 <= j < cur@.len() ==> cur@[j] != '/',
            decreases n - i,
        {
            let c = cs[i];
            let ghost prev_parts = parts@.map_values(|x: String| x@);
            if c == '/' {
                let is_dot = cur.len() == 1 && cur[0] == '.';
                assert(is_dot == (cur@ == seq!['.'])) by {
                    if cur@.len() == 1 && cur@[0] == '.' {
                        assert(cur@ =~= seq!['.']);
                    }
                }
                let keep = cur.len() > 0 && !(is_dot && (parts.len() > 0 || absolute));
                if keep {
                    proof {
                        lemma_wf_push(scan(s@, i as nat).0, cur@, absolute);
                    }
                    let t = chars_to_string(&cur);
                    parts.push(t);
                    assert(parts@.map_values(|x: String| x@) =~= prev_parts.push(cur@));
                } else {
                    assert(parts@.map_values(|x: String| x@) =~= prev_parts);
                }
                cur = Vec::new();
            } else {
                cur.push(c);
            }
            i = i + 1;
        }
        let is_dot = cur.len() == 1 && cur[0] == '.';
        assert(is_dot == (cur@ == seq!['.'])) by {
            if cur@.len() == 1 && cur@[0] == '.' {
                assert(cur@ =~= seq!['.']);
            }
        }
        let keep = cur.len() > 0 && !(is_dot && (parts.len() > 0 || absolute));
        let ghost prev_parts = parts@.map_values(|x: String| x@);
        if keep {
            proof {
                lemma_wf_push(scan(s@, n as nat).0, cur@, absolute);
            }
            let t = chars_to_string(&cur);
            parts.push(t);
            assert(parts@.map_values(|x: String| x@) =~= prev_parts.push(cur@));
        } else {
            assert(parts@.map_values(|x: String| x@) =~= prev_parts);
        }
        FsPath { absolute, parts }
    }

    /// An independent copy of this path.
    pub fn copy(&self) -> (r: FsPath)
        ensures
            r@ == self@,
    {
        let parts = clone_strings(&self.parts);
        let r = FsPath { absolute: self.absolute, parts };
        assert(r@.parts =~= self@.parts);
        r
    }

    /// The text of this path.
    pub fn display(&self) -> (r: String)
        ensures
            r@ == display_spec(self@),
    {
        let mut body = String::new();
        let n = self.parts.len();
        let mut i: usize = 0;
        while i < n
            invariant
                n == self.parts@.len(),
                i <= n,
                body@ == join_parts(self@.parts.subrange(0, i as int)),
            decreases n - i,
        {
            let ghost before = body@;
            let ghost pre = self@.parts.subrange(0, i as int);
            let ghost next = self@.parts.subrange(0, i + 1);
            assert(next.drop_last() =~= pre);
            assert(next.last() == self.parts@[i as int]@);
            if i > 0 {
                body.append("/");
                proof { reveal_strlit("/"); }
            }
            body.append(self.parts[i].as_str());
            proof {
                if i == 0 {
                    assert(next.len() == 1);
                    assert(body@ =~= next[0]);
                } else {
                    assert(body@ =~= join_parts(pre) + seq!['/'] + next.last());
                }
            }
            i = i + 1;
        }
        assert(self@.parts.subrange(0, n as int) =~= self@.parts);
        if self.absolute {
            let r = cat("/", body.as_str());
            proof { reveal_strlit("/"); }
            r
        } else {
            body
        }
    }

    /// `self.join(rel)`.
    pub fn join(&self, rel: &FsPath) -> (r: FsPath)
        ensures
            r@ == join_spec(self@, rel@),
    {
        if rel.absolute {
            return rel.copy();
        }
        if !self.absolute && self.parts.len() == 0 {
            return rel.copy();
        }
        let leading_dot = rel.parts.len() > 0 && str_eq(rel.parts[0].as_str(), ".");
        proof {
            reveal_strlit(".");
            assert(seq!['.'] =~= "."@);
        }
        let start: usize = if leading_dot { 1 } else { 0 };
        let mut parts = clone_strings(&self.parts);
        let mut i: usize = start;
        let ghost base = self.parts@;
        while i < rel.parts.len()
            invariant
                start <= i <= rel.parts@.len(),
                parts@ == base + rel.parts@.subrange(start as int, i as int),
            decreases rel.parts@.len() - i,
        {
            parts.push(rel.parts[i].clone());
            i = i + 1;
            assert(parts@ =~= base + rel.parts@.subrange(start as int, i as int));
        }
        assert(rel.parts@.subrange(start as int, i as int) =~= rel.parts@.subrange(start as int, rel.parts@.len() as int));
        let r = FsPath { absolute: self.absolute, parts };
        assert(rel.parts@.subrange(start as int, rel.parts@.len() as int).map_values(|s: String| s@) =~= appended_parts(rel@));
        assert(r@.parts =~= self@.parts + appended_parts(rel@));
        r
    }

    /// `self.join(text)`, reading `text` as a path.
    pub fn join_str(&self, text: &str) -> (r: FsPath)
        ensures
            r@ == join_spec(self@, parse_spec(text@)),
    {
        let rel = FsPath::parse(text);
        self.join(&rel)
    }

    /// Component-wise equality.
    pub fn same_as(&self, other: &FsPath) -> (b: bool)
        ensures
            b == (self@ == other@),
    {
        if self.absolute != other.absolute || self.parts.len() != other.parts.len() {
            assert(self@.parts.len() != other@.parts.len() || self@.absolute != other@.absolute);
            return false;
        }
        let n = self.parts.len();
        let mut i: usize = 0;
        while i < n
            invariant
                n == self.parts@.len(),
                n == other.parts@.len(),
                i <= n,
                forall|k: int| 0 <= k < i ==> self.parts@[k]@ == other.parts@[k]@,
            decreases n - i,
        {
            if !str_eq(self.parts[i].as_str(), other.parts[i].as_str()) {
                assert(self@.parts[i as int] != other@.parts[i as int]);
                return false;
            }
            i = i + 1;
        }
        assert(self@.parts =~= other@.parts);
        true
    }

    /// Whether this path lies at or below `base`, component by component.
    pub fn starts_with(&self, base: &FsPath) -> (b: bool)
        ensures
            b == starts_with_spec(self@, base@),
    {
        if self.absolute != base.absolute || base.parts.len() > self.parts.len() {
            return false;
        }
        let n = base.parts.len();
        let mut i: usize = 0;
        while i < n
            invariant
                n == base.parts@.len(),
                n <= self.parts@.len(),
                i <= n,
                forall|k: int| 0 <= k < i ==> self.parts@[k]@ == base.parts@[k]@,
            decreases n - i,
        {
            if !str_eq(self.parts[i].as_str(), base.parts[i].as_str()) {
                assert(self@.parts.subrange(0, n as int)[i as int] != base@.parts[i as int]);
                return false;
            }
            i = i + 1;
        }
        assert(self@.parts.subrange(0, n as int) =~= base@.parts);
        true
    }

    /// The final component, unless there is none or it is `..`.
    pub fn file_name(&self) -> (r: Option<String>)
        ensures
            opt_view(r) == file_name_spec(self@),
    {
        let n = self.parts.len();
        if n == 0 {
            return None;
        }
        let last = &self.parts[n - 1];
        let is_up = str_eq(last.as_str(), "..");
        let is_here = str_eq(last.as_str(), ".");
        proof {
            reveal_strlit("..");
            reveal_strlit(".");
            assert(seq!['.', '.'] =~= ".."@);
            assert(seq!['.'] =~= "."@);
        }
        if is_up || is_here {
            None
        } else {
            Some(last.clone())
        }
    }

    /// The path without its final component.
    pub fn parent(&self) -> (r: Option<FsPath>)
        ensures
            opt_path_view(r) == parent_spec(self@),
    {
        let n = self.parts.len();
        if n == 0 {
            return None;
        }
        let mut parts: Vec<String> = Vec::new();
        let mut i: usize = 0;
        while i < n - 1
            invariant
                n == self.parts@.len(),
                n > 0,
                i <= n - 1,
                parts@ == self.parts@.subrange(0, i as int),
            decreases n - 1 - i,
        {
            parts.push(self.parts[i].clone());
            i = i + 1;
            assert(parts@ =~= self.parts@.subrange(0, i as int));
        }
        let r = FsPath { absolute: self.absolute, parts };
        assert(r@.parts =~= self@.parts.drop_last());
        Some(r)
    }

    /// The extension of the file name (the text after its last `.`).
    pub fn extension(&self) -> (r: Option<String>)
        ensures
            opt_view(r) == extension_spec(self@),
    {
        match self.file_name() {
            None => None,
            Some(name) => name_extension_of(name.as_str()),
        }
    }

    /// Number of components, counting the root.
    pub fn component_count(&self) -> (r: usize)
        requires
            self.parts@.len() < usize::MAX,
        ensures
            r as nat == component_count_spec(self@),
    {
        if self.absolute {
            self.parts.len() + 1
        } else {
            self.parts.len()
        }
    }
}

proof fn lemma_wf_push(parts: Seq<Seq<char>>, p: Seq<char>, absolute: bool)
    requires
        path_wf(PathView { absolute, parts }),
        p.len() > 0,
        forall|j: int| 0 <= j < p.len() ==> p[j] != '/',
        p == seq!['.'] ==> parts.len() == 0 && !absolute,
    ensures
        path_wf(PathView { absolute, parts: parts.push(p) }),
{
    assert forall|i: int| 0 <= i < parts.push(p).len() implies part_wf(#[trigger] parts.push(p)[i]) && (parts.push(
        p,
    )[i] == seq!['.'] ==> i == 0 && !absolute) by {
        if i < parts.len() {
            assert(parts.push(p)[i] == parts[i]);
            assert(part_wf(PathView { absolute, parts }.parts[i]));
        }
    }
}

/// The string made of the given characters.
pub fn chars_to_string(v: &Vec<char>) -> (r: String)
    ensures
        r@ == v@,
{
    let mut r = String::new();
    let mut i: usize = 0;
    while i < v.len()
        invariant
            i <= v@.len(),
            r@ == v@.subrange(0, i as int),
        decreases v@.len() - i,
    {
        push_char(&mut r, v[i]);
        i = i + 1;
        assert(r@ =~= v@.subrange(0, i as int));
    }
    assert(v@.subrange(0, v@.len() as int) =~= v@);
    r
}

/// `String::push`: appends one character.
#[verifier::external_body]
fn push_char(s: &mut String, c: char)
    ensures
        final(s)@ == old(s)@.push(c),
{
    s.push(c)
}

/// The extension of a file name, as `Path::extension` reads it.
pub fn name_extension_of(name: &str) -> (r: Option<String>)
    ensures
        opt_view(r) == name_extension(name@),
{
    let cs = chars_of(name);
    let n = cs.len();
    let mut k: usize = n;
    while k > 0 && cs[k - 1] != '.'
        invariant
            n == name@.len(),
            cs@ == name@,
            k <= n,
            last_dot_before(name@, n as int) == last_dot_before(name@, k as int),
        decreases k,
    {
        k = k - 1;
    }
    // Here `k - 1` is the last dot's index, or `k == 0` when there is none.
    if k <= 1 {
        return None;
    }
    let mut out: Vec<char> = Vec::new();
    let mut j: usize = k;
    while j < n
        invariant
            n == name@.len(),
            cs@ == name@,
            k <= j <= n,
            out@ == name@.subrange(k as int, j as int),
        decreases n - j,
    {
        out.push(cs[j]);
        j = j + 1;
        assert(out@ =~= name@.subrange(k as int, j as int));
    }
    Some(chars_to_string(&out))
}

} // verus!

//! Checking, after execution, that the filesystem shows what the plan did:
//! moved sources gone, destinations present with the same content, created
//! directories present, deleted paths gone, and nothing changed by an empty plan.
use crate::executor::{entry_id_spec, is_success_view, OperationLog};
use crate::path::{display_spec, FsPath, PathView};
use crate::plan::{ops_view, FileSystemOperation, OpView, OperationPlan};
use crate::snapshot::{exists_in, is_dir_in, is_file_in, FsSnapshot, FsView};
use crate::text::{cat, cat3, decimal, owned, str_eq, u64_to_text, usize_to_text};
use vstd::prelude::*;

verus! {

#[derive(Clone, Debug, PartialEq, Eq)]
pub enum VerificationStatus {
    Passed,
    Failed(String),
}

/// One named check and its outcome.
#[derive(Clone, Debug, PartialEq, Eq)]
pub struct VerificationCheck {
    pub name: String,
    pub passed: bool,
    pub message: String,
}

/// Counts of what verification confirmed.
#[derive(Clone, Copy, Debug, PartialEq, Eq)]
pub struct VerificationSummary {
    pub moves_verified: usize,
    pub content_preserved: usize,
    pub sources_removed: usize,
    pub destinations_present: usize,
    pub dirs_created: usize,
    pub paths_deleted: usize,
    pub total_failed_checks: usize,
}

impl VerificationSummary {
    /// All counts zero.
    pub fn new() -> (r: VerificationSummary)
        ensures
            r.moves_verified == 0 && r.content_preserved == 0 && r.sources_removed == 0 && r.destinations_present
                == 0 && r.dirs_created == 0 && r.paths_deleted == 0 && r.total_failed_checks == 0,
    {
        VerificationSummary {
            moves_verified: 0,
            content_preserved: 0,
            sources_removed: 0,
            destinations_present: 0,
            dirs_created: 0,
            paths_deleted: 0,
            total_failed_checks: 0,
        }
    }
}

impl Default for VerificationSummary {
    fn default() -> (r: VerificationSummary)
        ensures
            r.moves_verified == 0 && r.content_preserved == 0 && r.sources_removed == 0 && r.destinations_present
                == 0 && r.dirs_created == 0 && r.paths_deleted == 0 && r.total_failed_checks == 0,
    {
        VerificationSummary::new()
    }
}

/// The outcome of verifying an execution.
#[derive(Clone, Debug, PartialEq, Eq)]
pub struct ExecutionVerificationResult {
    pub status: VerificationStatus,
    pub checks: Vec<VerificationCheck>,
    pub summary: VerificationSummary,
}

/// The lines listing the checks: a tick or cross and the name, and for a
/// failed check its message on the next line.
pub open spec fn check_lines(cs: Seq<VerificationCheck>) -> Seq<char>
    decreases cs.len(),
{
    if cs.len() == 0 {
        seq![]
    } else {
        let c = cs.last();
        let line = (if c.passed { "  ✓"@ } else { "  ✗"@ }) + " "@ + c.name@ + "\n"@;
        let more = if c.passed { seq![] } else { "    → "@ + c.message@ + "\n"@ };
        check_lines(cs.drop_last()) + line + more
    }
}

/// The rendered report: the summary counts, a blank line, then the checks.
pub open spec fn render_spec(r: ExecutionVerificationResult) -> Seq<char> {
    let s = r.summary;
    "Verification:\n"@ + "  Moves verified: "@ + decimal(s.moves_verified as nat) + "\n"@ + "  Content preserved: "@
        + decimal(s.content_preserved as nat) + "\n"@ + "  Sources removed: "@ + decimal(s.sources_removed as nat)
        + "\n"@ + "  Destinations present: "@ + decimal(s.destinations_present as nat) + "\n"@ + "  Dirs created: "@
        + decimal(s.dirs_created as nat) + "\n"@ + "  Paths deleted: "@ + decimal(s.paths_deleted as nat) + "\n"@
        + "  Failed checks: "@ + decimal(s.total_failed_checks as nat) + "\n"@ + "\n"@ + check_lines(r.checks@)
}

/// Appends `label`, the number and a newline.
fn push_count(out: &mut String, label: &str, n: usize)
    ensures
        final(out)@ == old(out)@ + label@ + decimal(n as nat) + "\n"@,
{
    out.append(label);
    out.append(usize_to_text(n).as_str());
    out.append("\n");
}

impl ExecutionVerificationResult {
    /// Whether verification passed.
    pub fn passed(&self) -> (b: bool)
        ensures
            b == (self.status is Passed),
    {
        match self.status {
            VerificationStatus::Passed => true,
            _ => false,
        }
    }

    /// The report as text.
    pub fn render(&self) -> (r: String)
        ensures
            r@ == render_spec(*self),
    {
        let mut out = owned("Verification:\n");
        push_count(&mut out, "  Moves verified: ", self.summary.moves_verified);
        push_count(&mut out, "  Content preserved: ", self.summary.content_preserved);
        push_count(&mut out, "  Sources removed: ", self.summary.sources_removed);
        push_count(&mut out, "  Destinations present: ", self.summary.destinations_present);
        push_count(&mut out, "  Dirs created: ", self.summary.dirs_created);
        push_count(&mut out, "  Paths deleted: ", self.summary.paths_deleted);
        push_count(&mut out, "  Failed checks: ", self.summary.total_failed_checks);
        out.append("\n");
        let ghost head = out@;
        let mut i: usize = 0;
        while i < self.checks.len()
            invariant
                i <= self.checks@.len(),
                out@ == head + check_lines(self.checks@.subrange(0, i as int)),
            decreases self.checks@.len() - i,
        {
            let c = &self.checks[i];
            let ghost pre = self.checks@.subrange(0, i as int);
            assert(self.checks@.subrange(0, i + 1).drop_last() =~= pre);
            assert(self.checks@.subrange(0, i + 1).last() == *c);
            if c.passed {
                out.append("  ✓");
            } else {
                out.append("  ✗");
            }
            out.append(" ");
            out.append(c.name.as_str());
            out.append("\n");
            if !c.passed {
                out.append("    → ");
                out.append(c.message.as_str());
                out.append("\n");
            }
            i = i + 1;
        }
        assert(self.checks@.subrange(0, i as int) =~= self.checks@);
        out
    }
}


// ------------------------------------------------------ captured state

/// What a path held when the state was captured.
#[derive(Clone, Debug, PartialEq, Eq)]
pub enum FilesystemState {
    Dir,
    File(Vec<u8>),
}

pub enum FsStateView {
    Dir,
    File(Seq<u8>),
}

impl View for FilesystemState {
    type V = FsStateView;

    open spec fn view(&self) -> FsStateView {
        match self {
            FilesystemState::Dir => FsStateView::Dir,
            FilesystemState::File(b) => FsStateView::File(b@),
        }
    }
}

/// The entries under a directory, each path once, as captured at one moment.
pub struct CapturedState {
    entries: Vec<(FsPath, FilesystemState)>,
}

pub open spec fn keys_distinct(es: Seq<(PathView, FsStateView)>) -> bool {
    forall|i: int, j: int| 0 <= i < j < es.len() ==> (#[trigger] es[i]).0 != (#[trigger] es[j]).0
}

/// The state captured for `p`, if any.
pub open spec fn state_at(es: Seq<(PathView, FsStateView)>, p: PathView) -> Option<FsStateView>
    decreases es.len(),
{
    if es.len() == 0 {
        None
    } else if es.last().0 == p {
        Some(es.last().1)
    } else {
        state_at(es.drop_last(), p)
    }
}

impl View for CapturedState {
    type V = Seq<(PathView, FsStateView)>;

    closed spec fn view(&self) -> Seq<(PathView, FsStateView)> {
        self.entries@.map_values(|e: (FsPath, FilesystemState)| (e.0@, e.1@))
    }
}

fn bytes_equal(a: &Vec<u8>, b: &Vec<u8>) -> (r: bool)
    ensures
        r == (a@ == b@),
{
    if a.len() != b.len() {
        return false;
    }
    let mut i: usize = 0;
    while i < a.len()
        invariant
            a@.len() == b@.len(),
            i <= a@.len(),
            forall|k: int| 0 <= k < i ==> a@[k] == b@[k],
        decreases a@.len() - i,
    {
        if a[i] != b[i] {
            return false;
        }
        i = i + 1;
    }
    assert(a@ =~= b@);
    true
}

impl FilesystemState {
    /// An independent copy.
    pub fn copy(&self) -> (r: FilesystemState)
        ensures
            r@ == self@,
    {
        match self {
            FilesystemState::Dir => FilesystemState::Dir,
            FilesystemState::File(b) => {
                let mut c: Vec<u8> = Vec::new();
                let mut i: usize = 0;
                while i < b.len()
                    invariant
                        i <= b@.len(),
                        c@ == b@.take(i as int),
                    decreases b@.len() - i,
                {
                    c.push(b[i]);
                    i = i + 1;
                    assert(c@ =~= b@.take(i as int));
                }
                assert(b@.take(b@.len() as int) =~= b@);
                FilesystemState::File(c)
            },
        }
    }

    /// Whether two captured states are the same.
    pub fn same_as(&self, other: &FilesystemState) -> (b: bool)
        ensures
            b == (self@ == other@),
    {
        match (self, other) {
            (FilesystemState::Dir, FilesystemState::Dir) => true,
            (FilesystemState::File(a), FilesystemState::File(b)) => bytes_equal(a, b),
            _ => false,
        }
    }
}

impl CapturedState {
    #[verifier::type_invariant]
    closed spec fn inv(self) -> bool {
        keys_distinct(self@)
    }

    /// Nothing captured.
    pub fn new() -> (r: CapturedState)
        ensures
            r@ == Seq::<(PathView, FsStateView)>::empty(),
    {
        let r = CapturedState { entries: Vec::new() };
        assert(r@ =~= Seq::<(PathView, FsStateView)>::empty());
        r
    }

    fn position(&self, p: &FsPath) -> (r: Option<usize>)
        ensures
            match r {
                Some(i) => i < self@.len() && self@[i as int].0 == p@,
                None => forall|k: int| 0 <= k < self@.len() ==> self@[k].0 != p@,
            },
    {
        let ghost v = self@;
        let mut i: usize = 0;
        while i < self.entries.len()
            invariant
                i <= self.entries@.len(),
                v == self@,
                forall|k: int| 0 <= k < i ==> v[k].0 != p@,
            decreases self.entries@.len() - i,
        {
            if self.entries[i].0.same_as(p) {
                return Some(i);
            }
            i = i + 1;
        }
        None
    }

    /// Records `state` for `path`, replacing what was recorded for it.
    pub fn insert(&mut self, path: FsPath, state: FilesystemState)
        ensures
            state_at(final(self)@, path@) == Some(state@),
            forall|q: PathView| q != path@ ==> state_at(final(self)@, q) == state_at(old(self)@, q),
            final(self)@.len() == old(self)@.len() + if state_at(old(self)@, path@) is Some { 0int } else { 1int },
            keys_distinct(final(self)@),
    {
        proof {
            use_type_invariant(&*self);
        }
        let ghost before = self@;
        let ghost pv = path@;
        let ghost sv = state@;
        let mut entries: Vec<(FsPath, FilesystemState)> = Vec::new();
        match self.position(&path) {
            Some(i) => {
                std::mem::swap(&mut entries, &mut self.entries);
                entries.set(i, (path, state));
                proof {
                    lemma_state_at_update(before, i as int, pv, sv);
                    lemma_state_at_present(before, i as int);
                }
                assert(entries@.map_values(|e: (FsPath, FilesystemState)| (e.0@, e.1@)) =~= before.update(i as int, (pv, sv)));
                self.entries = entries;
            },
            None => {
                proof {
                    lemma_state_at_absent(before, pv);
                }
                std::mem::swap(&mut entries, &mut self.entries);
                entries.push((path, state));
                assert(entries@.map_values(|e: (FsPath, FilesystemState)| (e.0@, e.1@)) =~= before.push((pv, sv)));
                assert(keys_distinct(before.push((pv, sv))));
                assert(before.push((pv, sv)).drop_last() =~= before);
                self.entries = entries;
            },
        }
    }

    /// The number of captured paths.
    pub fn len(&self) -> (n: usize)
        ensures
            n == self@.len(),
    {
        self.entries.len()
    }

    /// The captured entries, in the order they were first recorded.
    pub fn entry(&self, i: usize) -> (r: (&FsPath, &FilesystemState))
        requires
            i < self@.len(),
        ensures
            (r.0@, r.1@) == self@[i as int],
    {
        (&self.entries[i].0, &self.entries[i].1)
    }

    /// What was captured for `p`.
    pub fn get(&self, p: &FsPath) -> (r: Option<&FilesystemState>)
        ensures
            match r {
                Some(s) => state_at(self@, p@) == Some(s@),
                None => state_at(self@, p@) is None,
            },
    {
        let mut i: usize = self.entries.len();
        let ghost v = self@;
        assert(v.take(i as int) =~= v);
        while i > 0
            invariant
                i <= v.len(),
                v == self@,
                state_at(v, p@) == state_at(v.take(i as int), p@),
            decreases i,
        {
            assert(v.take(i as int).drop_last() =~= v.take(i - 1));
            assert(v.take(i as int).last() == v[i - 1]);
            if self.entries[i - 1].0.same_as(p) {
                return Some(&self.entries[i - 1].1);
            }
            i = i - 1;
        }
        None
    }
}

proof fn lemma_state_at_absent(es: Seq<(PathView, FsStateView)>, p: PathView)
    requires
        forall|k: int| 0 <= k < es.len() ==> es[k].0 != p,
    ensures
        state_at(es, p) is None,
    decreases es.len(),
{
    if es.len() > 0 {
        lemma_state_at_absent(es.drop_last(), p);
    }
}

proof fn lemma_state_at_present(es: Seq<(PathView, FsStateView)>, i: int)
    requires
        keys_distinct(es),
        0 <= i < es.len(),
    ensures
        state_at(es, es[i].0) == Some(es[i].1),
    decreases es.len(),
{
    if i < es.len() - 1 {
        assert(keys_distinct(es.drop_last()));
        lemma_state_at_present(es.drop_last(), i);
    }
}

proof fn lemma_state_at_other(es: Seq<(PathView, FsStateView)>, i: int, v: (PathView, FsStateView), q: PathView)
    requires
        0 <= i < es.len(),
        q != es[i].0,
        q != v.0,
    ensures
        state_at(es.update(i, v), q) == state_at(es, q),
    decreases es.len(),
{
    if i < es.len() - 1 {
        assert(es.update(i, v).drop_last() =~= es.drop_last().update(i, v));
        lemma_state_at_other(es.drop_last(), i, v, q);
    } else {
        assert(es.update(i, v).drop_last() =~= es.drop_last());
    }
}

proof fn lemma_state_at_update(es: Seq<(PathView, FsStateView)>, i: int, p: PathView, s: FsStateView)
    requires
        keys_distinct(es),
        0 <= i < es.len(),
        es[i].0 == p,
    ensures
        keys_distinct(es.update(i, (p, s))),
        state_at(es.update(i, (p, s)), p) == Some(s),
        forall|q: PathView| q != p ==> state_at(es.update(i, (p, s)), q) == state_at(es, q),
{
    let u = es.update(i, (p, s));
    assert(keys_distinct(u)) by {
        assert forall|a: int, b: int| 0 <= a < b < u.len() implies (#[trigger] u[a]).0 != (#[trigger] u[b]).0 by {
            assert(es[a].0 == u[a].0 && es[b].0 == u[b].0);
        }
    }
    lemma_state_at_present(u, i);
    assert forall|q: PathView| q != p implies state_at(u, q) == state_at(es, q) by {
        lemma_state_at_other(es, i, (p, s), q);
    }
}


// ------------------------------------------------------ verification

/// Verification state: the checks and failure messages so far, and the counts.
#[verifier::ext_equal]
pub struct VState {
    pub checks: Seq<(Seq<char>, bool, Seq<char>)>,
    pub failures: Seq<Seq<char>>,
    pub moves_verified: nat,
    pub content_preserved: nat,
    pub sources_removed: nat,
    pub destinations_present: nat,
    pub dirs_created: nat,
    pub paths_deleted: nat,
    pub total_failed: nat,
}

pub open spec fn empty_vstate() -> VState {
    VState {
        checks: seq![],
        failures: seq![],
        moves_verified: 0,
        content_preserved: 0,
        sources_removed: 0,
        destinations_present: 0,
        dirs_created: 0,
        paths_deleted: 0,
        total_failed: 0,
    }
}

/// A failed check: recorded, its message kept, the failure counted.
pub open spec fn failed(st: VState, name: Seq<char>, msg: Seq<char>) -> VState {
    VState {
        checks: st.checks.push((name, false, msg)),
        failures: st.failures.push(msg),
        total_failed: st.total_failed + 1,
        ..st
    }
}

/// A passed check.
pub open spec fn passed_check(st: VState, name: Seq<char>, msg: Seq<char>) -> VState {
    VState { checks: st.checks.push((name, true, msg)), ..st }
}

/// The first log entry with the given id.
pub open spec fn entry_with_id(es: Seq<crate::executor::LogEntry>, id: Seq<char>) -> Option<crate::executor::LogEntry>
    decreases es.len(),
{
    if es.len() == 0 {
        None
    } else if es[0].id@ == id {
        Some(es[0])
    } else {
        entry_with_id(es.drop_first(), id)
    }
}

/// The operation is checked unless its log entry records something other than success.
pub open spec fn counted_as_done(es: Seq<crate::executor::LogEntry>, id: Seq<char>) -> bool {
    match entry_with_id(es, id) {
        Some(e) => e.status@ is Success,
        None => true,
    }
}

/// The checks for a completed move.
pub open spec fn verify_move(
    st: VState,
    source: PathView,
    dest: PathView,
    before: Seq<(PathView, FsStateView)>,
    now: FsView,
    reads: Seq<(PathView, FsStateView)>,
) -> VState {
    let s = display_spec(source);
    let d = display_spec(dest);
    let seb = state_at(before, source) is Some;
    let sen = exists_in(now, source);
    let st1 = if seb && sen {
        failed(st, "Move source removed: "@ + s, "Source still exists after move: "@ + s)
    } else if seb && !sen {
        VState {
            sources_removed: st.sources_removed + 1,
            ..passed_check(st, "Move source removed: "@ + s, "Source existed before and was successfully removed"@)
        }
    } else {
        st
    };
    let st2 = if !exists_in(now, dest) || !is_file_in(now, dest) {
        failed(st1, "Move destination valid: "@ + d, "Destination missing or not a file: "@ + d)
    } else if seb {
        let stc = match state_at(before, source) {
            Some(FsStateView::File(bc)) => match state_at(reads, dest) {
                Some(FsStateView::File(ac)) => if bc != ac {
                    failed(
                        st1,
                        "Content preserved: "@ + d,
                        "Content mismatch at destination: "@ + d + " (expected "@ + decimal(bc.len()) + " bytes, got "@
                            + decimal(ac.len()) + " bytes)"@,
                    )
                } else {
                    VState {
                        content_preserved: st1.content_preserved + 1,
                        ..passed_check(st1, "Content preserved: "@ + d, "Destination content matches source content"@)
                    }
                },
                _ => failed(st1, "Destination file readable: "@ + d, "Could not read destination file: "@ + d),
            },
            _ => st1,
        };
        VState {
            destinations_present: stc.destinations_present + 1,
            ..passed_check(stc, "Move destination valid: "@ + d, "Destination exists and is a file"@)
        }
    } else {
        st1
    };
    VState { moves_verified: st2.moves_verified + 1, ..st2 }
}

/// The checks for one completed operation.
pub open spec fn verify_op(
    st: VState,
    op: OpView,
    before: Seq<(PathView, FsStateView)>,
    now: FsView,
    reads: Seq<(PathView, FsStateView)>,
) -> VState {
    match op {
        OpView::Move { source, dest } => verify_move(st, source, dest, before, now, reads),
        OpView::CreateDir { path } => {
            let p = display_spec(path);
            if !is_dir_in(now, path) {
                failed(st, "Directory created: "@ + p, "Created directory missing: "@ + p)
            } else if state_at(before, path) != Some(FsStateView::Dir) {
                VState {
                    dirs_created: st.dirs_created + 1,
                    ..passed_check(st, "Directory created: "@ + p, "Directory did not exist before and now exists"@)
                }
            } else {
                passed_check(st, "Directory preserved: "@ + p, "Directory existed before and still exists"@)
            }
        },
        OpView::Delete { path, .. } => {
            let p = display_spec(path);
            let eb = state_at(before, path) is Some;
            let en = exists_in(now, path);
            if eb && en {
                failed(st, "Path deleted: "@ + p, "Deleted path still exists: "@ + p)
            } else if eb && !en {
                VState {
                    paths_deleted: st.paths_deleted + 1,
                    ..passed_check(st, "Path deleted: "@ + p, "Path existed before and was successfully deleted"@)
                }
            } else {
                passed_check(st, "Path absent: "@ + p, "Path was not present before or after (no-op for delete)"@)
            }
        },
    }
}

/// The state after checking the first `k` operations; operations whose log
/// entry records a failure or a skip are not checked.
pub open spec fn verify_fold(
    init: VState,
    plan_id: Seq<char>,
    ops: Seq<OpView>,
    k: int,
    log: Seq<crate::executor::LogEntry>,
    before: Seq<(PathView, FsStateView)>,
    now: FsView,
    reads: Seq<(PathView, FsStateView)>,
) -> VState
    decreases k,
{
    if k <= 0 || k > ops.len() {
        init
    } else {
        let prev = verify_fold(init, plan_id, ops, k - 1, log, before, now, reads);
        if counted_as_done(log, crate::executor::entry_id_spec(plan_id, (k - 1) as nat)) {
            verify_op(prev, ops[k - 1], before, now, reads)
        } else {
            prev
        }
    }
}

/// The checks of an empty plan over the first `k` entries captured after it
/// ran: every entry must have been captured before, unchanged.
pub open spec fn noop_fold(before: Seq<(PathView, FsStateView)>, after: Seq<(PathView, FsStateView)>, k: int) -> VState
    decreases k,
{
    if k <= 0 || k > after.len() {
        empty_vstate()
    } else {
        let prev = noop_fold(before, after, k - 1);
        let (p, e) = after[k - 1];
        let d = display_spec(p);
        match state_at(before, p) {
            Some(be) => if be != e {
                failed(prev, "No-op unchanged: "@ + d, "Filesystem entry changed during no-op plan: "@ + d)
            } else {
                prev
            },
            None => failed(prev, "No-op no new entries: "@ + d, "New filesystem entry appeared during no-op plan: "@ + d),
        }
    }
}

/// The checks of an empty plan: the same number of entries, each unchanged.
pub open spec fn noop_checks(before: Seq<(PathView, FsStateView)>, after: Seq<(PathView, FsStateView)>) -> VState {
    if before.len() != after.len() {
        failed(
            empty_vstate(),
            "No-op plan: filesystem unchanged"@,
            "Filesystem changed during no-op plan (before: "@ + decimal(before.len()) + " entries, after: "@ + decimal(
                after.len(),
            ) + " entries)"@,
        )
    } else {
        let st = noop_fold(before, after, after.len() as int);
        if st.checks.len() == 0 {
            passed_check(
                st,
                "No-op plan: filesystem unchanged"@,
                "No mutations: before and after states match ("@ + decimal(before.len()) + " entries)"@,
            )
        } else {
            st
        }
    }
}

/// Failure messages joined with `; `.
pub open spec fn joined(ms: Seq<Seq<char>>) -> Seq<char>
    decreases ms.len(),
{
    if ms.len() == 0 {
        seq![]
    } else if ms.len() == 1 {
        ms[0]
    } else {
        joined(ms.drop_last()) + "; "@ + ms.last()
    }
}

/// The full verification state for a plan.
pub open spec fn verification_state(
    plan: OperationPlan,
    log: OperationLog,
    before: Seq<(PathView, FsStateView)>,
    after: Seq<(PathView, FsStateView)>,
    now: FsView,
    reads: Seq<(PathView, FsStateView)>,
) -> VState {
    let ops = ops_view(plan.operations@);
    let init = if ops.len() == 0 {
        noop_checks(before, after)
    } else {
        empty_vstate()
    };
    verify_fold(init, plan.id@, ops, ops.len() as int, log.entries@, before, now, reads)
}

pub open spec fn checks_view(cs: Seq<VerificationCheck>) -> Seq<(Seq<char>, bool, Seq<char>)> {
    cs.map_values(|c: VerificationCheck| (c.name@, c.passed, c.message@))
}

/// The result matches the state: the checks in order, the counts, and a
/// failed status joining every failure message.
pub open spec fn verification_matches(r: ExecutionVerificationResult, st: VState) -> bool {
    &&& checks_view(r.checks@) == st.checks
    &&& r.summary.moves_verified == st.moves_verified
    &&& r.summary.content_preserved == st.content_preserved
    &&& r.summary.sources_removed == st.sources_removed
    &&& r.summary.destinations_present == st.destinations_present
    &&& r.summary.dirs_created == st.dirs_created
    &&& r.summary.paths_deleted == st.paths_deleted
    &&& r.summary.total_failed_checks == st.total_failed
    &&& if st.failures.len() == 0 {
        r.status == VerificationStatus::Passed
    } else {
        r.status is Failed && r.status->Failed_0@ == joined(st.failures)
    }
}


/// Checks an execution against the filesystem before and after it.
pub struct ExecutionVerifier;

impl Default for ExecutionVerifier {
    fn default() -> (r: ExecutionVerifier) {
        ExecutionVerifier
    }
}

struct VerifyBuffers {
    checks: Vec<VerificationCheck>,
    failures: Vec<String>,
    summary: VerificationSummary,
}

impl VerifyBuffers {
    closed spec fn state(&self) -> VState {
        VState {
            checks: checks_view(self.checks@),
            failures: self.failures@.map_values(|m: String| m@),
            moves_verified: self.summary.moves_verified as nat,
            content_preserved: self.summary.content_preserved as nat,
            sources_removed: self.summary.sources_removed as nat,
            destinations_present: self.summary.destinations_present as nat,
            dirs_created: self.summary.dirs_created as nat,
            paths_deleted: self.summary.paths_deleted as nat,
            total_failed: self.summary.total_failed_checks as nat,
        }
    }

    closed spec fn counted(&self) -> nat {
        (self.summary.content_preserved + self.summary.sources_removed + self.summary.destinations_present
            + self.summary.dirs_created + self.summary.paths_deleted + self.summary.total_failed_checks) as nat
    }

    closed spec fn wf(&self) -> bool {
        self.counted() <= self.checks@.len()
    }

    fn new() -> (r: VerifyBuffers)
        ensures
            r.wf(),
            r.state() == empty_vstate(),
            r.summary.moves_verified == 0,
    {
        let r = VerifyBuffers { checks: Vec::new(), failures: Vec::new(), summary: VerificationSummary::new() };
        assert(r.state() =~= empty_vstate());
        r
    }

    fn fail(&mut self, name: String, msg: String)
        requires
            old(self).wf(),
        ensures
            final(self).wf(),
            final(self).state() == failed(old(self).state(), name@, msg@),
            final(self).summary.moves_verified == old(self).summary.moves_verified,
    {
        let ghost s0 = self.state();
        let m2 = msg.clone();
        self.checks.push(VerificationCheck { name, passed: false, message: msg });
        self.failures.push(m2);
        let n = self.checks.len();
        self.summary.total_failed_checks = self.summary.total_failed_checks + 1;
        assert(self.state() =~= failed(s0, name@, msg@));
    }

    fn pass(&mut self, name: String, msg: String)
        requires
            old(self).wf(),
        ensures
            final(self).wf(),
            final(self).counted() < final(self).checks@.len() <= usize::MAX,
            final(self).state() == passed_check(old(self).state(), name@, msg@),
            final(self).summary == old(self).summary,
    {
        let ghost s0 = self.state();
        self.checks.push(VerificationCheck { name, passed: true, message: msg });
        let n = self.checks.len();
        assert(self.state() =~= passed_check(s0, name@, msg@));
    }
}

fn find_entry(entries: &Vec<crate::executor::LogEntry>, id: &str) -> (r: Option<usize>)
    ensures
        match r {
            Some(k) => k < entries@.len() && entry_with_id(entries@, id@) == Some(entries@[k as int]),
            None => entry_with_id(entries@, id@) is None,
        },
{
    let mut i: usize = 0;
    assert(entries@.skip(0) =~= entries@);
    while i < entries.len()
        invariant
            i <= entries@.len(),
            entry_with_id(entries@, id@) == entry_with_id(entries@.skip(i as int), id@),
        decreases entries@.len() - i,
    {
        assert(entries@.skip(i as int)[0] == entries@[i as int]);
        assert(entries@.skip(i as int).drop_first() =~= entries@.skip(i + 1));
        if str_eq(entries[i].id.as_str(), id) {
            return Some(i);
        }
        i = i + 1;
    }
    None
}

impl ExecutionVerifier {
    fn verify_move_exec(
        buf: &mut VerifyBuffers,
        source: &FsPath,
        dest: &FsPath,
        before: &CapturedState,
        now: &FsSnapshot,
        reads: &CapturedState,
    )
        requires
            old(buf).wf(),
            old(buf).summary.moves_verified < usize::MAX,
        ensures
            final(buf).wf(),
            final(buf).state() == verify_move(old(buf).state(), source@, dest@, before@, now@, reads@),
            final(buf).summary.moves_verified == old(buf).summary.moves_verified + 1,
    {
        let ghost s0 = buf.state();
        let s = source.display();
        let d = dest.display();
        let seb = before.get(source).is_some();
        let sen = now.is_present(source);
        if seb && sen {
            buf.fail(cat("Move source removed: ", s.as_str()), cat("Source still exists after move: ", s.as_str()));
        } else if seb && !sen {
            buf.pass(cat("Move source removed: ", s.as_str()), owned("Source existed before and was successfully removed"));
            buf.summary.sources_removed = buf.summary.sources_removed + 1;
        }
        let ghost s1 = buf.state();
        assert(s1 == if seb && sen {
            failed(s0, "Move source removed: "@ + s@, "Source still exists after move: "@ + s@)
        } else if seb && !sen {
            VState {
                sources_removed: s0.sources_removed + 1,
                ..passed_check(s0, "Move source removed: "@ + s@, "Source existed before and was successfully removed"@)
            }
        } else {
            s0
        });
        if !now.is_present(dest) || !now.is_file(dest) {
            buf.fail(cat("Move destination valid: ", d.as_str()), cat("Destination missing or not a file: ", d.as_str()));
        } else if seb {
            match before.get(source) {
                Some(FilesystemState::File(bc)) => {
                    match reads.get(dest) {
                        Some(FilesystemState::File(ac)) => {
                            if !bytes_equal(bc, ac) {
                                let a = cat3("Content mismatch at destination: ", d.as_str(), " (expected ");
                                let b = cat3(a.as_str(), usize_to_text(bc.len()).as_str(), " bytes, got ");
                                let m = cat3(b.as_str(), usize_to_text(ac.len()).as_str(), " bytes)");
                                buf.fail(cat("Content preserved: ", d.as_str()), m);
                            } else {
                                buf.pass(cat("Content preserved: ", d.as_str()), owned("Destination content matches source content"));
                                buf.summary.content_preserved = buf.summary.content_preserved + 1;
                            }
                        },
                        _ => {
                            buf.fail(cat("Destination file readable: ", d.as_str()), cat("Could not read destination file: ", d.as_str()));
                        },
                    }
                },
                _ => {},
            }
            buf.pass(cat("Move destination valid: ", d.as_str()), owned("Destination exists and is a file"));
            buf.summary.destinations_present = buf.summary.destinations_present + 1;
        }
        buf.summary.moves_verified = buf.summary.moves_verified + 1;
        assert(buf.state() =~= verify_move(s0, source@, dest@, before@, now@, reads@));
    }

    fn verify_op_exec(
        buf: &mut VerifyBuffers,
        op: &FileSystemOperation,
        before: &CapturedState,
        now: &FsSnapshot,
        reads: &CapturedState,
    )
        requires
            old(buf).wf(),
            old(buf).summary.moves_verified < usize::MAX,
        ensures
            final(buf).wf(),
            final(buf).state() == verify_op(old(buf).state(), op@, before@, now@, reads@),
            final(buf).summary.moves_verified <= old(buf).summary.moves_verified + 1,
    {
        let ghost s0 = buf.state();
        match op {
            FileSystemOperation::Move { source, dest } => {
                Self::verify_move_exec(buf, source, dest, before, now, reads);
            },
            FileSystemOperation::CreateDir { path } => {
                let p = path.display();
                if !now.is_dir(path) {
                    buf.fail(cat("Directory created: ", p.as_str()), cat("Created directory missing: ", p.as_str()));
                } else {
                    let was_dir = match before.get(path) {
                        Some(FilesystemState::Dir) => true,
                        _ => false,
                    };
                    if !was_dir {
                        buf.pass(cat("Directory created: ", p.as_str()), owned("Directory did not exist before and now exists"));
                        buf.summary.dirs_created = buf.summary.dirs_created + 1;
                    } else {
                        buf.pass(cat("Directory preserved: ", p.as_str()), owned("Directory existed before and still exists"));
                    }
                }
                assert(buf.state() =~= verify_op(s0, op@, before@, now@, reads@));
            },
            FileSystemOperation::Delete { path, .. } => {
                let p = path.display();
                let eb = before.get(path).is_some();
                let en = now.is_present(path);
                if eb && en {
                    buf.fail(cat("Path deleted: ", p.as_str()), cat("Deleted path still exists: ", p.as_str()));
                } else if eb && !en {
                    buf.pass(cat("Path deleted: ", p.as_str()), owned("Path existed before and was successfully deleted"));
                    buf.summary.paths_deleted = buf.summary.paths_deleted + 1;
                } else {
                    buf.pass(cat("Path absent: ", p.as_str()), owned("Path was not present before or after (no-op for delete)"));
                }
                assert(buf.state() =~= verify_op(s0, op@, before@, now@, reads@));
            },
        }
    }
}


pub(crate) fn join_messages(ms: &Vec<String>) -> (r: String)
    ensures
        r@ == joined(ms@.map_values(|m: String| m@)),
{
    let ghost mv = ms@.map_values(|m: String| m@);
    let mut out = String::new();
    let mut i: usize = 0;
    while i < ms.len()
        invariant
            i <= ms@.len(),
            mv == ms@.map_values(|m: String| m@),
            out@ == joined(mv.take(i as int)),
        decreases ms@.len() - i,
    {
        assert(mv.take(i + 1).drop_last() =~= mv.take(i as int));
        assert(mv.take(i + 1).last() == ms@[i as int]@);
        if i == 0 {
            out.append(ms[i].as_str());
            assert(out@ =~= joined(mv.take(1)));
        } else {
            out.append("; ");
            out.append(ms[i].as_str());
        }
        i = i + 1;
    }
    assert(mv.take(ms@.len() as int) =~= mv);
    out
}

impl ExecutionVerifier {
    fn noop_exec(buf: &mut VerifyBuffers, before: &CapturedState, after: &CapturedState)
        requires
            old(buf).wf(),
            old(buf).state() == empty_vstate(),
            old(buf).summary.moves_verified == 0,
        ensures
            final(buf).wf(),
            final(buf).state() == noop_checks(before@, after@),
            final(buf).summary.moves_verified == 0,
    {
        if before.len() != after.len() {
            let a = cat3("Filesystem changed during no-op plan (before: ", usize_to_text(before.len()).as_str(), " entries, after: ");
            let m = cat3(a.as_str(), usize_to_text(after.len()).as_str(), " entries)");
            buf.fail(owned("No-op plan: filesystem unchanged"), m);
            return;
        }
        let mut k: usize = 0;
        while k < after.len()
            invariant
                k <= after@.len(),
                buf.wf(),
                buf.summary.moves_verified == 0,
                buf.state() == noop_fold(before@, after@, k as int),
            decreases after@.len() - k,
        {
            let (p, e) = after.entry(k);
            let d = p.display();
            match before.get(p) {
                Some(be) => {
                    if !be.same_as(e) {
                        buf.fail(cat("No-op unchanged: ", d.as_str()), cat("Filesystem entry changed during no-op plan: ", d.as_str()));
                    }
                },
                None => {
                    buf.fail(cat("No-op no new entries: ", d.as_str()), cat("New filesystem entry appeared during no-op plan: ", d.as_str()));
                },
            }
            k = k + 1;
        }
        if buf.checks.len() == 0 {
            let m = cat3("No mutations: before and after states match (", usize_to_text(before.len()).as_str(), " entries)");
            buf.pass(owned("No-op plan: filesystem unchanged"), m);
        }
    }

    /// Checks an execution: for an empty plan that nothing changed; for each
    /// operation whose log entry does not record a failure or a skip, what it
    /// should have left behind. `before` and `after` are the entries under the
    /// scope captured before and after, `now` the state of the plan's paths
    /// after, and `reads` what reading each move destination gave (a
    /// destination is absent when it could not be read).
    pub fn verify(
        &self,
        plan: &OperationPlan,
        log: &OperationLog,
        before: &CapturedState,
        after: &CapturedState,
        now: &FsSnapshot,
        reads: &CapturedState,
    ) -> (r: ExecutionVerificationResult)
        ensures
            verification_matches(r, verification_state(*plan, *log, before@, after@, now@, reads@)),
    {
        let ops = &plan.operations;
        let ghost v = ops_view(ops@);
        let mut buf = VerifyBuffers::new();
        if ops.len() == 0 {
            Self::noop_exec(&mut buf, before, after);
        }
        let ghost init = buf.state();
        let mut i: usize = 0;
        while i < ops.len()
            invariant
                i <= ops@.len(),
                v == ops_view(ops@),
                buf.wf(),
                buf.summary.moves_verified <= i,
                buf.state() == verify_fold(init, plan.id@, v, i as int, log.entries@, before@, now@, reads@),
            decreases ops@.len() - i,
        {
            let a = cat3("entry-", plan.id.as_str(), "-");
            let id = cat(a.as_str(), usize_to_text(i).as_str());
            let done = match find_entry(&log.entries, id.as_str()) {
                Some(k) => log.entries[k].status.is_success(),
                None => true,
            };
            assert(v[i as int] == ops@[i as int]@);
            if done {
                Self::verify_op_exec(&mut buf, &ops[i], before, now, reads);
            }
            i = i + 1;
        }
        let status = if buf.failures.len() == 0 {
            VerificationStatus::Passed
        } else {
            VerificationStatus::Failed(join_messages(&buf.failures))
        };
        ExecutionVerificationResult { status, checks: buf.checks, summary: buf.summary }
    }
}


/// An operation left behind what it should have: a moved file is gone from
/// its source and is a file at its destination, with the content it had
/// before (when it was captured as a file); a created directory is a
/// directory; a deleted path is gone.
pub open spec fn carried_out(
    op: OpView,
    before: Seq<(PathView, FsStateView)>,
    now: FsView,
    reads: Seq<(PathView, FsStateView)>,
) -> bool {
    match op {
        OpView::Move { source, dest } => {
            &&& !exists_in(now, source)
            &&& exists_in(now, dest)
            &&& is_file_in(now, dest)
            &&& (state_at(before, source) matches Some(FsStateView::File(bc)) ==> state_at(reads, dest) == Some(
                FsStateView::File(bc),
            ))
        },
        OpView::CreateDir { path } => is_dir_in(now, path),
        OpView::Delete { path, .. } => !exists_in(now, path),
    }
}

proof fn lemma_verify_op_keeps_failures(
    st: VState,
    op: OpView,
    before: Seq<(PathView, FsStateView)>,
    now: FsView,
    reads: Seq<(PathView, FsStateView)>,
)
    requires
        carried_out(op, before, now, reads),
    ensures
        verify_op(st, op, before, now, reads).failures == st.failures,
{
}

proof fn lemma_fold_keeps_failures(
    init: VState,
    plan_id: Seq<char>,
    ops: Seq<OpView>,
    k: int,
    log: Seq<crate::executor::LogEntry>,
    before: Seq<(PathView, FsStateView)>,
    now: FsView,
    reads: Seq<(PathView, FsStateView)>,
)
    requires
        forall|i: int| 0 <= i < ops.len() ==> carried_out(#[trigger] ops[i], before, now, reads),
    ensures
        verify_fold(init, plan_id, ops, k, log, before, now, reads).failures == init.failures,
    decreases k,
{
    if k > 0 && k <= ops.len() {
        lemma_fold_keeps_failures(init, plan_id, ops, k - 1, log, before, now, reads);
        let prev = verify_fold(init, plan_id, ops, k - 1, log, before, now, reads);
        lemma_verify_op_keeps_failures(prev, ops[k - 1], before, now, reads);
    }
}

proof fn lemma_noop_fold_same(es: Seq<(PathView, FsStateView)>, k: int)
    requires
        keys_distinct(es),
        0 <= k <= es.len(),
    ensures
        noop_fold(es, es, k).failures.len() == 0,
        noop_fold(es, es, k).checks.len() == 0,
    decreases k,
{
    if k > 0 {
        lemma_noop_fold_same(es, k - 1);
        lemma_state_at_present(es, k - 1);
    }
}

/// An execution that did what its plan says passes verification: when every
/// operation of the plan was carried out (for an empty plan: when the scope
/// was captured the same before and after), the verification reports no
/// failure, whatever the log records.
pub proof fn law_faithful_execution_passes(
    plan: OperationPlan,
    log: OperationLog,
    before: Seq<(PathView, FsStateView)>,
    after: Seq<(PathView, FsStateView)>,
    now: FsView,
    reads: Seq<(PathView, FsStateView)>,
)
    requires
        keys_distinct(before),
        forall|i: int|
            0 <= i < plan.operations@.len() ==> carried_out(#[trigger] plan.operations@[i]@, before, now, reads),
        plan.operations@.len() == 0 ==> after == before,
    ensures
        verification_state(plan, log, before, after, now, reads).failures.len() == 0,
        forall|r: ExecutionVerificationResult|
            #[trigger] verification_matches(r, verification_state(plan, log, before, after, now, reads)) ==> r.status
                == VerificationStatus::Passed,
{
    let ops = ops_view(plan.operations@);
    assert forall|i: int| 0 <= i < ops.len() implies carried_out(#[trigger] ops[i], before, now, reads) by {
        assert(ops[i] == plan.operations@[i]@);
    }
    let init = if ops.len() == 0 {
        noop_checks(before, after)
    } else {
        empty_vstate()
    };
    if ops.len() == 0 {
        lemma_noop_fold_same(before, before.len() as int);
    }
    lemma_fold_keeps_failures(init, plan.id@, ops, ops.len() as int, log.entries@, before, now, reads);
}


/// What verification requires of one checked operation: a moved file that
/// was captured before is gone from its source, the destination is a file,
/// and a source captured as a file arrives with the same bytes; a created
/// directory is a directory; a deleted path that was captured before is gone.
pub open spec fn passes_checks(
    op: OpView,
    before: Seq<(PathView, FsStateView)>,
    now: FsView,
    reads: Seq<(PathView, FsStateView)>,
) -> bool {
    match op {
        OpView::Move { source, dest } => {
            &&& !(state_at(before, source) is Some && exists_in(now, source))
            &&& exists_in(now, dest)
            &&& is_file_in(now, dest)
            &&& (state_at(before, source) matches Some(FsStateView::File(bc)) ==> state_at(reads, dest) == Some(
                FsStateView::File(bc),
            ))
        },
        OpView::CreateDir { path } => is_dir_in(now, path),
        OpView::Delete { path, .. } => !(state_at(before, path) is Some && exists_in(now, path)),
    }
}

/// The scope captured after an empty plan holds as many entries as before,
/// each of them captured before with the same state.
pub open spec fn unchanged_capture(before: Seq<(PathView, FsStateView)>, after: Seq<(PathView, FsStateView)>) -> bool {
    &&& before.len() == after.len()
    &&& forall|k: int| 0 <= k < after.len() ==> state_at(before, (#[trigger] after[k]).0) == Some(after[k].1)
}

/// The number of failed checks.
pub open spec fn failed_checks(cs: Seq<(Seq<char>, bool, Seq<char>)>) -> nat
    decreases cs.len(),
{
    if cs.len() == 0 {
        0
    } else {
        failed_checks(cs.drop_last()) + if cs.last().1 { 0nat } else { 1nat }
    }
}

/// The failure count is the number of failure messages and of failed checks.
pub open spec fn tally_consistent(st: VState) -> bool {
    &&& st.total_failed == st.failures.len()
    &&& st.failures.len() == failed_checks(st.checks)
}

proof fn lemma_failed_keeps_tally(st: VState, name: Seq<char>, msg: Seq<char>)
    requires
        tally_consistent(st),
    ensures
        tally_consistent(failed(st, name, msg)),
        failed(st, name, msg).failures.len() == st.failures.len() + 1,
{
    assert(failed(st, name, msg).checks.drop_last() =~= st.checks);
}

proof fn lemma_passed_keeps_tally(st: VState, name: Seq<char>, msg: Seq<char>)
    requires
        tally_consistent(st),
    ensures
        tally_consistent(passed_check(st, name, msg)),
{
    assert(passed_check(st, name, msg).checks.drop_last() =~= st.checks);
}

proof fn lemma_verify_op_tally(
    st: VState,
    op: OpView,
    before: Seq<(PathView, FsStateView)>,
    now: FsView,
    reads: Seq<(PathView, FsStateView)>,
)
    requires
        tally_consistent(st),
    ensures
        tally_consistent(verify_op(st, op, before, now, reads)),
        verify_op(st, op, before, now, reads).failures.len() >= st.failures.len(),
        verify_op(st, op, before, now, reads).failures.len() == st.failures.len() <==> passes_checks(
            op,
            before,
            now,
            reads,
        ),
{
    match op {
        OpView::Move { source, dest } => {
            let s = display_spec(source);
            let d = display_spec(dest);
            let seb = state_at(before, source) is Some;
            let sen = exists_in(now, source);
            lemma_failed_keeps_tally(st, "Move source removed: "@ + s, "Source still exists after move: "@ + s);
            lemma_passed_keeps_tally(st, "Move source removed: "@ + s, "Source existed before and was successfully removed"@);
            let st1 = if seb && sen {
                failed(st, "Move source removed: "@ + s, "Source still exists after move: "@ + s)
            } else if seb && !sen {
                VState {
                    sources_removed: st.sources_removed + 1,
                    ..passed_check(st, "Move source removed: "@ + s, "Source existed before and was successfully removed"@)
                }
            } else {
                st
            };
            assert(tally_consistent(st1));
            lemma_failed_keeps_tally(st1, "Move destination valid: "@ + d, "Destination missing or not a file: "@ + d);
            match state_at(before, source) {
                Some(FsStateView::File(bc)) => match state_at(reads, dest) {
                    Some(FsStateView::File(ac)) => {
                        lemma_failed_keeps_tally(
                            st1,
                            "Content preserved: "@ + d,
                            "Content mismatch at destination: "@ + d + " (expected "@ + decimal(bc.len()) + " bytes, got "@
                                + decimal(ac.len()) + " bytes)"@,
                        );
                        lemma_passed_keeps_tally(st1, "Content preserved: "@ + d, "Destination content matches source content"@);
                    },
                    _ => {
                        lemma_failed_keeps_tally(st1, "Destination file readable: "@ + d, "Could not read destination file: "@ + d);
                    },
                },
                _ => {},
            }
            let stc = match state_at(before, source) {
                Some(FsStateView::File(bc)) => match state_at(reads, dest) {
                    Some(FsStateView::File(ac)) => if bc != ac {
                        failed(
                            st1,
                            "Content preserved: "@ + d,
                            "Content mismatch at destination: "@ + d + " (expected "@ + decimal(bc.len()) + " bytes, got "@
                                + decimal(ac.len()) + " bytes)"@,
                        )
                    } else {
                        VState {
                            content_preserved: st1.content_preserved + 1,
                            ..passed_check(st1, "Content preserved: "@ + d, "Destination content matches source content"@)
                        }
                    },
                    _ => failed(st1, "Destination file readable: "@ + d, "Could not read destination file: "@ + d),
                },
                _ => st1,
            };
            assert(tally_consistent(stc));
            lemma_passed_keeps_tally(stc, "Move destination valid: "@ + d, "Destination exists and is a file"@);
        },
        OpView::CreateDir { path } => {
            let p = display_spec(path);
            lemma_failed_keeps_tally(st, "Directory created: "@ + p, "Created directory missing: "@ + p);
            lemma_passed_keeps_tally(st, "Directory created: "@ + p, "Directory did not exist before and now exists"@);
            lemma_passed_keeps_tally(st, "Directory preserved: "@ + p, "Directory existed before and still exists"@);
        },
        OpView::Delete { path, .. } => {
            let p = display_spec(path);
            lemma_failed_keeps_tally(st, "Path deleted: "@ + p, "Deleted path still exists: "@ + p);
            lemma_passed_keeps_tally(st, "Path deleted: "@ + p, "Path existed before and was successfully deleted"@);
            lemma_passed_keeps_tally(st, "Path absent: "@ + p, "Path was not present before or after (no-op for delete)"@);
        },
    }
}

proof fn lemma_verify_fold_tally(
    init: VState,
    plan_id: Seq<char>,
    ops: Seq<OpView>,
    k: int,
    log: Seq<crate::executor::LogEntry>,
    before: Seq<(PathView, FsStateView)>,
    now: FsView,
    reads: Seq<(PathView, FsStateView)>,
)
    requires
        tally_consistent(init),
        0 <= k <= ops.len(),
    ensures
        tally_consistent(verify_fold(init, plan_id, ops, k, log, before, now, reads)),
        verify_fold(init, plan_id, ops, k, log, before, now, reads).failures.len() >= init.failures.len(),
        verify_fold(init, plan_id, ops, k, log, before, now, reads).failures.len() == init.failures.len() <==> forall|i: int|
            0 <= i < k && counted_as_done(log, crate::executor::entry_id_spec(plan_id, i as nat)) ==> passes_checks(
                #[trigger] ops[i],
                before,
                now,
                reads,
            ),
    decreases k,
{
    if k > 0 {
        lemma_verify_fold_tally(init, plan_id, ops, k - 1, log, before, now, reads);
        let prev = verify_fold(init, plan_id, ops, k - 1, log, before, now, reads);
        lemma_verify_op_tally(prev, ops[k - 1], before, now, reads);
        let cur = verify_fold(init, plan_id, ops, k, log, before, now, reads);
        let all_prev = forall|i: int|
            0 <= i < k - 1 && counted_as_done(log, crate::executor::entry_id_spec(plan_id, i as nat)) ==> passes_checks(
                #[trigger] ops[i],
                before,
                now,
                reads,
            );
        let all_cur = forall|i: int|
            0 <= i < k && counted_as_done(log, crate::executor::entry_id_spec(plan_id, i as nat)) ==> passes_checks(
                #[trigger] ops[i],
                before,
                now,
                reads,
            );
        if all_cur {
            assert(all_prev);
        }
        if all_prev && (counted_as_done(log, crate::executor::entry_id_spec(plan_id, (k - 1) as nat)) ==> passes_checks(
            ops[k - 1],
            before,
            now,
            reads,
        )) {
            assert forall|i: int|
                0 <= i < k && counted_as_done(log, crate::executor::entry_id_spec(plan_id, i as nat)) implies passes_checks(
                #[trigger] ops[i],
                before,
                now,
                reads,
            ) by {
                if i < k - 1 {
                }
            }
        }
    }
}

proof fn lemma_noop_fold_tally(before: Seq<(PathView, FsStateView)>, after: Seq<(PathView, FsStateView)>, k: int)
    requires
        0 <= k <= after.len(),
    ensures
        tally_consistent(noop_fold(before, after, k)),
        noop_fold(before, after, k).failures.len() == noop_fold(before, after, k).checks.len(),
        noop_fold(before, after, k).failures.len() == 0 <==> forall|j: int|
            0 <= j < k ==> state_at(before, (#[trigger] after[j]).0) == Some(after[j].1),
    decreases k,
{
    if k == 0 {
        assert(tally_consistent(empty_vstate()));
    } else {
        lemma_noop_fold_tally(before, after, k - 1);
        let prev = noop_fold(before, after, k - 1);
        let (p, e) = after[k - 1];
        let d = display_spec(p);
        lemma_failed_keeps_tally(prev, "No-op unchanged: "@ + d, "Filesystem entry changed during no-op plan: "@ + d);
        lemma_failed_keeps_tally(prev, "No-op no new entries: "@ + d, "New filesystem entry appeared during no-op plan: "@ + d);
        if forall|j: int| 0 <= j < k ==> state_at(before, (#[trigger] after[j]).0) == Some(after[j].1) {
            assert(state_at(before, after[k - 1].0) == Some(after[k - 1].1));
        }
    }
}

proof fn lemma_noop_checks_tally(before: Seq<(PathView, FsStateView)>, after: Seq<(PathView, FsStateView)>)
    ensures
        tally_consistent(noop_checks(before, after)),
        noop_checks(before, after).failures.len() == 0 <==> unchanged_capture(before, after),
{
    lemma_failed_keeps_tally(
        empty_vstate(),
        "No-op plan: filesystem unchanged"@,
        "Filesystem changed during no-op plan (before: "@ + decimal(before.len()) + " entries, after: "@ + decimal(
            after.len(),
        ) + " entries)"@,
    );
    assert(tally_consistent(empty_vstate()));
    if before.len() == after.len() {
        lemma_noop_fold_tally(before, after, after.len() as int);
        let st = noop_fold(before, after, after.len() as int);
        lemma_passed_keeps_tally(
            st,
            "No-op plan: filesystem unchanged"@,
            "No mutations: before and after states match ("@ + decimal(before.len()) + " entries)"@,
        );
    }
}

/// Verification passes exactly when the execution did what it should: for a
/// plan with operations, when every operation whose log entry does not record
/// a failure or a skip left behind what `passes_checks` asks; for an empty
/// plan, when the scope captured after holds the same entries as before. In
/// every case the failed-check count is the number of failed checks and of
/// failure messages.
pub proof fn law_verification_passes_iff_faithful(
    plan: OperationPlan,
    log: OperationLog,
    before: Seq<(PathView, FsStateView)>,
    after: Seq<(PathView, FsStateView)>,
    now: FsView,
    reads: Seq<(PathView, FsStateView)>,
    r: ExecutionVerificationResult,
)
    requires
        verification_matches(r, verification_state(plan, log, before, after, now, reads)),
    ensures
        r.summary.total_failed_checks == failed_checks(checks_view(r.checks@)),
        (r.status is Passed) <==> r.summary.total_failed_checks == 0,
        plan.operations@.len() > 0 ==> ((r.status is Passed) <==> forall|i: int|
            0 <= i < plan.operations@.len() && counted_as_done(
                log.entries@,
                crate::executor::entry_id_spec(plan.id@, i as nat),
            ) ==> passes_checks(#[trigger] plan.operations@[i]@, before, now, reads)),
        plan.operations@.len() == 0 ==> ((r.status is Passed) <==> unchanged_capture(before, after)),
{
    let ops = ops_view(plan.operations@);
    let init = if ops.len() == 0 {
        noop_checks(before, after)
    } else {
        empty_vstate()
    };
    assert(tally_consistent(empty_vstate()));
    lemma_noop_checks_tally(before, after);
    lemma_verify_fold_tally(init, plan.id@, ops, ops.len() as int, log.entries@, before, now, reads);
    let st = verification_state(plan, log, before, after, now, reads);
    if ops.len() > 0 {
        let lhs = forall|i: int|
            0 <= i < ops.len() && counted_as_done(log.entries@, crate::executor::entry_id_spec(plan.id@, i as nat))
                ==> passes_checks(#[trigger] ops[i], before, now, reads);
        let rhs = forall|i: int|
            0 <= i < plan.operations@.len() && counted_as_done(
                log.entries@,
                crate::executor::entry_id_spec(plan.id@, i as nat),
            ) ==> passes_checks(#[trigger] plan.operations@[i]@, before, now, reads);
        assert forall|i: int| 0 <= i < ops.len() implies ops[i] == plan.operations@[i]@ by {}
        if lhs {
            assert forall|i: int|
                0 <= i < plan.operations@.len() && counted_as_done(
                    log.entries@,
                    crate::executor::entry_id_spec(plan.id@, i as nat),
                ) implies passes_checks(#[trigger] plan.operations@[i]@, before, now, reads) by {
                assert(ops[i] == plan.operations@[i]@);
            }
        }
        if rhs {
            assert forall|i: int|
                0 <= i < ops.len() && counted_as_done(log.entries@, crate::executor::entry_id_spec(plan.id@, i as nat))
                    implies passes_checks(#[trigger] ops[i], before, now, reads) by {
                assert(ops[i] == plan.operations@[i]@);
            }
        }
    }
    assert(st.failures.len() == 0 <==> (r.status is Passed));
}


/// The paths a capture lists.
pub open spec fn capture_paths(es: Seq<(PathView, FsStateView)>) -> Seq<PathView> {
    es.map_values(|e: (PathView, FsStateView)| e.0)
}

proof fn lemma_listed_iff_captured(es: Seq<(PathView, FsStateView)>, p: PathView)
    requires
        keys_distinct(es),
    ensures
        (state_at(es, p) is Some) <==> capture_paths(es).to_set().contains(p),
        capture_paths(es).no_duplicates(),
        capture_paths(es).to_set().len() == es.len(),
{
    let ks = capture_paths(es);
    assert forall|i: int, j: int| 0 <= i < ks.len() && 0 <= j < ks.len() && i != j implies ks[i] != ks[j] by {
        if i < j {
            assert(es[i].0 != es[j].0);
        } else {
            assert(es[j].0 != es[i].0);
        }
    }
    ks.unique_seq_to_set();
    if ks.to_set().contains(p) {
        let i = choose|i: int| 0 <= i < ks.len() && ks[i] == p;
        lemma_state_at_present(es, i);
    } else {
        assert forall|k: int| 0 <= k < es.len() implies es[k].0 != p by {
            assert(ks[k] == es[k].0);
        }
        lemma_state_at_absent(es, p);
    }
}

/// For captures that list each path once, what an empty plan's verification
/// checks (as many entries after as before, each found before with the same
/// state) is exactly that the two captures agree on every path.
pub proof fn law_unchanged_capture_is_equal_capture(
    before: Seq<(PathView, FsStateView)>,
    after: Seq<(PathView, FsStateView)>,
)
    requires
        keys_distinct(before),
        keys_distinct(after),
    ensures
        unchanged_capture(before, after) <==> forall|p: PathView| state_at(before, p) == state_at(after, p),
{
    let kb = capture_paths(before).to_set();
    let ka = capture_paths(after).to_set();
    lemma_listed_iff_captured(before, before[0].0);
    lemma_listed_iff_captured(after, after[0].0);
    assert(kb.finite() && ka.finite()) by {
        vstd::seq_lib::seq_to_set_is_finite(capture_paths(before));
        vstd::seq_lib::seq_to_set_is_finite(capture_paths(after));
    }
    if unchanged_capture(before, after) {
        assert forall|p: PathView| ka.contains(p) implies kb.contains(p) by {
            lemma_listed_iff_captured(after, p);
            let j = choose|j: int| 0 <= j < capture_paths(after).len() && capture_paths(after)[j] == p;
            assert(after[j].0 == p);
            assert(state_at(before, after[j].0) == Some(after[j].1));
            lemma_listed_iff_captured(before, p);
        }
        vstd::set_lib::lemma_subset_equality(ka, kb);
        assert forall|p: PathView| state_at(before, p) == state_at(after, p) by {
            lemma_listed_iff_captured(before, p);
            lemma_listed_iff_captured(after, p);
            if ka.contains(p) {
                let j = choose|j: int| 0 <= j < capture_paths(after).len() && capture_paths(after)[j] == p;
                assert(after[j].0 == p);
                lemma_state_at_present(after, j);
                assert(state_at(before, after[j].0) == Some(after[j].1));
            }
        }
    }
    if forall|p: PathView| state_at(before, p) == state_at(after, p) {
        assert forall|k: int| 0 <= k < after.len() implies state_at(before, (#[trigger] after[k]).0) == Some(after[k].1) by {
            lemma_state_at_present(after, k);
            assert(state_at(before, after[k].0) == state_at(after, after[k].0));
        }
        assert forall|p: PathView| ka.contains(p) <==> kb.contains(p) by {
            lemma_listed_iff_captured(before, p);
            lemma_listed_iff_captured(after, p);
            assert(state_at(before, p) == state_at(after, p));
        }
        assert(ka =~= kb);
    }
}

} // verus!

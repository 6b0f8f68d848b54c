//! The watcher of declarative inventory sources: a source is applied again
//! only once its files were seen unchanged on two scans in a row, and the
//! same scope is never applied twice in a row.
use vstd::prelude::*;

use crate::model::strings_view;

verus! {

/// What a scan of a source's files found: one entry per file describing it
/// (such as its path, size and modification time), in a fixed order.
pub type ScopeSnapshot = Vec<String>;

/// The view of a scan result.
pub open spec fn snapshot_view(s: Option<ScopeSnapshot>) -> Option<Seq<Seq<char>>> {
    match s {
        Some(v) => Some(strings_view(v@)),
        None => None,
    }
}

/// What the watcher does after a scan.
#[derive(Debug, Clone, Copy, PartialEq, Eq, Structural)]
pub enum WatchStep {
    /// Nothing yet.
    Wait,
    /// Apply the source: its files were stable and differ from what was
    /// applied last.
    Apply,
    /// The scan failed: record the failure; the catalog stays as it was.
    RecordScanFailure,
}

/// The watcher's memory of one source: the last scan (a candidate for
/// applying) and the scan that was applied last.
pub struct SourceWatch {
    pub candidate: Option<ScopeSnapshot>,
    pub applied: Option<ScopeSnapshot>,
}

/// The watcher's state after a scan, and its step.
pub open spec fn observe_spec(
    candidate: Option<Seq<Seq<char>>>,
    applied: Option<Seq<Seq<char>>>,
    scan: Option<Seq<Seq<char>>>,
) -> (Option<Seq<Seq<char>>>, Option<Seq<Seq<char>>>, WatchStep) {
    match scan {
        None => (None, applied, WatchStep::RecordScanFailure),
        Some(s) => if candidate != Some(s) {
            (Some(s), applied, WatchStep::Wait)
        } else if applied == Some(s) {
            (candidate, applied, WatchStep::Wait)
        } else {
            (candidate, Some(s), WatchStep::Apply)
        },
    }
}

fn same_snapshot(a: &ScopeSnapshot, b: &ScopeSnapshot) -> (r: bool)
    ensures
        r == (strings_view(a@) == strings_view(b@)),
{
    if a.len() != b.len() {
        assert(strings_view(a@).len() != strings_view(b@).len());
        return false;
    }
    let mut i: usize = 0;
    while i < a.len()
        invariant
            i <= a.len(),
            a.len() == b.len(),
            forall|j: int| 0 <= j < i ==> strings_view(a@)[j] == strings_view(b@)[j],
        decreases a.len() - i,
    {
        if !crate::text::str_eq(a[i].as_str(), b[i].as_str()) {
            assert(strings_view(a@)[i as int] != strings_view(b@)[i as int]);
            return false;
        }
        i += 1;
    }
    assert(strings_view(a@) =~= strings_view(b@));
    true
}

fn matches_snapshot(o: &Option<ScopeSnapshot>, s: &ScopeSnapshot) -> (r: bool)
    ensures
        r == (snapshot_view(*o) == Some(strings_view(s@))),
{
    match o {
        Some(x) => same_snapshot(x, s),
        None => false,
    }
}

fn copy_snapshot(s: &ScopeSnapshot) -> (r: ScopeSnapshot)
    ensures
        strings_view(r@) == strings_view(s@),
{
    let c = crate::model::clone_strings(s);
    c
}

impl SourceWatch {
    /// The memory at startup: the startup scan counts as stable and as
    /// applied (startup applies sources itself); a failed startup scan
    /// leaves nothing remembered.
    pub fn start(initial: Option<ScopeSnapshot>) -> (r: SourceWatch)
        ensures
            snapshot_view(r.candidate) == snapshot_view(initial),
            snapshot_view(r.applied) == snapshot_view(initial),
    {
        match initial {
            Some(s) => {
                let c = copy_snapshot(&s);
                SourceWatch { candidate: Some(c), applied: Some(s) }
            },
            None => SourceWatch { candidate: None, applied: None },
        }
    }

    /// Takes one scan result (`None` for a failed scan) and says what to do.
    pub fn observe(&mut self, scan: Option<ScopeSnapshot>) -> (r: WatchStep)
        ensures
            (snapshot_view(final(self).candidate), snapshot_view(final(self).applied), r) == observe_spec(
                snapshot_view(old(self).candidate),
                snapshot_view(old(self).applied),
                snapshot_view(scan),
            ),
    {
        match scan {
            None => {
                self.candidate = None;
                WatchStep::RecordScanFailure
            },
            Some(s) => {
                if !matches_snapshot(&self.candidate, &s) {
                    self.candidate = Some(s);
                    WatchStep::Wait
                } else if matches_snapshot(&self.applied, &s) {
                    WatchStep::Wait
                } else {
                    self.applied = Some(s);
                    WatchStep::Apply
                }
            },
        }
    }
}

/// A scope is applied only when the scan before found the same files: a
/// change seen for the first time is never applied at once.
pub proof fn lemma_apply_needs_stable_scan(
    candidate: Option<Seq<Seq<char>>>,
    applied: Option<Seq<Seq<char>>>,
    scan: Option<Seq<Seq<char>>>,
)
    ensures
        observe_spec(candidate, applied, scan).2 == WatchStep::Apply ==> scan is Some && candidate == scan,
{
}

/// After a scope is applied, seeing the same files again applies nothing.
pub proof fn lemma_applied_scope_not_reapplied(
    candidate: Option<Seq<Seq<char>>>,
    applied: Option<Seq<Seq<char>>>,
    s: Seq<Seq<char>>,
)
    requires
        observe_spec(candidate, applied, Some(s)).2 == WatchStep::Apply,
    ensures
        ({
            let (c2, a2, _) = observe_spec(candidate, applied, Some(s));
            observe_spec(c2, a2, Some(s)).2 == WatchStep::Wait
        }),
{
}

/// A scope seen unchanged on two scans in a row, and not applied yet, is
/// applied on the second.
pub proof fn lemma_stable_change_applied(
    candidate: Option<Seq<Seq<char>>>,
    applied: Option<Seq<Seq<char>>>,
    s: Seq<Seq<char>>,
)
    requires
        applied != Some(s),
    ensures
        ({
            let (c2, a2, step1) = observe_spec(candidate, applied, Some(s));
            let (_, _, step2) = observe_spec(c2, a2, Some(s));
            step1 == WatchStep::Apply || step2 == WatchStep::Apply
        }),
{
}

/// Whether a configured source is watched at all.
pub fn watched_sources(watch_flags: &Vec<bool>) -> (r: Vec<usize>)
    ensures
        forall|k: int| 0 <= k < r@.len() ==> r@[k] < watch_flags@.len() && watch_flags@[r@[k] as int],
        forall|i: int| 0 <= i < watch_flags@.len() && watch_flags@[i] ==> r@.contains(i as usize),
        forall|k: int, l: int| 0 <= k < l < r@.len() ==> r@[k] < r@[l],
{
    let mut out: Vec<usize> = Vec::new();
    let mut i: usize = 0;
    while i < watch_flags.len()
        invariant
            i <= watch_flags.len(),
            forall|k: int| 0 <= k < out@.len() ==> out@[k] < i && watch_flags@[out@[k] as int],
            forall|j: int| 0 <= j < i && watch_flags@[j] ==> out@.contains(j as usize),
            forall|k: int, l: int| 0 <= k < l < out@.len() ==> out@[k] < out@[l],
        decreases watch_flags.len() - i,
    {
        if watch_flags[i] {
            let ghost before = out@;
            out.push(i);
            assert forall|j: int| 0 <= j < i + 1 && watch_flags@[j] implies out@.contains(j as usize) by {
                if j < i {
                    let k = choose|k: int| 0 <= k < before.len() && before[k] == j as usize;
                    assert(out@[k] == j as usize);
                } else {
                    assert(out@[before.len() as int] == i);
                }
            }
        }
        i += 1;
    }
    out
}

} // verus!

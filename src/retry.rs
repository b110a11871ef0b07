//! The fault-retry scan of a batched foreign-frame mapping.
//!
//! A batched map call may leave some pages unmapped because the guest's frames
//! are not available yet; the kernel marks exactly those pages in the per-page
//! status array. The scan below finds each maximal run of such pages, has the
//! caller re-issue one batched call for the run, and on a "not yet" answer
//! starts over at the run's first page. It works on indices only: turning a
//! run into addresses is the caller's single point of contact with the kernel.
use vstd::prelude::*;
use crate::sys::{enoent, enoent_value};

verus! {

/// Page `i`'s status says that its frame was not available yet.
pub open spec fn page_not_ready(status: Seq<i32>, i: int) -> bool {
    status[i] == -enoent_value()
}

/// No page at or after `from` is marked not ready.
pub open spec fn all_ready_from(status: Seq<i32>, from: int) -> bool {
    forall|i: int| from <= i < status.len() ==> !page_not_ready(status, i)
}

/// A run of consecutive pages, `start` included and `end` excluded.
#[derive(Clone, Copy, Debug, PartialEq, Eq, Structural)]
pub struct PageRun {
    pub start: usize,
    pub end: usize,
}

/// `run` is the first maximal run of not-ready pages at or after `from`.
pub open spec fn is_first_run(status: Seq<i32>, from: int, run: PageRun) -> bool {
    &&& from <= run.start < run.end <= status.len()
    &&& forall|i: int| from <= i < run.start ==> !page_not_ready(status, i)
    &&& forall|i: int| run.start <= i < run.end ==> page_not_ready(status, i)
    &&& (run.end == status.len() || !page_not_ready(status, run.end as int))
}

/// The runs that the scan hands out, in order, when every batched call for a
/// run maps all of its pages.
pub open spec fn runs_when_mapped(status: Seq<i32>, from: int) -> Seq<PageRun>
    decreases status.len() - from,
{
    if 0 <= from < status.len() && exists|r: PageRun| is_first_run(status, from, r) {
        let r = choose|r: PageRun| is_first_run(status, from, r);
        // Always true of a first run; stated so that the recursion visibly ends.
        if r.end > from {
            seq![r].add(runs_when_mapped(status, r.end as int))
        } else {
            Seq::empty()
        }
    } else {
        Seq::empty()
    }
}

/// Finds the first maximal run of not-ready pages at or after `from`.
pub fn find_not_ready_run(status: &[i32], from: usize) -> (r: Option<PageRun>)
    requires
        from <= status@.len(),
    ensures
        match r {
            Some(run) => is_first_run(status@, from as int, run),
            None => all_ready_from(status@, from as int),
        },
{
    let code: i32 = -enoent();
    let len = status.len();
    let mut i: usize = from;
    while i < len && status[i] != code
        invariant
            from <= i <= len,
            len == status@.len(),
            code == -enoent_value(),
            forall|j: int| from <= j < i ==> !page_not_ready(status@, j),
        decreases len - i,
    {
        i = i + 1;
    }
    if i == len {
        return None;
    }
    let start = i;
    i = i + 1;
    while i < len && status[i] == code
        invariant
            from <= start < i <= len,
            len == status@.len(),
            code == -enoent_value(),
            forall|j: int| from <= j < start ==> !page_not_ready(status@, j),
            forall|j: int| start <= j < i ==> page_not_ready(status@, j),
        decreases len - i,
    {
        i = i + 1;
    }
    Some(PageRun { start, end: i })
}

/// What a batched map call came back with.
#[derive(Clone, Copy, Debug, PartialEq, Eq, Structural)]
pub enum BatchOutcome {
    /// Every page of the batch was mapped.
    Mapped,
    /// Some frames of the batch are not available yet.
    NotReady,
    /// The call failed with this errno.
    Failed(i32),
}

impl BatchOutcome {
    /// Classifies a batched map call by its errno, `None` when it succeeded.
    pub fn from_errno(errno: Option<i32>) -> (r: BatchOutcome)
        ensures
            match errno {
                None => r == BatchOutcome::Mapped,
                Some(e) => if e == enoent_value() {
                    r == BatchOutcome::NotReady
                } else {
                    r == BatchOutcome::Failed(e)
                },
            },
    {
        match errno {
            None => BatchOutcome::Mapped,
            Some(e) => if e == enoent() {
                BatchOutcome::NotReady
            } else {
                BatchOutcome::Failed(e)
            },
        }
    }
}

/// What the caller does after a retried batch.
#[derive(Clone, Copy, Debug, PartialEq, Eq, Structural)]
pub enum RetryStep {
    /// Ask for the next run.
    Continue,
    /// Sleep a short fixed interval, then ask for the next run.
    Backoff,
    /// Give up with this errno.
    Abort(i32),
}

/// The state of the fault-retry scan over a mapping of `pages` pages: the scan
/// looks for not-ready pages from `cursor` on.
#[derive(Clone, Copy, Debug, PartialEq, Eq, Structural)]
pub struct PagedRetry {
    pub pages: usize,
    pub cursor: usize,
}

impl PagedRetry {
    pub open spec fn wf(self) -> bool {
        self.cursor <= self.pages
    }

    /// A scan over `pages` pages that starts at the first page.
    pub fn new(pages: usize) -> (r: PagedRetry)
        ensures
            r.pages == pages,
            r.cursor == 0,
            r.wf(),
    {
        PagedRetry { pages, cursor: 0 }
    }

    /// The run to re-issue next, or `None` when no page from the cursor on
    /// is still marked not ready.
    pub fn next_run(&self, status: &[i32]) -> (r: Option<PageRun>)
        requires
            self.wf(),
            status@.len() == self.pages,
        ensures
            match r {
                Some(run) => is_first_run(status@, self.cursor as int, run),
                None => all_ready_from(status@, self.cursor as int),
            },
    {
        find_not_ready_run(status, self.cursor)
    }

    /// Records how the batched call for `run` went and says what to do next:
    /// after a mapped run the scan goes on just after it, after a "not yet"
    /// it starts again at the run's first page, and any other error ends it.
    pub fn complete(&mut self, run: PageRun, outcome: BatchOutcome) -> (r: RetryStep)
        requires
            old(self).wf(),
            old(self).cursor <= run.start < run.end <= old(self).pages,
        ensures
            final(self).wf(),
            final(self).pages == old(self).pages,
            match outcome {
                BatchOutcome::Mapped => r == RetryStep::Continue && final(self).cursor == run.end,
                BatchOutcome::NotReady => r == RetryStep::Backoff && final(self).cursor
                    == run.start,
                BatchOutcome::Failed(e) => r == RetryStep::Abort(e) && final(self).cursor == old(
                    self,
                ).cursor,
            },
    {
        match outcome {
            BatchOutcome::Mapped => {
                self.cursor = run.end;
                RetryStep::Continue
            },
            BatchOutcome::NotReady => {
                self.cursor = run.start;
                RetryStep::Backoff
            },
            BatchOutcome::Failed(e) => RetryStep::Abort(e),
        }
    }
}

proof fn lemma_first_run_unique(status: Seq<i32>, from: int, a: PageRun, b: PageRun)
    requires
        is_first_run(status, from, a),
        is_first_run(status, from, b),
    ensures
        a == b,
{
    if a.start < b.start {
        assert(page_not_ready(status, a.start as int));
    } else if b.start < a.start {
        assert(page_not_ready(status, b.start as int));
    }
    if a.end < b.end {
        assert(page_not_ready(status, a.end as int));
    } else if b.end < a.end {
        assert(page_not_ready(status, b.end as int));
    }
}

/// When the scan stands at `from` and the first not-ready run from there is
/// `run`, a scan whose calls all map hands out `run` and then exactly what it
/// hands out from the end of `run`; with no not-ready page left it hands out
/// nothing.
pub proof fn mapped_scan_step(status: Seq<i32>, from: int, run: Option<PageRun>)
    requires
        0 <= from <= status.len(),
        match run {
            Some(r) => is_first_run(status, from, r),
            None => all_ready_from(status, from),
        },
    ensures
        match run {
            Some(r) => runs_when_mapped(status, from) == seq![r].add(
                runs_when_mapped(status, r.end as int),
            ),
            None => runs_when_mapped(status, from) == Seq::<PageRun>::empty(),
        },
{
    match run {
        Some(r) => {
            let c = choose|c: PageRun| is_first_run(status, from, c);
            lemma_first_run_unique(status, from, r, c);
        },
        None => {
            if exists|c: PageRun| is_first_run(status, from, c) {
                let c = choose|c: PageRun| is_first_run(status, from, c);
                assert(page_not_ready(status, c.start as int));
            }
        },
    }
}

/// A scan whose calls all map issues at most one call per page from its
/// start on; the runs it hands out are non-empty, lie within the pages, are
/// made of not-ready pages only, and each starts after the previous one ends.
pub proof fn mapped_scan_bounded(status: Seq<i32>, from: int)
    requires
        0 <= from <= status.len(),
    ensures
        runs_when_mapped(status, from).len() <= status.len() - from,
        forall|k: int|
            0 <= k < runs_when_mapped(status, from).len() ==> {
                let r = #[trigger] runs_when_mapped(status, from)[k];
                &&& from <= r.start < r.end <= status.len()
                &&& forall|i: int| r.start <= i < r.end ==> page_not_ready(status, i)
            },
        forall|k: int|
            0 < k < runs_when_mapped(status, from).len() ==> runs_when_mapped(status, from)[k
                - 1].end < #[trigger] runs_when_mapped(status, from)[k].start,
    decreases status.len() - from,
{
    let s = runs_when_mapped(status, from);
    if 0 <= from < status.len() && exists|r: PageRun| is_first_run(status, from, r) {
        let r = choose|r: PageRun| is_first_run(status, from, r);
        mapped_scan_bounded(status, r.end as int);
        let rest = runs_when_mapped(status, r.end as int);
        assert(s == seq![r].add(rest));
        assert forall|k: int| 0 <= k < s.len() implies {
            let q = #[trigger] s[k];
            &&& from <= q.start < q.end <= status.len()
            &&& forall|i: int| q.start <= i < q.end ==> page_not_ready(status, i)
        } by {
            if k > 0 {
                assert(s[k] == rest[k - 1]);
            }
        }
        assert forall|k: int| 0 < k < s.len() implies s[k - 1].end < #[trigger] s[k].start by {
            assert(s[k] == rest[k - 1]);
            if k > 1 {
                assert(s[k - 1] == rest[k - 2]);
            } else {
                assert(s[0] == r);
                assert(rest[0].start >= r.end);
                assert(rest[0].start != r.end) by {
                    assert(page_not_ready(status, rest[0].start as int));
                }
            }
        }
    }
}

/// After a "not yet" answer for `failed`, the scan starts again at the
/// failed run's first page. The kernel writes only the status slots of the
/// batch it was given, so if any page of the failed run is still not ready,
/// the next run handed out lies inside the failed run.
pub proof fn retry_stays_in_failed_run(
    before: Seq<i32>,
    after: Seq<i32>,
    from: int,
    failed: PageRun,
    next: PageRun,
)
    requires
        is_first_run(before, from, failed),
        after.len() == before.len(),
        forall|i: int|
            0 <= i < before.len() && !(failed.start <= i < failed.end) ==> after[i] == before[i],
        is_first_run(after, failed.start as int, next),
    ensures
        failed.start <= next.start,
        (exists|i: int| failed.start <= i < failed.end && page_not_ready(after, i)) ==> next.end
            <= failed.end,
{
    if exists|i: int| failed.start <= i < failed.end && page_not_ready(after, i) {
        let i = choose|i: int| failed.start <= i < failed.end && page_not_ready(after, i);
        assert(next.start <= i);
        if next.end > failed.end {
            if failed.end < before.len() {
                assert(page_not_ready(after, failed.end as int));
                assert(after[failed.end as int] == before[failed.end as int]);
            }
        }
    }
}

} // verus!

use vstd::prelude::*;

verus! {

/// Sum of a sequence of failure counts.
pub open spec fn sum(s: Seq<nat>) -> nat
    decreases s.len(),
{
    if s.len() == 0 {
        0
    } else {
        sum(s.drop_last()) + s.last()
    }
}

/// A run that failed: the number of failed assertions over all its test files.
#[derive(Debug, PartialEq, Eq)]
pub struct RunFailure {
    pub failed: usize,
}

impl RunFailure {
    /// The plural ending of "assertion" for this number of failures.
    pub fn plural_suffix(&self) -> (r: &'static str)
        ensures
            self.failed == 1 ==> r@ == ""@,
            self.failed != 1 ==> r@ == "s"@,
    {
        if self.failed == 1 {
            ""
        } else {
            "s"
        }
    }
}

/// The failure counts of the test files of a run, accumulated in order.
pub struct RunTotals {
    total: usize,
    counts: Ghost<Seq<nat>>,
}

impl RunTotals {
    /// The failure count of each test file processed so far.
    pub closed spec fn spec_counts(&self) -> Seq<nat> {
        self.counts@
    }

    pub closed spec fn spec_total(&self) -> nat {
        self.total as nat
    }

    pub closed spec fn wf(&self) -> bool {
        self.total as nat == sum(self.counts@)
    }

    pub fn new() -> (r: RunTotals)
        ensures
            r.wf(),
            r.spec_counts() == Seq::<nat>::empty(),
            r.spec_total() == 0,
    {
        RunTotals { total: 0, counts: Ghost(Seq::empty()) }
    }

    /// Records the failure count of one more test file.
    pub fn record(&mut self, failures: usize)
        requires
            old(self).wf(),
            old(self).spec_total() + failures <= usize::MAX,
        ensures
            final(self).wf(),
            final(self).spec_counts() == old(self).spec_counts().push(failures as nat),
            final(self).spec_total() == old(self).spec_total() + failures,
    {
        self.total = self.total + failures;
        self.counts = Ghost(self.counts@.push(failures as nat));
        assert(self.counts@.drop_last() =~= old(self).counts@);
    }

    /// The number of failed assertions so far.
    pub fn total(&self) -> (r: usize)
        requires
            self.wf(),
        ensures
            r == sum(self.spec_counts()),
    {
        self.total
    }

    /// The outcome of the run: it fails, with the total, iff an assertion failed.
    pub fn finish(&self) -> (r: Result<(), RunFailure>)
        requires
            self.wf(),
        ensures
            r is Ok <==> sum(self.spec_counts()) == 0,
            r matches Err(f) ==> f.failed == sum(self.spec_counts()),
    {
        if self.total > 0 {
            Err(RunFailure { failed: self.total })
        } else {
            Ok(())
        }
    }
}

/// A sum of failure counts is positive iff one of the counts is.
pub proof fn lemma_sum_positive(s: Seq<nat>)
    ensures
        sum(s) > 0 <==> exists|i: int| 0 <= i < s.len() && #[trigger] s[i] > 0,
    decreases s.len(),
{
    if s.len() > 0 {
        lemma_sum_positive(s.drop_last());
        if sum(s.drop_last()) > 0 {
            let i = choose|i: int| 0 <= i < s.drop_last().len() && #[trigger] s.drop_last()[i] > 0;
            assert(s[i] > 0);
        }
        if exists|i: int| 0 <= i < s.len() && #[trigger] s[i] > 0 {
            let i = choose|i: int| 0 <= i < s.len() && #[trigger] s[i] > 0;
            if i < s.len() - 1 {
                assert(s.drop_last()[i] > 0);
            }
        }
    }
}

/// The total a run reports is the sum of the failure counts of the test files it
/// processed, and the run fails iff that sum is positive, that is iff some test
/// file had a failed assertion.
pub proof fn lemma_run_outcome(t: RunTotals)
    requires
        t.wf(),
    ensures
        t.spec_total() == sum(t.spec_counts()),
        t.spec_total() > 0 <==> exists|i: int|
            0 <= i < t.spec_counts().len() && #[trigger] t.spec_counts()[i] > 0,
{
    lemma_sum_positive(t.spec_counts());
}

} // verus!

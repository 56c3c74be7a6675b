use vstd::prelude::*;

verus! {

/// The outcome of evaluating one assertion of a test file.
#[derive(Debug, PartialEq, Eq)]
pub enum AssertionOutcome {
    Passed,
    Failed(String),
}

/// Number of passing outcomes in `s`.
pub open spec fn passed_count(s: Seq<AssertionOutcome>) -> nat
    decreases s.len(),
{
    if s.len() == 0 {
        0
    } else {
        passed_count(s.drop_last()) + if s.last() is Passed { 1nat } else { 0nat }
    }
}

/// The failure descriptions of `s`, in declaration order.
pub open spec fn failures_of(s: Seq<AssertionOutcome>) -> Seq<String>
    decreases s.len(),
{
    if s.len() == 0 {
        Seq::empty()
    } else {
        match s.last() {
            AssertionOutcome::Passed => failures_of(s.drop_last()),
            AssertionOutcome::Failed(d) => failures_of(s.drop_last()).push(d),
        }
    }
}

pub proof fn lemma_counts_add_up(s: Seq<AssertionOutcome>)
    ensures
        passed_count(s) + failures_of(s).len() == s.len(),
    decreases s.len(),
{
    if s.len() > 0 {
        lemma_counts_add_up(s.drop_last());
    }
}

/// Aggregate outcome of the assertions of one test file.
pub struct TestResult {
    success_count: usize,
    failures: Vec<String>,
}

impl TestResult {
    pub closed spec fn spec_success_count(&self) -> nat {
        self.success_count as nat
    }

    pub closed spec fn spec_failures(&self) -> Seq<String> {
        self.failures@
    }

    pub open spec fn spec_count(&self) -> nat {
        self.spec_success_count() + self.spec_failures().len()
    }

    pub open spec fn spec_failure_count(&self) -> nat {
        self.spec_failures().len()
    }

    /// The result holds exactly what the outcomes `s` give.
    pub open spec fn models(&self, s: Seq<AssertionOutcome>) -> bool {
        &&& self.spec_success_count() == passed_count(s)
        &&& self.spec_failures() == failures_of(s)
    }

    pub closed spec fn wf(&self) -> bool {
        self.success_count + self.failures@.len() <= usize::MAX
    }

    pub fn new() -> (r: TestResult)
        ensures
            r.wf(),
            r.spec_success_count() == 0,
            r.spec_failures() == Seq::<String>::empty(),
    {
        TestResult { success_count: 0, failures: Vec::new() }
    }

    pub fn add_success(&mut self)
        requires
            old(self).wf(),
            old(self).spec_count() < usize::MAX,
        ensures
            final(self).wf(),
            final(self).spec_success_count() == old(self).spec_success_count() + 1,
            final(self).spec_failures() == old(self).spec_failures(),
    {
        self.success_count = self.success_count + 1;
    }

    pub fn add_failure(&mut self, description: String)
        requires
            old(self).wf(),
            old(self).spec_count() < usize::MAX,
        ensures
            final(self).wf(),
            final(self).spec_success_count() == old(self).spec_success_count(),
            final(self).spec_failures() == old(self).spec_failures().push(description),
    {
        self.failures.push(description);
    }

    /// Tallies `outcomes`, keeping the failure descriptions in order.
    pub fn from_outcomes(outcomes: &Vec<AssertionOutcome>) -> (r: TestResult)
        ensures
            r.wf(),
            r.models(outcomes@),
            r.spec_count() == outcomes@.len(),
    {
        let mut r = TestResult::new();
        let mut i: usize = 0;
        while i < outcomes.len()
            invariant
                i <= outcomes@.len(),
                r.wf(),
                r.models(outcomes@.subrange(0, i as int)),
            decreases outcomes@.len() - i,
        {
            proof {
                lemma_counts_add_up(outcomes@.subrange(0, i as int));
            }
            assert(outcomes@.subrange(0, i + 1).drop_last() =~= outcomes@.subrange(0, i as int));
            match &outcomes[i] {
                AssertionOutcome::Passed => r.add_success(),
                AssertionOutcome::Failed(d) => r.add_failure(d.clone()),
            }
            i = i + 1;
        }
        assert(outcomes@.subrange(0, i as int) =~= outcomes@);
        proof {
            lemma_counts_add_up(outcomes@);
        }
        r
    }

    /// Total number of assertions.
    pub fn count(&self) -> (r: usize)
        requires
            self.wf(),
        ensures
            r == self.spec_count(),
    {
        self.success_count + self.failures.len()
    }

    pub fn success_count(&self) -> (r: usize)
        ensures
            r == self.spec_success_count(),
    {
        self.success_count
    }

    /// Number of failed assertions: the total less the successes.
    pub fn failure_count(&self) -> (r: usize)
        ensures
            r == self.spec_failure_count(),
    {
        self.failures.len()
    }

    /// The failure descriptions, in the order the assertions were declared.
    pub fn failures(&self) -> (r: &Vec<String>)
        ensures
            r@ == self.spec_failures(),
    {
        &self.failures
    }
}

/// A test file without assertions passes: its result counts no failure.
pub proof fn lemma_no_assertions_pass(r: TestResult)
    requires
        r.models(Seq::empty()),
    ensures
        r.spec_failure_count() == 0,
        r.spec_count() == 0,
{
    assert(failures_of(Seq::<AssertionOutcome>::empty()) =~= Seq::<String>::empty());
}

/// Tallying is a function of the outcomes alone: two results built from the same
/// outcomes have the same counts and the same ordered failures.
pub proof fn lemma_results_agree(r1: TestResult, r2: TestResult, s: Seq<AssertionOutcome>)
    requires
        r1.models(s),
        r2.models(s),
    ensures
        r1.spec_count() == r2.spec_count(),
        r1.spec_success_count() == r2.spec_success_count(),
        r1.spec_failures() == r2.spec_failures(),
        r1.spec_failure_count() == r2.spec_failure_count(),
{
}

} // verus!

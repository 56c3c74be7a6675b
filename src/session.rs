use vstd::prelude::*;
use crate::assembly::{build_error, lemma_complete_all_match, path_extension, Assembly, AssemblyStep};
use crate::command::{Artifact, Command, ReportLine, ignored_lines, report_lines};
use crate::error::{BuildFailure, TestError};
use crate::result::{AssertionOutcome, TestResult, failures_of, passed_count};

verus! {

/// A fragment of a test file: the path it stands for in the graph, and the
/// variable bindings to set while its graph is built.
#[derive(Debug, PartialEq, Eq)]
pub struct TestFragment {
    pub path: String,
    pub globals: Vec<(String, String)>,
}

/// The target paths of fragments, in order.
pub open spec fn paths_of(fragments: Seq<TestFragment>) -> Seq<String> {
    fragments.map_values(|f: TestFragment| f.path)
}

/// The assembly a phase holds, if any.
pub open spec fn held_assembly(p: Phase) -> Option<Assembly> {
    match p {
        Phase::Merging(a) => Some(a),
        Phase::Building(a) => Some(a),
        _ => None,
    }
}

/// What happened since the session's last action.
#[derive(Debug, PartialEq, Eq)]
pub enum Event {
    /// A language was looked for: whether one applies to the test file.
    Loaded(bool),
    /// The test file was parsed: its fragments, in order.
    Parsed(Vec<TestFragment>),
    /// The language's builtins were merged into the test's graph.
    BuiltinsMerged(Result<(), TestError>),
    /// The fragment asked for was built, or why it was not.
    Built(Result<(), BuildFailure>),
    /// The assertions ran: their outcomes, in declaration order.
    AssertionsRun(Vec<AssertionOutcome>),
    /// The artifacts were written.
    Saved,
    /// The last action failed (reading, loading, parsing, running or writing).
    Failed(TestError),
}

/// What the session asks for next.
#[derive(Debug, PartialEq, Eq)]
pub enum Action {
    /// Parse the test file into its fragments.
    Parse,
    /// Merge the language's builtins into the test's graph.
    MergeBuiltins,
    /// Build the fragment at this index into the test's graph, with these
    /// variable bindings and no others.
    Build { index: usize, globals: Vec<(String, String)> },
    /// Run the test's assertions on the assembled graph.
    RunAssertions,
    /// Print these lines, then write these artifacts.
    Save { lines: Vec<ReportLine>, artifacts: Vec<Artifact> },
    /// Print these lines; the test file is done, with its number of failed
    /// assertions or the error that stopped it.
    Finish { lines: Vec<ReportLine>, outcome: Result<usize, TestError> },
}

/// Where a session stands.
pub enum Phase {
    Loading,
    Parsing,
    Merging(Assembly),
    Building(Assembly),
    Asserting,
    Saving(usize),
    Done,
}

/// The processing of one test file, from looking up its language to writing
/// its artifacts. It starts waiting for the language lookup.
pub struct TestSession {
    test: String,
    phase: Phase,
    fragments: Vec<TestFragment>,
}

/// Whether `e` answers an action taken in phase `p`.
pub open spec fn answers(p: Phase, e: Event) -> bool {
    match e {
        Event::Loaded(_) => p is Loading,
        Event::Parsed(_) => p is Parsing,
        Event::BuiltinsMerged(_) => p is Merging,
        Event::Built(_) => p is Building,
        Event::AssertionsRun(_) => p is Asserting,
        Event::Saved => p is Saving,
        Event::Failed(_) => !(p is Done),
    }
}

/// Whether `r` finishes with no lines and this outcome.
pub open spec fn finishes(r: Action, outcome: Result<usize, TestError>) -> bool {
    r matches Action::Finish { lines, outcome: o } && lines@.len() == 0 && o == outcome
}

/// Whether `r` is the action that continues assembly `a` after a successful
/// step: build its next fragment, run the assertions once all are built, or
/// finish with the error that aborts it.
pub open spec fn continues(a: Assembly, fragments: Seq<TestFragment>, r: Action) -> bool {
    match a.next_step() {
        AssemblyStep::BuildFragment(i) => r matches Action::Build { index, globals } && index == i
            && globals@ == fragments[i as int].globals@,
        AssemblyStep::Complete => r is RunAssertions,
        AssemblyStep::Abort(e) => finishes(r, Err(e)),
    }
}

impl TestSession {
    pub closed spec fn spec_test(&self) -> String {
        self.test
    }

    pub closed spec fn spec_phase(&self) -> Phase {
        self.phase
    }

    /// The fragments of the test file, once parsed.
    pub closed spec fn spec_fragments(&self) -> Seq<TestFragment> {
        self.fragments@
    }

    pub closed spec fn wf(&self) -> bool {
        match self.phase {
            Phase::Merging(a) => a.wf() && a.spec_next() == 0 && a.spec_test() == self.test
                && a.spec_fragments() == paths_of(self.fragments@),
            Phase::Building(a) => a.wf() && a.spec_next() > 0 && a.spec_test() == self.test
                && a.spec_fragments() == paths_of(self.fragments@),
            Phase::Asserting | Phase::Saving(_) => forall|i: int|
                0 <= i < self.fragments@.len() ==> path_extension(
                    #[trigger] self.fragments@[i].path@,
                ) == path_extension(self.test@),
            _ => true,
        }
    }

    pub fn new(test: String) -> (r: TestSession)
        ensures
            r.wf(),
            r.spec_test() == test,
            r.spec_phase() is Loading,
    {
        TestSession { test, phase: Phase::Loading, fragments: Vec::new() }
    }

    /// Whether `event` answers the session's last action.
    pub fn accepts(&self, event: &Event) -> (r: bool)
        ensures
            r == answers(self.spec_phase(), *event),
    {
        match event {
            Event::Loaded(_) => matches!(self.phase, Phase::Loading),
            Event::Parsed(_) => matches!(self.phase, Phase::Parsing),
            Event::BuiltinsMerged(_) => matches!(self.phase, Phase::Merging(_)),
            Event::Built(_) => matches!(self.phase, Phase::Building(_)),
            Event::AssertionsRun(_) => matches!(self.phase, Phase::Asserting),
            Event::Saved => matches!(self.phase, Phase::Saving(_)),
            Event::Failed(_) => !matches!(self.phase, Phase::Done),
        }
    }

    /// Takes the answer to the last action and decides the next one.
    pub fn next(&mut self, command: &Command, event: Event) -> (r: Action)
        requires
            old(self).wf(),
            answers(old(self).spec_phase(), event),
        ensures
            final(self).wf(),
            final(self).spec_test() == old(self).spec_test(),
            !(event is Parsed) ==> final(self).spec_fragments() == old(self).spec_fragments(),
            r is Finish <==> final(self).spec_phase() is Done,
            r is RunAssertions ==> final(self).spec_phase() is Asserting,
            r is RunAssertions ==> forall|i: int|
                0 <= i < final(self).spec_fragments().len() ==> path_extension(
                    #[trigger] final(self).spec_fragments()[i].path@,
                ) == path_extension(final(self).spec_test()@),
            r is Build ==> (final(self).spec_phase() matches Phase::Building(b) && b.wf()
                && b.spec_test() == final(self).spec_test() && b.spec_fragments() == paths_of(
                final(self).spec_fragments(),
            ) && (held_assembly(old(self).spec_phase()) matches Some(a) && b.spec_next()
                == a.next_after_step())),
            event matches Event::Failed(e) ==> finishes(r, Err(e)),
            event == Event::Loaded(false) ==> (r matches Action::Finish { lines, outcome }
                && lines@ == ignored_lines(command.show_ignored, old(self).spec_test())
                && outcome == Ok::<usize, TestError>(0)),
            event == Event::Loaded(true) ==> r is Parse && final(self).spec_phase() is Parsing,
            event matches Event::Parsed(fragments) ==> (r is MergeBuiltins
                && final(self).spec_fragments() == fragments@ && (final(self).spec_phase() matches Phase::Merging(a)
                && a.wf() && a.spec_next() == 0 && a.spec_test() == old(self).spec_test()
                && a.spec_fragments() == paths_of(fragments@))),
            event matches Event::BuiltinsMerged(Err(e)) ==> finishes(r, Err(e)),
            event matches Event::BuiltinsMerged(Ok(())) ==> (old(self).spec_phase() matches Phase::Merging(a)
                && continues(a, old(self).spec_fragments(), r)),
            event matches Event::Built(Ok(())) ==> (old(self).spec_phase() matches Phase::Building(a)
                && continues(a, old(self).spec_fragments(), r)),
            event matches Event::Built(Err(f)) ==> (old(self).spec_phase() matches Phase::Building(a)
                && finishes(r, Err(build_error(a.spec_fragments()[a.spec_next() - 1], f)))),
            event matches Event::AssertionsRun(outcomes) ==> {
                let failures = failures_of(outcomes@);
                let lines = report_lines(
                    command.hide_passing,
                    command.hide_failure_errors,
                    old(self).spec_test(),
                    passed_count(outcomes@),
                    failures,
                );
                let artifacts = command.spec_artifacts(failures.len() == 0);
                &&& artifacts.len() == 0 ==> (r matches Action::Finish { lines: l, outcome }
                    && l@ == lines && outcome == Ok::<usize, TestError>(failures.len() as usize))
                &&& artifacts.len() > 0 ==> (r matches Action::Save { lines: l, artifacts: a }
                    && l@ == lines && a@ == artifacts && final(self).spec_phase() == Phase::Saving(
                    failures.len() as usize,
                ))
            },
            event == Event::Saved ==> (old(self).spec_phase() matches Phase::Saving(n) && finishes(
                r,
                Ok(n),
            )),
    {
        let mut phase = Phase::Done;
        std::mem::swap(&mut phase, &mut self.phase);
        match event {
            Event::Failed(e) => Action::Finish { lines: Vec::new(), outcome: Err(e) },
            Event::Loaded(applicable) => {
                if applicable {
                    self.phase = Phase::Parsing;
                    Action::Parse
                } else {
                    Action::Finish { lines: command.report_ignored(&self.test), outcome: Ok(0) }
                }
            },
            Event::Parsed(fragments) => {
                let paths = fragment_paths(&fragments);
                self.fragments = fragments;
                self.phase = Phase::Merging(Assembly::new(self.test.clone(), paths));
                Action::MergeBuiltins
            },
            Event::BuiltinsMerged(merged) => match merged {
                Ok(()) => match phase {
                    Phase::Merging(a) => self.continue_assembly(a),
                    _ => unreached(),
                },
                Err(e) => Action::Finish { lines: Vec::new(), outcome: Err(e) },
            },
            Event::Built(built) => match phase {
                Phase::Building(a) => match built {
                    Ok(()) => self.continue_assembly(a),
                    Err(f) => {
                        let e = a.fragment_failed(a.next_index() - 1, f);
                        Action::Finish { lines: Vec::new(), outcome: Err(e) }
                    },
                },
                _ => unreached(),
            },
            Event::AssertionsRun(outcomes) => {
                let result = TestResult::from_outcomes(&outcomes);
                let report = command.handle_result(&self.test, &result);
                let artifacts = command.save_output(report.success);
                let failures = result.failure_count();
                if artifacts.len() == 0 {
                    Action::Finish { lines: report.lines, outcome: Ok(failures) }
                } else {
                    self.phase = Phase::Saving(failures);
                    Action::Save { lines: report.lines, artifacts }
                }
            },
            Event::Saved => match phase {
                Phase::Saving(n) => Action::Finish { lines: Vec::new(), outcome: Ok(n) },
                _ => unreached(),
            },
        }
    }

    fn continue_assembly(&mut self, a: Assembly) -> (r: Action)
        requires
            a.wf(),
            a.spec_test() == old(self).test,
            a.spec_fragments() == paths_of(old(self).fragments@),
        ensures
            final(self).wf(),
            final(self).test == old(self).test,
            final(self).fragments == old(self).fragments,
            continues(a, old(self).fragments@, r),
            r is Build ==> (final(self).phase matches Phase::Building(b) && b.spec_next()
                == a.next_after_step()),
            r is RunAssertions ==> final(self).phase is Asserting,
            r is Finish ==> final(self).phase is Done,
    {
        let mut a = a;
        let ghost a0 = a;
        let step = a.advance();
        match step {
            AssemblyStep::BuildFragment(i) => {
                assert(paths_of(self.fragments@)[i as int] == self.fragments@[i as int].path);
                let globals = copy_bindings(&self.fragments[i].globals);
                self.phase = Phase::Building(a);
                Action::Build { index: i, globals }
            },
            AssemblyStep::Complete => {
                proof {
                    lemma_complete_all_match(a0);
                }
                assert forall|i: int| 0 <= i < self.fragments@.len() implies path_extension(
                    #[trigger] self.fragments@[i].path@,
                ) == path_extension(self.test@) by {
                    assert(a0.fragment_matches(i));
                    assert(paths_of(self.fragments@)[i] == self.fragments@[i].path);
                }
                self.phase = Phase::Asserting;
                Action::RunAssertions
            },
            AssemblyStep::Abort(e) => {
                self.phase = Phase::Done;
                Action::Finish { lines: Vec::new(), outcome: Err(e) }
            },
        }
    }
}

/// The target paths of `fragments`, in order.
fn fragment_paths(fragments: &Vec<TestFragment>) -> (r: Vec<String>)
    ensures
        r@ == paths_of(fragments@),
{
    let mut r: Vec<String> = Vec::new();
    let mut i: usize = 0;
    while i < fragments.len()
        invariant
            i <= fragments@.len(),
            r@ == paths_of(fragments@.subrange(0, i as int)),
        decreases fragments@.len() - i,
    {
        r.push(fragments[i].path.clone());
        i = i + 1;
        assert(r@ =~= paths_of(fragments@.subrange(0, i as int)));
    }
    assert(fragments@.subrange(0, i as int) =~= fragments@);
    r
}

/// A fresh copy of a fragment's bindings.
fn copy_bindings(globals: &Vec<(String, String)>) -> (r: Vec<(String, String)>)
    ensures
        r@ == globals@,
{
    let mut r: Vec<(String, String)> = Vec::new();
    let mut i: usize = 0;
    while i < globals.len()
        invariant
            i <= globals@.len(),
            r@ == globals@.subrange(0, i as int),
        decreases globals@.len() - i,
    {
        let (name, value) = &globals[i];
        r.push((name.clone(), value.clone()));
        i = i + 1;
        assert(r@ =~= globals@.subrange(0, i as int));
    }
    assert(globals@.subrange(0, i as int) =~= globals@);
    r
}

} // verus!

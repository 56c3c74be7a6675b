use vstd::prelude::*;
use crate::error::{RunError, TestError};
use crate::result::TestResult;

verus! {

/// When graphs, paths and visualizations are saved.
#[derive(Copy, Clone, PartialEq, Eq, Debug, Structural)]
pub enum OutputMode {
    Always,
    OnFailure,
}

impl OutputMode {
    pub open spec fn spec_test(&self, failure: bool) -> bool {
        match self {
            OutputMode::Always => true,
            OutputMode::OnFailure => failure,
        }
    }

    /// Whether output is saved for a test with the given failure state.
    pub fn test(&self, failure: bool) -> (r: bool)
        ensures
            r == self.spec_test(failure),
    {
        match self {
            OutputMode::Always => true,
            OutputMode::OnFailure => failure,
        }
    }
}

/// The kinds of artifact that can be saved for a test file.
#[derive(Copy, Clone, PartialEq, Eq, Debug, Structural)]
pub enum ArtifactKind {
    Graph,
    Paths,
    Visualization,
}

/// An artifact to write: its kind, the path specification its file name is made
/// from, and whether a progress line announces it.
#[derive(Debug, PartialEq, Eq)]
pub struct Artifact {
    pub kind: ArtifactKind,
    pub path_spec: String,
    pub announce: bool,
}

/// A line of a test file's report.
#[derive(Debug, PartialEq, Eq)]
pub enum ReportLine {
    /// A file that no language applies to, skipped.
    Ignored { test: String },
    /// The summary: pass or fail, the path, and successes out of the total.
    Summary { success: bool, test: String, successes: usize, total: usize },
    /// The description of one failed assertion.
    Failure(String),
}

/// What a test file's result amounts to: whether it passed, and what to print.
#[derive(Debug, PartialEq, Eq)]
pub struct Report {
    pub success: bool,
    pub lines: Vec<ReportLine>,
}

/// Settings of a test run.
#[derive(Debug, PartialEq, Eq)]
pub struct Command {
    /// Test file or directory paths.
    pub tests: Vec<String>,
    /// Hide passing tests.
    pub hide_passing: bool,
    /// Hide failure error details.
    pub hide_failure_errors: bool,
    /// Show ignored files in output.
    pub show_ignored: bool,
    /// Path specification for the saved graph, if it is saved.
    pub save_graph: Option<String>,
    /// Path specification for the saved paths, if they are saved.
    pub save_paths: Option<String>,
    /// Path specification for the saved visualization, if it is saved.
    pub save_visualization: Option<String>,
    /// When graphs, paths and visualizations are saved.
    pub output_mode: OutputMode,
}

/// The report lines of a result with the given successes and failures: the summary unless the test passed and passing
/// tests are hidden, then the failures unless the test passed or failure details
/// are hidden.
pub open spec fn report_lines(
    hide_passing: bool,
    hide_failure_errors: bool,
    test: String,
    successes: nat,
    failures: Seq<String>,
) -> Seq<ReportLine> {
    let success = failures.len() == 0;
    let summary = if !success || !hide_passing {
        seq![
            ReportLine::Summary {
                success,
                test,
                successes: successes as usize,
                total: (successes + failures.len()) as usize,
            },
        ]
    } else {
        Seq::empty()
    };
    let details = if !success && !hide_failure_errors {
        failures.map_values(|f: String| ReportLine::Failure(f))
    } else {
        Seq::empty()
    };
    summary + details
}

/// The report of a file that no language applies to: a line naming it when
/// ignored files are shown.
pub open spec fn ignored_lines(show_ignored: bool, test: String) -> Seq<ReportLine> {
    if show_ignored {
        seq![ReportLine::Ignored { test }]
    } else {
        Seq::empty()
    }
}

/// The artifact of one kind, if it is saved.
pub open spec fn artifact_of(kind: ArtifactKind, spec: Option<String>, announce: bool) -> Seq<
    Artifact,
> {
    match spec {
        Some(path_spec) => seq![Artifact { kind, path_spec, announce }],
        None => Seq::empty(),
    }
}

impl Command {
    /// The artifacts to write for a test file: none unless the output mode
    /// applies to its outcome, else graph, paths and visualization, each where it
    /// is configured, in that order, announced unless the test passed and passing
    /// tests are hidden.
    pub open spec fn spec_artifacts(&self, success: bool) -> Seq<Artifact> {
        if self.output_mode.spec_test(!success) {
            let announce = !success || !self.hide_passing;
            artifact_of(ArtifactKind::Graph, self.save_graph, announce) + artifact_of(
                ArtifactKind::Paths,
                self.save_paths,
                announce,
            ) + artifact_of(ArtifactKind::Visualization, self.save_visualization, announce)
        } else {
            Seq::empty()
        }
    }

    /// Decides the report of a test file's result.
    pub fn handle_result(&self, test: &String, result: &TestResult) -> (r: Report)
        requires
            result.wf(),
        ensures
            r.success == (result.spec_failure_count() == 0),
            r.lines@ == report_lines(
                self.hide_passing,
                self.hide_failure_errors,
                *test,
                result.spec_success_count(),
                result.spec_failures(),
            ),
    {
        let success = result.failure_count() == 0;
        let mut lines: Vec<ReportLine> = Vec::new();
        if !success || !self.hide_passing {
            lines.push(
                ReportLine::Summary {
                    success,
                    test: test.clone(),
                    successes: result.success_count(),
                    total: result.count(),
                },
            );
        }
        let ghost summary = lines@;
        if !success && !self.hide_failure_errors {
            let failures = result.failures();
            let mut i: usize = 0;
            while i < failures.len()
                invariant
                    i <= failures@.len(),
                    failures@ == result.spec_failures(),
                    lines@ == summary + failures@.subrange(0, i as int).map_values(
                        |f: String| ReportLine::Failure(f),
                    ),
                decreases failures@.len() - i,
            {
                lines.push(ReportLine::Failure(failures[i].clone()));
                i = i + 1;
                assert(lines@ =~= summary + failures@.subrange(0, i as int).map_values(
                    |f: String| ReportLine::Failure(f),
                ));
            }
            assert(failures@.subrange(0, i as int) =~= failures@);
        }
        let r = Report { success, lines };
        assert(r.lines@ =~= report_lines(
            self.hide_passing,
            self.hide_failure_errors,
            *test,
            result.spec_success_count(),
            result.spec_failures(),
        ));
        r
    }

    /// The report of a file that no language applies to: a line naming it when
    /// ignored files are shown, else nothing.
    pub fn report_ignored(&self, test: &String) -> (r: Vec<ReportLine>)
        ensures
            r@ == ignored_lines(self.show_ignored, *test),
    {
        let mut lines: Vec<ReportLine> = Vec::new();
        if self.show_ignored {
            lines.push(ReportLine::Ignored { test: test.clone() });
        }
        assert(lines@ =~= ignored_lines(self.show_ignored, *test));
        lines
    }

    /// Decides which artifacts to write for a test file with the given outcome:
    /// none where the output mode does not apply to it (a passing test under
    /// the on-failure mode), else each configured one.
    pub fn save_output(&self, success: bool) -> (r: Vec<Artifact>)
        ensures
            r@ == self.spec_artifacts(success),
    {
        let mut out: Vec<Artifact> = Vec::new();
        if !self.output_mode.test(!success) {
            assert(out@ =~= self.spec_artifacts(success));
            return out;
        }
        let announce = !success || !self.hide_passing;
        if let Some(spec) = &self.save_graph {
            out.push(Artifact { kind: ArtifactKind::Graph, path_spec: spec.clone(), announce });
        }
        let ghost a = out@;
        assert(a =~= artifact_of(ArtifactKind::Graph, self.save_graph, announce));
        if let Some(spec) = &self.save_paths {
            out.push(Artifact { kind: ArtifactKind::Paths, path_spec: spec.clone(), announce });
        }
        let ghost b = out@;
        assert(b =~= a + artifact_of(ArtifactKind::Paths, self.save_paths, announce));
        if let Some(spec) = &self.save_visualization {
            out.push(
                Artifact { kind: ArtifactKind::Visualization, path_spec: spec.clone(), announce },
            );
        }
        assert(out@ =~= b + artifact_of(
            ArtifactKind::Visualization,
            self.save_visualization,
            announce,
        ));
        out
    }

    /// Adds the test file's path to a fatal error of its processing; a failure
    /// count passes through.
    pub fn run_test_with_context(&self, test: &String, outcome: Result<usize, TestError>) -> (r:
        Result<usize, RunError>)
        ensures
            outcome matches Ok(n) ==> r == Ok::<usize, RunError>(n),
            outcome matches Err(e) ==> r == Err::<usize, RunError>(
                RunError { test: *test, cause: e },
            ),
    {
        match outcome {
            Ok(n) => Ok(n),
            Err(cause) => Err(RunError { test: test.clone(), cause }),
        }
    }
}

impl Command {
    /// The path specification configured for an artifact kind, if any.
    pub open spec fn spec_path_spec(&self, kind: ArtifactKind) -> Option<String> {
        match kind {
            ArtifactKind::Graph => self.save_graph,
            ArtifactKind::Paths => self.save_paths,
            ArtifactKind::Visualization => self.save_visualization,
        }
    }
}

/// Under the on-failure mode a passing test file gets no artifact. Under the
/// always mode, whatever the outcome, each configured artifact is written once,
/// with its path specification, and no other.
pub proof fn lemma_artifact_policy(c: Command, success: bool)
    ensures
        c.output_mode == OutputMode::OnFailure && success ==> c.spec_artifacts(success).len() == 0,
        c.output_mode == OutputMode::Always ==> forall|k: ArtifactKind|
            #![trigger c.spec_path_spec(k)]
            (c.spec_path_spec(k) is Some <==> exists|j: int|
                0 <= j < c.spec_artifacts(success).len() && c.spec_artifacts(success)[j].kind
                    == k),
        c.output_mode == OutputMode::Always ==> forall|j: int|
            #![trigger c.spec_artifacts(success)[j]]
            0 <= j < c.spec_artifacts(success).len() ==> c.spec_path_spec(
                c.spec_artifacts(success)[j].kind,
            ) == Some(c.spec_artifacts(success)[j].path_spec),
        c.output_mode == OutputMode::Always ==> forall|i: int, j: int|
            0 <= i < j < c.spec_artifacts(success).len() ==> #[trigger] c.spec_artifacts(success)[i].kind
                != #[trigger] c.spec_artifacts(success)[j].kind,
{
    let announce = !success || !c.hide_passing;
    let g = artifact_of(ArtifactKind::Graph, c.save_graph, announce);
    let p = artifact_of(ArtifactKind::Paths, c.save_paths, announce);
    let v = artifact_of(ArtifactKind::Visualization, c.save_visualization, announce);
    if c.output_mode == OutputMode::Always {
        let a = c.spec_artifacts(success);
        assert(a == g + p + v);
        assert forall|k: ArtifactKind| #![trigger c.spec_path_spec(k)]
            (c.spec_path_spec(k) is Some <==> exists|j: int|
                0 <= j < a.len() && a[j].kind == k) by {
            match k {
                ArtifactKind::Graph => {
                    if c.save_graph is Some {
                        assert(a[0].kind == k);
                    }
                },
                ArtifactKind::Paths => {
                    if c.save_paths is Some {
                        assert(a[g.len() as int].kind == k);
                    }
                },
                ArtifactKind::Visualization => {
                    if c.save_visualization is Some {
                        assert(a[(g.len() + p.len()) as int].kind == k);
                    }
                },
            }
        }
    }
}

} // verus!

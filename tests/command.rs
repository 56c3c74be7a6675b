use sg_test::command::{Artifact, ArtifactKind, Command, OutputMode, ReportLine};
use sg_test::error::{RunError, TestError};
use sg_test::result::{AssertionOutcome, TestResult};

fn s(x: &str) -> String {
    x.to_string()
}

fn command(mode: OutputMode) -> Command {
    Command {
        tests: vec![s("tests")],
        hide_passing: false,
        hide_failure_errors: false,
        show_ignored: false,
        save_graph: None,
        save_paths: None,
        save_visualization: None,
        output_mode: mode,
    }
}

fn one_pass_one_fail() -> TestResult {
    TestResult::from_outcomes(&vec![
        AssertionOutcome::Passed,
        AssertionOutcome::Failed(s("expected reference to resolve")),
    ])
}

#[test]
fn output_mode_test() {
    assert!(OutputMode::Always.test(false));
    assert!(OutputMode::Always.test(true));
    assert!(OutputMode::OnFailure.test(true));
    assert!(!OutputMode::OnFailure.test(false));
}

#[test]
fn failing_test_reports_summary_and_failures_and_saves_graph() {
    let mut c = command(OutputMode::OnFailure);
    c.save_graph = Some(s("%n.graph.json"));
    let result = one_pass_one_fail();
    let report = c.handle_result(&s("test.py"), &result);
    assert!(!report.success);
    assert_eq!(
        report.lines,
        vec![
            ReportLine::Summary {
                success: false,
                test: s("test.py"),
                successes: 1,
                total: 2
            },
            ReportLine::Failure(s("expected reference to resolve")),
        ]
    );
    assert_eq!(
        c.save_output(report.success),
        vec![Artifact {
            kind: ArtifactKind::Graph,
            path_spec: s("%n.graph.json"),
            announce: true
        }]
    );
}

#[test]
fn hidden_failure_details() {
    let mut c = command(OutputMode::OnFailure);
    c.hide_failure_errors = true;
    let report = c.handle_result(&s("t.py"), &one_pass_one_fail());
    assert_eq!(report.lines.len(), 1);
    assert!(matches!(report.lines[0], ReportLine::Summary { success: false, .. }));
}

#[test]
fn passing_test_reports_summary_only() {
    let c = command(OutputMode::OnFailure);
    let result = TestResult::from_outcomes(&vec![AssertionOutcome::Passed]);
    let report = c.handle_result(&s("t.py"), &result);
    assert!(report.success);
    assert_eq!(
        report.lines,
        vec![ReportLine::Summary {
            success: true,
            test: s("t.py"),
            successes: 1,
            total: 1
        }]
    );
}

#[test]
fn hidden_passing_test_reports_nothing() {
    let mut c = command(OutputMode::Always);
    c.hide_passing = true;
    c.save_paths = Some(s("%n.paths.json"));
    let report = c.handle_result(&s("t.py"), &TestResult::from_outcomes(&vec![]));
    assert!(report.success);
    assert!(report.lines.is_empty());
    assert_eq!(
        c.save_output(true),
        vec![Artifact {
            kind: ArtifactKind::Paths,
            path_spec: s("%n.paths.json"),
            announce: false
        }]
    );
}

#[test]
fn on_failure_mode_saves_nothing_for_passing_test() {
    let mut c = command(OutputMode::OnFailure);
    c.save_graph = Some(s("g"));
    c.save_paths = Some(s("p"));
    c.save_visualization = Some(s("v"));
    assert!(c.save_output(true).is_empty());
    assert_eq!(c.save_output(false).len(), 3);
}

#[test]
fn always_mode_saves_every_configured_artifact() {
    let mut c = command(OutputMode::Always);
    c.save_graph = Some(s("%n.graph.json"));
    c.save_visualization = Some(s("%n.html"));
    for success in [true, false] {
        let kinds: Vec<ArtifactKind> = c.save_output(success).iter().map(|a| a.kind).collect();
        assert_eq!(kinds, vec![ArtifactKind::Graph, ArtifactKind::Visualization]);
    }
    let none = command(OutputMode::Always);
    assert!(none.save_output(false).is_empty());
}

#[test]
fn ignored_file_is_reported_when_shown() {
    let mut c = command(OutputMode::OnFailure);
    assert!(c.report_ignored(&s("README.md")).is_empty());
    c.show_ignored = true;
    assert_eq!(
        c.report_ignored(&s("README.md")),
        vec![ReportLine::Ignored { test: s("README.md") }]
    );
}

#[test]
fn run_test_with_context_names_the_test() {
    let c = command(OutputMode::OnFailure);
    assert_eq!(c.run_test_with_context(&s("t.py"), Ok(3)), Ok(3));
    let e = TestError::DuplicateBuiltin { name: s("builtins.py") };
    assert_eq!(
        c.run_test_with_context(&s("t.py"), Err(TestError::DuplicateBuiltin { name: s("builtins.py") })),
        Err(RunError {
            test: s("t.py"),
            cause: e
        })
    );
}

//! The subtargets report and the invocation-paths outcome.

use promise_artifacts::invocation_paths::BuildError;
use promise_artifacts::invocation_paths::InvocationPaths;
use promise_artifacts::invocation_paths::InvocationPathsResult;
use promise_artifacts::location::FileSpan;
use promise_artifacts::subtargets::SubtargetsResult;
use promise_artifacts::subtargets::subtargets_report;

#[test]
fn report_lists_subtargets_per_target_in_order() {
    let results = vec![
        SubtargetsResult {
            target: "cell//pkg:one".to_string(),
            outcome: Ok(vec!["doc".to_string(), "lib".to_string()]),
        },
        SubtargetsResult {
            target: "cell//pkg:two".to_string(),
            outcome: Ok(vec!["bin".to_string()]),
        },
    ];
    let report = subtargets_report(&results);
    assert_eq!(
        report.stdout,
        "cell//pkg:one[doc]\ncell//pkg:one[lib]\ncell//pkg:two[bin]\n"
    );
    assert_eq!(report.stderr, "");
    assert!(!report.any_failed);
    assert!(report.evaluation_result().is_ok());
}

#[test]
fn report_indents_failures_and_fails_overall() {
    let results = vec![
        SubtargetsResult {
            target: "cell//pkg:ok".to_string(),
            outcome: Ok(vec!["sub".to_string()]),
        },
        SubtargetsResult {
            target: "cell//pkg:bad".to_string(),
            outcome: Err("boom\ndetails".to_string()),
        },
    ];
    let report = subtargets_report(&results);
    assert_eq!(report.stdout, "cell//pkg:ok[sub]\n");
    assert_eq!(report.stderr, "cell//pkg:bad: failed:\n  boom\n  details");
    assert!(report.any_failed);
    let err = report.evaluation_result().unwrap_err();
    assert_eq!(err, "Evaluation of at least one target provider failed");
}

#[test]
fn report_of_no_targets_is_empty() {
    let report = subtargets_report(&vec![]);
    assert_eq!(report.stdout, "");
    assert_eq!(report.stderr, "");
    assert!(!report.any_failed);
}

#[test]
fn target_with_no_subtargets_prints_nothing() {
    let results = vec![SubtargetsResult {
        target: "cell//pkg:bare".to_string(),
        outcome: Ok(vec![]),
    }];
    let report = subtargets_report(&results);
    assert_eq!(report.stdout, "");
    assert!(!report.any_failed);
}

#[test]
fn get_result_returns_paths_only_on_success() {
    let paths = InvocationPaths {
        project_root: "/repo".to_string(),
        isolation_dir: "v2".to_string(),
    };
    let ok = InvocationPathsResult::Paths(paths.clone()).get_result().unwrap();
    assert_eq!(ok.project_root, "/repo");
    assert_eq!(ok.isolation_dir, "v2");

    let e1 = InvocationPathsResult::OtherError(BuildError { message: "no daemon dir".to_string() })
        .get_result()
        .unwrap_err();
    assert_eq!(e1.message, "no daemon dir");

    let e2 = InvocationPathsResult::OutsideOfRepo(BuildError { message: "not in a repo".to_string() })
        .get_result()
        .unwrap_err();
    assert_eq!(e2.message, "not in a repo");
}

#[test]
fn from_error_wraps_as_other_error() {
    let r = InvocationPathsResult::from_error(BuildError { message: "bad".to_string() });
    assert!(matches!(r, InvocationPathsResult::OtherError(e) if e.message == "bad"));
}

#[test]
fn file_span_renders_file_line_column() {
    let span = FileSpan { file: "defs.bzl".to_string(), line: 12, column: 5 };
    assert_eq!(span.render(), "defs.bzl:12:5");
}

use allow_report::github_pr_check::{
    project_github_pr_check, validate_github_pr_check_v1, BaseScanCompletenessV1,
    GitHubPrAnnotationClassV1, GitHubPrCheckResultV1, GitHubPrCheckSubjectV1, GitHubPrDiffReportViewV1,
    GitHubPrDiffViewV1, GitHubPrFindingChangeRowViewV1,
};

fn subject() -> GitHubPrCheckSubjectV1 {
    GitHubPrCheckSubjectV1 {
        repository: "EffortlessMetrics/cargo-allow".to_string(),
        pr_number: 7,
        base: "main".to_string(),
        merge_base: "a".repeat(40),
        head: "b".repeat(40),
    }
}

fn row(key: &str, movement: &str, changed: bool, line: Option<u32>) -> GitHubPrFindingChangeRowViewV1 {
    GitHubPrFindingChangeRowViewV1 {
        change: "added".to_string(),
        movement: movement.to_string(),
        posture_delta: String::new(),
        changed_in_diff: changed,
        key: key.to_string(),
        kind: "unsafe".to_string(),
        path: "src/lib.rs".to_string(),
        line,
    }
}

fn report(rows: Vec<GitHubPrFindingChangeRowViewV1>) -> GitHubPrDiffReportViewV1 {
    GitHubPrDiffReportViewV1 {
        schema_id: "cargo-allow.report.v1".to_string(),
        status: "passed".to_string(),
        failed: false,
        inventory: None,
        diff: Some(GitHubPrDiffViewV1 { net_posture: "same".to_string(), finding_changes: rows }),
    }
}

#[test]
fn clean_report_passes_and_validates() {
    let check = project_github_pr_check(&report(vec![]), &subject(), BaseScanCompletenessV1::Complete, 10, "artifact://1");
    assert_eq!(check.result, GitHubPrCheckResultV1::Passed);
    assert_eq!(check.annotated_count, 0);
    assert_eq!(check.omitted_count, 0);
    assert_eq!(validate_github_pr_check_v1(&check), Ok(()));
}

#[test]
fn introduced_rows_block_and_annotations_are_ordered_by_priority_then_key() {
    let mut worsened = row("k-a", "persisting", true, Some(3));
    worsened.posture_delta = "worsened".to_string();
    let rows = vec![
        row("k-z", "introduced", true, Some(9)),
        worsened,
        row("k-b", "introduced", true, Some(1)),
        row("k-u", "persisting", false, Some(2)),
    ];
    let check = project_github_pr_check(&report(rows), &subject(), BaseScanCompletenessV1::Complete, 10, "artifact://1");
    assert_eq!(check.result, GitHubPrCheckResultV1::FindingsBlocking);
    assert_eq!(check.introduced_count, 2);
    assert_eq!(check.worsened_count, 1);
    assert_eq!(check.persisting_unaffected_count, 1);
    let ids: Vec<&str> = check.annotations.iter().map(|a| a.annotation_id.as_str()).collect();
    assert_eq!(ids, vec!["k-b", "k-z", "k-a"]);
    assert_eq!(check.annotations[0].message, "introduced unsafe: k-b (artifact://1)");
    assert_eq!(check.annotations[2].classification, GitHubPrAnnotationClassV1::Worsened);
}

#[test]
fn budget_truncation_is_counted_and_never_clean() {
    let rows = vec![
        row("k-1", "persisting", true, Some(1)),
        row("k-2", "persisting", true, Some(2)),
        row("k-3", "persisting", true, None),
    ];
    let check = project_github_pr_check(&report(rows), &subject(), BaseScanCompletenessV1::Complete, 1, "artifact://1");
    assert_eq!(check.annotated_count, 1);
    assert_eq!(check.annotations[0].annotation_id, "k-1");
    assert_eq!(check.omitted_count, 2);
    assert_eq!(check.result, GitHubPrCheckResultV1::FindingsAdvisory);
    assert!(check.limitations.iter().any(|l| l.contains("budget truncated")));
}

#[test]
fn partial_coverage_and_foreign_reports_fail_honest() {
    let rows = vec![row("k-1", "introduced", true, Some(1))];
    let check = project_github_pr_check(&report(rows), &subject(), BaseScanCompletenessV1::BasePartial, 10, "artifact://1");
    assert_eq!(check.result, GitHubPrCheckResultV1::Partial);
    assert_eq!(check.unknown_count, 1);
    assert_eq!(check.annotations[0].classification, GitHubPrAnnotationClassV1::UnknownAttribution);
    let mut foreign = report(vec![]);
    foreign.schema_id = "other".to_string();
    let check = project_github_pr_check(&foreign, &subject(), BaseScanCompletenessV1::Complete, 10, "artifact://1");
    assert_eq!(check.result, GitHubPrCheckResultV1::Unsupported);
    assert_eq!(check.limitations.len(), 2);
    let mut no_diff = report(vec![]);
    no_diff.diff = None;
    let check = project_github_pr_check(&no_diff, &subject(), BaseScanCompletenessV1::Complete, 10, "artifact://1");
    assert_eq!(check.result, GitHubPrCheckResultV1::InstrumentFailure);
}

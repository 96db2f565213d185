use ossify::doctor::{ActionlintError, DoctorSeverity};
use ossify::workflow::{workflow_report, WorkflowDocument, WorkflowJob};

#[test]
fn no_workflow_files_scores_full() {
    let report = workflow_report(String::from("/repo"), 0, &vec![], &vec![], &vec![]);
    assert_eq!(report.score, Some(100));
    assert!(report.findings.is_empty());
    assert!(report.engine_available);
}

#[test]
fn actionlint_and_hygiene_findings_are_listed_and_scored() {
    let entries = vec![ActionlintError {
        filepath: String::from(".github/workflows/ci.yml"),
        message: String::from("unexpected key"),
        line: 5,
        column: 11,
        kind: Some(String::from("syntax-check")),
    }];
    let resolved = vec![String::from("/repo/.github/workflows/ci.yml")];
    let documents = vec![WorkflowDocument {
        path: String::from("/repo/.github/workflows/ci.yml"),
        has_permissions: true,
        has_concurrency: true,
        jobs: vec![WorkflowJob { id: String::from("test"), has_timeout: true }],
        uses: vec![String::from("actions/checkout@v4")],
    }];
    let report = workflow_report(String::from("/repo"), 1, &entries, &resolved, &documents);
    assert_eq!(report.findings.len(), 1);
    assert_eq!(report.findings[0].code, "workflow.syntax-check");
    assert_eq!(report.findings[0].message, "unexpected key (line 5, col 11)");
    assert_eq!(report.findings[0].file.as_deref(), Some("/repo/.github/workflows/ci.yml"));
    assert_eq!(report.findings[0].severity, DoctorSeverity::Error);
    assert_eq!(report.score, Some(49));
}

#[test]
fn workflow_hygiene_finds_missing_guardrails() {
    let documents = vec![WorkflowDocument {
        path: String::from("/repo/.github/workflows/ci.yml"),
        has_permissions: false,
        has_concurrency: false,
        jobs: vec![WorkflowJob { id: String::from("test"), has_timeout: false }],
        uses: vec![String::from("actions/checkout@v4"), String::from("Swatinem/rust-cache@v2")],
    }];
    let report = workflow_report(String::from("/repo"), 1, &vec![], &vec![], &documents);
    let findings = &report.findings;
    assert!(findings.iter().any(|finding| finding.code == "workflow.permissions.missing"));
    assert!(findings.iter().any(|finding| finding.code == "workflow.concurrency.missing"));
    assert!(findings.iter().any(|finding| finding.code == "workflow.timeout.missing"));
    assert!(findings.iter().any(|finding| finding.code == "workflow.actions.unpinned"));
    assert_eq!(findings.iter().filter(|finding| finding.code == "workflow.timeout.missing").count(), 1);
}

#[test]
fn lint_kind_defaults_when_missing() {
    let entries = vec![ActionlintError {
        filepath: String::new(),
        message: String::from("bad expression"),
        line: 0,
        column: 0,
        kind: None,
    }];
    let report = workflow_report(String::from("/repo"), 1, &entries, &vec![String::new()], &vec![]);
    assert_eq!(report.findings[0].code, "workflow.lint");
    assert_eq!(report.findings[0].message, "bad expression");
    assert!(report.findings[0].file.is_none());
    assert_eq!(report.score, Some(69));
}

use ossify::doctor::{
    doctor_finding, DocsDoctorReport, DoctorDomain, DoctorEcosystem, DoctorFinding, DoctorSeverity,
    EcosystemDoctorScore, EngineSource, WorkflowDoctorReport,
};
use ossify::engines::ManagedEngineStatus;
use ossify::human::{
    build_domain_file_reports, compact_mutable_refs_message, compact_workflow_details,
    domain_next_fixes, relative_location, workflow_next_fixes,
};
use ossify::render::{
    render_docs_doctor_human, render_multi_domain_doctor_human, render_workflow_doctor_human,
};
use ossify::styled::{
    format_severity_counts, truncate_visible, visible_width, wrap_prefixed, wrap_words, ReportStyle,
};

fn finding(
    ecosystem: Option<DoctorEcosystem>,
    severity: DoctorSeverity,
    code: &str,
    message: &str,
    file: Option<&str>,
    help: Option<&str>,
    fix_hint: Option<&str>,
) -> DoctorFinding {
    let mut f = doctor_finding(
        DoctorDomain::Deps,
        ecosystem,
        severity,
        code,
        message,
        file.map(String::from),
        help.map(String::from),
    );
    f.fix_hint = fix_hint.map(String::from);
    f
}

fn deps_findings() -> Vec<DoctorFinding> {
    vec![
        finding(
            Some(DoctorEcosystem::Rust),
            DoctorSeverity::Warning,
            "deps.lockfile.missing",
            "Cargo.lock is missing",
            Some("/repo/Cargo.toml"),
            Some("Commit Cargo.lock"),
            None,
        ),
        finding(
            Some(DoctorEcosystem::Rust),
            DoctorSeverity::Info,
            "deps.version.wildcard",
            "Wildcard version",
            Some("/repo/Cargo.toml"),
            None,
            Some("Pin versions"),
        ),
        finding(
            None,
            DoctorSeverity::Error,
            "deps.policy.missing",
            "Policy missing",
            None,
            Some("Add deny.toml"),
            None,
        ),
    ]
}

fn rust_score() -> EcosystemDoctorScore {
    EcosystemDoctorScore {
        ecosystem: DoctorEcosystem::Rust,
        score: 72,
        cap: Some(80),
        cap_reason: Some(String::from("advisory cap")),
        cap_code: Some(String::from("deps.cap.advisory")),
        engine: String::from("cargo-deny"),
        engine_source: EngineSource::ManagedTool,
        engine_status: ManagedEngineStatus::Managed,
        engine_detail: None,
        finding_count: 2,
    }
}

#[test]
fn deps_report_renders_sections_in_order() {
    let text = render_multi_domain_doctor_human(
        "OSSIFY DEPS DOCTOR",
        "deps",
        "/repo",
        Some(72),
        "cargo-deny",
        "Dependency posture has 1 warning(s).",
        &vec![rust_score()],
        &deps_findings(),
        false,
        100,
    );
    let expected = [
        "OSSIFY DEPS DOCTOR",
        "score  72/100  ecosystems  rust  engine  cargo-deny",
        "target /repo",
        "summary Dependency posture has 1 warning(s).  err 1 warn 1 info 1  deps policy blend",
        "cap advisory cap",
        "",
        "By Ecosystem",
        "rust  72/100  cargo-deny  2 finding(s) cap 80",
        "  cap reason: advisory cap",
        "",
        "By File",
        ".  err 1  1 issue(s)  ",
        "  ● Policy missing",
        "Cargo.toml  warn 1 info 1  2 issue(s)  [rust]",
        "  ● Cargo.lock is missing",
        "  ● Wildcard version",
        "",
        "Next Fixes",
        "  • Add deny.toml",
        "  • Commit Cargo.lock",
        "  • Pin versions",
    ]
    .join("\n");
    assert_eq!(text, expected);
}

#[test]
fn deps_report_without_findings_says_so() {
    let text = render_multi_domain_doctor_human(
        "OSSIFY RELEASE DOCTOR",
        "release",
        "/repo",
        None,
        "ossify",
        "No release findings.",
        &Vec::new(),
        &Vec::new(),
        false,
        100,
    );
    let expected = [
        "OSSIFY RELEASE DOCTOR",
        "score  unavailable  ecosystems  none detected  engine  ossify",
        "target /repo",
        "summary No release findings.  clean  release policy blend",
        "",
        "No release findings.",
    ]
    .join("\n");
    assert_eq!(text, expected);
}

#[test]
fn colored_report_keeps_its_visible_width() {
    let style = ReportStyle { enabled: true };
    let painted = style.paint("91", "abc");
    assert_eq!(painted, "\u{1b}[91mabc\u{1b}[0m");
    assert_eq!(visible_width(&painted), 3);
    assert_eq!(style.score(Some(90)), "\u{1b}[92m90/100\u{1b}[0m");
    assert_eq!(style.score(Some(60)), "\u{1b}[93m60/100\u{1b}[0m");
    assert_eq!(style.score(Some(59)), "\u{1b}[91m59/100\u{1b}[0m");
    assert_eq!(
        format_severity_counts(&style, 2, 0, 1),
        "\u{1b}[91merr 1\u{1b}[0m \u{1b}[93mwarn 2\u{1b}[0m"
    );
    assert_eq!(format_severity_counts(&ReportStyle { enabled: false }, 0, 0, 0), "clean");
}

#[test]
fn words_wrap_to_the_width() {
    assert_eq!(wrap_words("short text", 24), vec!["short text"]);
    assert_eq!(
        wrap_words("alpha beta gamma delta", 11),
        vec!["alpha beta", "gamma delta"]
    );
    assert_eq!(wrap_words("tiny enormousword", 5), vec!["tiny", "enorm"]);
    assert_eq!(truncate_visible("abcdef", 3), "abc");
    assert_eq!(
        wrap_prefixed("one two three four five six seven eight nine ten", "  ", 20),
        vec![
            "  one two three four five",
            "  six seven eight nine ten",
        ]
    );
}

#[test]
fn findings_group_by_relative_file() {
    assert_eq!(relative_location("/repo", &Some(String::from("/repo/a/b.md"))), "a/b.md");
    assert_eq!(relative_location("/repo/", &Some(String::from("/repo/a.md"))), "a.md");
    assert_eq!(relative_location("/repo", &Some(String::from("/other/a.md"))), "/other/a.md");
    assert_eq!(relative_location("/repo", &None), ".");
    let reports = build_domain_file_reports("/repo", &deps_findings());
    assert_eq!(reports.len(), 2);
    assert_eq!(reports[0].path, ".");
    assert_eq!(reports[0].error_count, 1);
    assert!(reports[0].ecosystems.is_empty());
    assert_eq!(reports[1].path, "Cargo.toml");
    assert_eq!(reports[1].detail_count, 2);
    assert_eq!(reports[1].warning_count, 1);
    assert_eq!(reports[1].info_count, 1);
    assert_eq!(reports[1].ecosystems, vec![DoctorEcosystem::Rust]);
    assert_eq!(reports[1].details[1].message, "Wildcard version");
    assert_eq!(
        domain_next_fixes(&deps_findings()),
        vec!["Add deny.toml", "Commit Cargo.lock", "Pin versions"]
    );
}

fn workflow_finding(severity: DoctorSeverity, code: &str, message: &str, file: &str) -> DoctorFinding {
    doctor_finding(
        DoctorDomain::Workflow,
        None,
        severity,
        code,
        message,
        Some(String::from(file)),
        None,
    )
}

#[test]
fn mutable_refs_message_is_compacted() {
    assert_eq!(
        compact_mutable_refs_message(
            "Workflow uses mutable action refs: actions/cache@v4, foo/bar@main"
        ),
        "2 mutable action ref(s): actions/cache@v4, foo/bar@main"
    );
    assert_eq!(
        compact_mutable_refs_message("no refs listed"),
        "mutable action refs should be pinned to full commit SHAs"
    );
}

#[test]
fn workflow_details_put_errors_first() {
    let findings = vec![
        workflow_finding(
            DoctorSeverity::Warning,
            "workflow.permissions.missing",
            "ci.yml has no permissions",
            "/repo/.github/workflows/ci.yml",
        ),
        workflow_finding(
            DoctorSeverity::Error,
            "actionlint.syntax-check",
            "bad key",
            "/repo/.github/workflows/ci.yml",
        ),
    ];
    let details = compact_workflow_details(&findings);
    assert_eq!(details[0].severity, DoctorSeverity::Error);
    assert_eq!(details[0].message, "bad key");
    assert_eq!(details[1].message, "explicit `permissions:` block is missing");
    assert_eq!(
        workflow_next_fixes(&findings),
        vec!["Declare top-level `permissions:` in CI with the narrowest token scope."]
    );
    let report = WorkflowDoctorReport {
        target: String::from("/repo"),
        score: Some(40),
        workflow_files: 1,
        engine: String::from("actionlint"),
        engine_available: true,
        findings,
    };
    let text = render_workflow_doctor_human(&report, false, 100);
    let lines: Vec<&str> = text.lines().collect();
    assert_eq!(lines[0], "OSSIFY WORKFLOW DOCTOR");
    assert_eq!(lines[1], "score  40/100  workflows  1  engine  actionlint");
    assert_eq!(lines[2], "target /repo");
    assert!(lines[3].starts_with("summary "));
    assert!(lines[3].ends_with("  err 1 warn 1  actionlint + ossify"));
    assert_eq!(lines[5], "By File");
    assert_eq!(lines[6], ".github/workflows/ci.yml  err 1 warn 1  2 issue(s)");
    assert_eq!(lines[7], "  ● bad key");
    assert_eq!(lines[8], "  ● explicit `permissions:` block is missing");
    assert_eq!(lines[10], "Next Fixes");
    assert_eq!(
        lines[11],
        "  • Declare top-level `permissions:` in CI with the narrowest token scope."
    );
}

#[test]
fn docs_report_lists_findings_with_help() {
    let report = DocsDoctorReport {
        target: String::from("/repo"),
        score: 88,
        markdown_files: 3,
        local_links_checked: 4,
        findings: vec![doctor_finding(
            DoctorDomain::Docs,
            None,
            DoctorSeverity::Warning,
            "docs.link.broken",
            "Broken link to guide.md",
            Some(String::from("/repo/README.md")),
            Some(String::from("Fix the link")),
        )],
    };
    let text = render_docs_doctor_human(&report);
    let expected = [
        "OSSIFY DOCS DOCTOR",
        "Target: /repo",
        "Score: 88/100",
        "Markdown files scanned: 3",
        "Local links checked: 4",
        "Summary: Documentation surface has 1 warning(s).",
        "",
        "Findings",
        "[warning] README.md | Broken link to guide.md",
        "  -> Fix the link",
    ]
    .join("\n");
    assert_eq!(text, expected);
}

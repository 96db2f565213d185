use ossify::docs::{analyze_markdown, docs_report, LinkTarget};
use ossify::doctor::{
    doctor_finding, DoctorDomain, DoctorEcosystem, DoctorSeverity, EngineSource,
    WorkflowDoctorReport,
};
use ossify::domains::{
    assemble_deps_report, assemble_release_report, audit_domain_scores, deps_scan, release_scan,
};
use ossify::engines::{ManagedEngineError, ManagedEngineStatus, ManagedTool};
use ossify::rust_deps::{
    RustDepsCaps, RustDepsCombination, RustDepsScoringProfile, RustDepsWeights,
};

fn profile() -> RustDepsScoringProfile {
    RustDepsScoringProfile {
        version: 1,
        objective: String::from("ordered caps"),
        weights: RustDepsWeights {
            advisory_critical: 40,
            advisory_high: 25,
            advisory_medium: 12,
            advisory_low: 6,
            advisory_unmaintained: 8,
            advisory_yanked: 8,
            advisory_unsound: 10,
            advisory_informational: 2,
            advisory_reported: 4,
            lockfile_missing: 10,
            policy_missing: 6,
            license_missing: 4,
            version_wildcard: 6,
            source_direct: 8,
            source_path: 2,
            source_registry: 4,
            license_reported: 4,
            source_reported: 4,
            bans_reported: 4,
            engine_signal: 2,
        },
        caps: RustDepsCaps {
            advisory_critical: 29,
            advisory_high: 49,
            advisory_medium: 69,
            advisory_low: 84,
            advisory_unmaintained: 79,
            advisory_yanked: 74,
            advisory_unsound: 59,
            advisory_informational: 89,
            advisory_reported: 79,
        },
        combination: RustDepsCombination {
            repeated_advisory_penalty: 3,
            low_signal_stack_penalty: 2,
            unmaintained_cap_step: 5,
            yanked_cap_step: 5,
            policy_only_floor: 90,
        },
    }
}

fn deps_finding(ecosystem: DoctorEcosystem, code: &str, severity: DoctorSeverity) -> ossify::doctor::DoctorFinding {
    doctor_finding(DoctorDomain::Deps, Some(ecosystem), severity, code, code, None, None)
}

#[test]
fn deps_scan_puts_engine_findings_first() {
    let scan = deps_scan(
        DoctorEcosystem::Node,
        vec![deps_finding(DoctorEcosystem::Node, "deps.node.lockfile.missing", DoctorSeverity::Warning)],
        Ok(vec![deps_finding(DoctorEcosystem::Node, "deps.node.vulnerability.high", DoctorSeverity::Error)]),
    );
    assert_eq!(scan.findings.len(), 2);
    assert_eq!(scan.findings[0].code, "deps.node.vulnerability.high");
    assert_eq!(scan.engine_source, EngineSource::ManagedTool);
    assert_eq!(scan.engine_status, ManagedEngineStatus::Managed);
}

#[test]
fn deps_scan_records_fallback() {
    let scan = deps_scan(
        DoctorEcosystem::Python,
        vec![],
        Err(ManagedEngineError {
            tool: ManagedTool::PipAudit,
            status: ManagedEngineStatus::RuntimeMissing,
            message: String::from("python missing"),
        }),
    );
    assert_eq!(scan.findings.len(), 1);
    assert_eq!(scan.findings[0].code, "deps.python.engine-runtime-missing");
    assert_eq!(scan.findings[0].severity, DoctorSeverity::Warning);
    assert_eq!(
        scan.findings[0].help.as_deref(),
        Some("ossify kept the absorbed policy fallback active for this ecosystem.")
    );
    assert_eq!(scan.engine_source, EngineSource::AbsorbedPolicy);
    assert_eq!(scan.engine_detail.as_deref(), Some("python missing"));
}

#[test]
fn empty_deps_report_scores_full() {
    let report = assemble_deps_report(String::from("/repo"), DoctorEcosystem::Auto, vec![], &profile());
    assert_eq!(report.domain.score, Some(100));
    assert_eq!(report.domain.engine, "cargo-deny + audit-ci + pip-audit semantics");
    assert_eq!(report.domain.summary, "No supported dependency ecosystems were detected.");
    assert!(report.ecosystems.is_empty());
    assert!(report.findings.is_empty());
}

#[test]
fn deps_report_takes_lowest_cap_and_averages() {
    let node = deps_scan(
        DoctorEcosystem::Node,
        vec![],
        Ok(vec![deps_finding(DoctorEcosystem::Node, "deps.node.vulnerability.critical", DoctorSeverity::Error)]),
    );
    let python = deps_scan(DoctorEcosystem::Python, vec![], Ok(vec![]));
    let report = assemble_deps_report(
        String::from("/repo"),
        DoctorEcosystem::Auto,
        vec![node, python],
        &profile(),
    );
    assert_eq!(report.ecosystems.len(), 2);
    assert_eq!(report.ecosystems[0].cap, Some(39));
    assert_eq!(report.ecosystems[1].score, 100);
    assert_eq!(report.domain.cap, Some(39));
    assert_eq!(report.domain.cap_code.as_deref(), Some("deps.node.cap"));
    assert!(report.domain.score.unwrap() <= 39);
    assert_eq!(report.domain.error_count, 1);
    assert_eq!(report.domain.engine_source, EngineSource::ManagedTool);
    assert_eq!(report.domain.ecosystems, vec![DoctorEcosystem::Node, DoctorEcosystem::Python]);
}

#[test]
fn release_report_caps_on_errors() {
    let rust = release_scan(
        DoctorEcosystem::Rust,
        vec![doctor_finding(
            DoctorDomain::Release,
            Some(DoctorEcosystem::Rust),
            DoctorSeverity::Error,
            "release.rust.version.missing",
            "no version",
            None,
            None,
        )],
        Ok(()),
    );
    let report = assemble_release_report(String::from("/repo"), DoctorEcosystem::Rust, vec![rust]);
    assert_eq!(report.ecosystems[0].cap, Some(59));
    assert_eq!(
        report.ecosystems[0].cap_reason.as_deref(),
        Some("release rust checks capped score at 59/100")
    );
    assert_eq!(report.ecosystems[0].cap_code.as_deref(), Some("release.rust.cap"));
    assert_eq!(report.domain.cap, Some(59));
    assert!(report.domain.score.unwrap() <= 59);
}

#[test]
fn empty_release_report_scores_full() {
    let report = assemble_release_report(String::from("/repo"), DoctorEcosystem::Auto, vec![]);
    assert_eq!(report.domain.score, Some(100));
    assert_eq!(report.domain.summary, "No supported release ecosystems were detected.");
}

#[test]
fn audit_domains_skip_empty_surfaces() {
    let readme = analyze_markdown("/repo/README.md", "# Demo\n\n## Install\n\n```\nx\n```\n\n## Usage\n");
    let docs = docs_report(String::from("/repo"), "/repo/README.md", &vec![readme], &vec![vec![]]);
    let workflow = WorkflowDoctorReport {
        target: String::from("/repo"),
        score: Some(100),
        workflow_files: 0,
        engine: String::from("actionlint"),
        engine_available: true,
        findings: vec![],
    };
    let deps = assemble_deps_report(String::from("/repo"), DoctorEcosystem::Auto, vec![], &profile());
    let release = assemble_release_report(
        String::from("/repo"),
        DoctorEcosystem::Auto,
        vec![release_scan(DoctorEcosystem::Node, vec![], Ok(()))],
    );
    let scores = audit_domain_scores(&docs, &workflow, deps, release);
    assert_eq!(scores.len(), 2);
    assert_eq!(scores[0].domain, DoctorDomain::Docs);
    assert_eq!(scores[0].score, Some(100));
    assert_eq!(scores[1].domain, DoctorDomain::Release);
    let _unused = LinkTarget { path: String::new(), exists: false };
}

use ossify::audit::{rule_specs, AuditDiagnostic, CheckStatus, FindingSeverity, ReadinessTier, RuleCategory, RuleSpec};
use ossify::audit_report::{build_check, category_scores, AuditCheck, AuditReport};
use ossify::dashboard::{
    compact_cap_reason, diagnostic_lines, meter, render_audit_dashboard, top_gaps, top_strengths,
};
use ossify::doctor::{DoctorDomain, DoctorDomainScore, EngineSource};
use ossify::panels::display_width;
use ossify::project::{ProjectContext, ProjectKind};
use ossify::readme::RuleAssessment;

fn spec_for(id: &str) -> RuleSpec {
    *rule_specs().iter().find(|spec| spec.id == id).expect("rule spec")
}

fn assessment(coverage: u8, message: &str) -> RuleAssessment {
    let status = if coverage >= 85 {
        CheckStatus::Strong
    } else if coverage >= 20 {
        CheckStatus::Partial
    } else {
        CheckStatus::Missing
    };
    RuleAssessment {
        status,
        coverage,
        confidence_permille: 900,
        message: String::from(message),
        evidence: Vec::new(),
        findings: Vec::new(),
        location: None,
    }
}

fn check(id: &str, weight: u16, coverage: u8, message: &str) -> AuditCheck {
    build_check(&spec_for(id), weight, None, assessment(coverage, message))
}

fn domain(domain: DoctorDomain, score: Option<u8>, cap: Option<u8>, reason: Option<&str>) -> DoctorDomainScore {
    DoctorDomainScore {
        domain,
        score,
        cap,
        cap_reason: reason.map(String::from),
        cap_code: None,
        engine: String::from("ossify"),
        engine_source: EngineSource::OssifyNative,
        ecosystems: Vec::new(),
        error_count: 0,
        warning_count: 0,
        info_count: 0,
        summary: String::from("ok"),
    }
}

fn sample_audit() -> AuditReport {
    let checks = vec![
        check("license", 12, 100, "License file detected"),
        check("readme", 14, 60, "README covers part of the essentials"),
        check("changelog", 8, 0, "No changelog found"),
        check("funding", 2, 100, "Funding file is optional for this project"),
        check("contributing_guide", 6, 90, "Contributing guide detected"),
        check("security_policy", 6, 10, "No security policy found"),
    ];
    let categories = category_scores(&checks);
    AuditReport {
        target: String::from("/repo"),
        project: ProjectContext {
            kind: ProjectKind::Rust,
            name: String::from("demo"),
            manifest_path: Some(String::from("/repo/Cargo.toml")),
        },
        readiness: ReadinessTier::Promising,
        score: 64,
        base_score: 64,
        minimum_score: 80,
        strict_passed: false,
        config_source: None,
        category_scores: categories,
        domain_scores: vec![
            domain(DoctorDomain::Docs, Some(90), None, None),
            domain(
                DoctorDomain::Deps,
                Some(70),
                Some(49),
                Some("unmaintained advisory RUSTSEC-2024-0436 for paste 1.0.15 capped the score"),
            ),
        ],
        checks,
    }
}

fn diagnostics() -> Vec<String> {
    vec![String::from("error | Changelog | No changelog found")]
}

#[test]
fn audit_render_is_width_aware_at_80() {
    let rendered = render_audit_dashboard(&sample_audit(), &diagnostics(), false, 80);
    assert!(rendered.contains("OSSIFY REPORT"));
    assert!(rendered.contains("Category Scores"));
    assert!(rendered.lines().all(|line| display_width(line) <= 80));
}

#[test]
fn audit_render_uses_columns_at_120() {
    let rendered = render_audit_dashboard(&sample_audit(), &diagnostics(), false, 120);
    assert!(rendered.contains("Top Strengths"));
    assert!(rendered.contains("Top Gaps"));
    assert!(rendered.lines().all(|line| display_width(line) <= 120));
}

#[test]
fn category_gauges_share_the_same_start_column() {
    let rendered = render_audit_dashboard(&sample_audit(), &diagnostics(), false, 100);
    let positions = rendered
        .lines()
        .filter(|line| {
            line.contains("identity")
                || line.contains("docs")
                || line.contains("community")
                || line.contains("automation")
                || line.contains("release")
        })
        .filter_map(|line| line.find('█').or_else(|| line.find('░')))
        .collect::<Vec<_>>();

    assert_eq!(positions.len(), 5);
    assert!(positions.windows(2).all(|pair| pair[0] == pair[1]));
}

#[test]
fn color_render_stays_within_visible_width() {
    let rendered = render_audit_dashboard(&sample_audit(), &diagnostics(), true, 100);
    assert!(rendered.lines().all(|line| display_width(line) <= 100));
}

#[test]
fn optional_funding_does_not_show_up_in_top_strengths() {
    let strengths = top_strengths(&sample_audit().checks);
    assert!(!strengths.iter().any(|line| line.contains("Funding file")));
}

#[test]
fn strengths_are_ranked_by_coverage_with_padded_labels() {
    let strengths = top_strengths(&sample_audit().checks);
    assert_eq!(strengths.len(), 2);
    assert!(strengths[0].starts_with("License "));
    assert!(strengths[0].ends_with("  100%"));
    assert!(strengths[1].ends_with("  90%"));
    let first_gap = strengths[0].find("  100%").expect("coverage");
    assert_eq!(display_width(&strengths[0][..first_gap]), display_width(&strengths[1][..strengths[1].find("  90%").expect("coverage")]));
}

#[test]
fn gaps_are_ranked_by_missing_points() {
    let gaps = top_gaps(&sample_audit().checks);
    assert_eq!(gaps.len(), 3);
    assert_eq!(gaps[0], "missing | Changelog | No changelog found | -8");
    assert!(gaps[1].starts_with("partial | "));
    assert!(gaps[1].ends_with(" | -6"));
    assert!(gaps[2].ends_with(" | -5"));
}

#[test]
fn meter_rounds_to_the_nearest_cell() {
    assert_eq!(meter(50, 4), "██░░");
    assert_eq!(meter(0, 3), "░░░");
    assert_eq!(meter(100, 2), "██");
    assert_eq!(meter(64, 0), "█");
}

#[test]
fn cap_reasons_are_compacted_to_the_advisory() {
    assert_eq!(
        compact_cap_reason("unmaintained advisory RUSTSEC-2024-0436 for paste 1.0.15 capped the score"),
        "RUSTSEC-2024-0436  ·  paste 1.0.15"
    );
    assert_eq!(compact_cap_reason("advisory CVE-2024-1 for paste"), "CVE-2024-1  ·  paste");
    assert_eq!(compact_cap_reason("GHSA-xxxx-yyyy"), "GHSA-xxxx-yyyy");
    assert_eq!(compact_cap_reason("  too   many\tdenials "), "too many denials");
    let long = "a reason that goes on and on well past the fifty byte limit of the line";
    let short = compact_cap_reason(long);
    assert_eq!(short, format!("{}…", &long[..47]));
}

#[test]
fn narrow_dashboard_stacks_the_panels() {
    let rendered = render_audit_dashboard(&sample_audit(), &diagnostics(), false, 40);
    assert!(rendered.lines().all(|line| display_width(line) <= 72));
    let domains = rendered.find("Domain Scores").expect("domains");
    let categories = rendered.find("Category Scores").expect("categories");
    let next = rendered.find("Next Move").expect("next move");
    assert!(domains < categories && categories < next);
    assert!(rendered.contains("demo  ·  Rust"));
    assert!(rendered.contains("strict  fail  (≥80)"));
    assert!(rendered.contains("deps       70%  cap  49"));
    assert!(rendered.contains("  cap  RUSTSEC-2024-0436  ·  paste 1.0.15"));
    assert!(rendered.contains("ossify audit . --strict"));
}

fn diagnostic(label: &str, severity: FindingSeverity, message: &str, location: Option<&str>) -> AuditDiagnostic {
    AuditDiagnostic {
        rule_id: label.to_lowercase(),
        rule_label: String::from(label),
        category: RuleCategory::Docs,
        severity,
        message: String::from(message),
        help: String::new(),
        evidence: Vec::new(),
        location: location.map(String::from),
    }
}

#[test]
fn diagnostics_are_listed_by_severity_then_rule() {
    let ds = vec![
        diagnostic("README", FindingSeverity::Info, "short intro", None),
        diagnostic("License", FindingSeverity::Warning, "no license text", Some("LICENSE")),
        diagnostic("Changelog", FindingSeverity::Error, "missing", None),
        diagnostic("CI workflow", FindingSeverity::Warning, "no tests run", None),
        diagnostic("Examples", FindingSeverity::Error, "none", None),
        diagnostic("Changelog", FindingSeverity::Error, "second", None),
        diagnostic("Tests", FindingSeverity::Info, "dropped", None),
    ];
    let lines = diagnostic_lines(&ds);
    assert_eq!(
        lines,
        vec![
            String::from("error | Changelog | missing"),
            String::from("error | Changelog | second"),
            String::from("error | Examples | none"),
            String::from("warning | CI workflow | no tests run"),
            String::from("warning | License | no license text @ LICENSE"),
        ]
    );
}

use ossify::audit::{rule_specs, CheckStatus, PlannedCheckUpgrade, ReadinessTier, RuleCategory};
use ossify::audit_report::{
    apply_domain_caps, base_score, build_check, category_scores, rescore_report, strict_passed,
    upgrade_checks, AuditCheck, AuditReport,
};
use ossify::project::{ProjectContext, ProjectKind};
use ossify::config::RuleRequirement;
use ossify::rules::{assess_changelog, assess_license};
use ossify::readme::RepoDocument;

fn spec_for(id: &str) -> ossify::audit::RuleSpec {
    *rule_specs().iter().find(|spec| spec.id == id).expect("rule spec")
}

fn checks() -> Vec<AuditCheck> {
    let license = build_check(&spec_for("license"), 12, None, assess_license(&None, &None, &None));
    let changelog = build_check(
        &spec_for("changelog"),
        8,
        Some(RuleRequirement::Partial),
        assess_changelog(&Some(RepoDocument {
            path: String::from("/repo/CHANGELOG.md"),
            display: String::from("CHANGELOG.md"),
            contents: String::from("notes"),
        })),
    );
    vec![license, changelog]
}

#[test]
fn checks_earn_weight_scaled_by_coverage() {
    let checks = checks();
    assert_eq!(checks[0].status, CheckStatus::Missing);
    assert_eq!(checks[0].earned, 0);
    assert_eq!(checks[0].gap(), 12);
    assert_eq!(checks[0].confidence_permille, 990);
    assert_eq!(checks[1].coverage, 40);
    assert_eq!(checks[1].earned, 3);
    assert_eq!(checks[1].points, 3);
    assert!(!checks[1].blocking);
    assert_eq!(checks[1].detail, Some(checks[1].message.clone()));
}

#[test]
fn required_levels_block_strict_audits() {
    let strong = build_check(
        &spec_for("changelog"),
        8,
        Some(RuleRequirement::Strong),
        assess_changelog(&None),
    );
    assert!(strong.blocking);
    let checks = vec![strong];
    assert!(!strict_passed(&checks, 100, 80));
    assert!(strict_passed(&Vec::new(), 80, 80));
    assert!(!strict_passed(&Vec::new(), 79, 80));
}

#[test]
fn categories_and_base_score_add_up() {
    let checks = checks();
    let categories = category_scores(&checks);
    assert_eq!(categories.len(), 5);
    assert_eq!(categories[0].category, RuleCategory::Identity);
    assert_eq!(categories[0].total, 12);
    assert_eq!(categories[0].earned, 0);
    assert_eq!(categories[4].category, RuleCategory::Release);
    assert_eq!(categories[4].total, 8);
    assert_eq!(categories[4].earned, 3);
    assert_eq!(categories[4].score, 37);
    assert_eq!(categories[1].score, 0);
    assert_eq!(base_score(&checks), 15);
}

#[test]
fn score_for_empty_check_list_is_zero() {
    assert_eq!(base_score(&Vec::new()), 0);
    assert!(category_scores(&Vec::new()).iter().all(|category| category.score == 0));
}

fn domain(cap: Option<u8>) -> ossify::doctor::DoctorDomainScore {
    ossify::doctor::DoctorDomainScore {
        domain: ossify::doctor::DoctorDomain::Docs,
        score: Some(100),
        cap,
        cap_reason: None,
        cap_code: None,
        engine: String::from("test"),
        engine_source: ossify::doctor::EngineSource::OssifyNative,
        ecosystems: Vec::new(),
        error_count: 0,
        warning_count: 0,
        info_count: 0,
        summary: String::from("ok"),
    }
}

#[test]
fn domain_caps_hold_the_score_down() {
    assert_eq!(apply_domain_caps(95, &vec![domain(Some(49))]), 49);
    assert_eq!(apply_domain_caps(40, &vec![domain(Some(49)), domain(None)]), 40);
    assert_eq!(apply_domain_caps(95, &vec![domain(Some(70)), domain(Some(60))]), 60);
}

#[test]
fn planned_upgrades_lift_checks_and_rescore() {
    let upgrades = vec![PlannedCheckUpgrade {
        rule_id: String::from("license"),
        message: String::from("planned LICENSE"),
        evidence: vec![String::from("LICENSE")],
        location: Some(String::from("/repo/LICENSE")),
    }];
    let upgraded = upgrade_checks(checks(), &upgrades);
    assert_eq!(upgraded[0].status, CheckStatus::Strong);
    assert_eq!(upgraded[0].earned, 12);
    assert_eq!(upgraded[0].message, "planned LICENSE");
    assert!(upgraded[0].findings.is_empty());
    assert_eq!(upgraded[1].coverage, 40);
    assert_eq!(base_score(&upgraded), 75);
    let report = AuditReport {
        target: String::from("/repo"),
        project: ProjectContext { kind: ProjectKind::Rust, name: String::from("demo"), manifest_path: None },
        readiness: ReadinessTier::Rough,
        score: 15,
        base_score: 15,
        minimum_score: 70,
        strict_passed: false,
        config_source: None,
        category_scores: Vec::new(),
        domain_scores: vec![domain(Some(72))],
        checks: checks(),
    };
    let estimated = rescore_report(report, upgraded, 80);
    assert_eq!(estimated.base_score, 75);
    assert_eq!(estimated.score, 72);
    assert_eq!(estimated.readiness, ReadinessTier::Promising);
    assert!(estimated.strict_passed);
    assert_eq!(estimated.category_scores[0].score, 100);
}

#[test]
fn status_lists_match_their_counts() {
    let mut list = checks();
    list.extend(checks());
    let report = AuditReport {
        target: String::from("/repo"),
        project: ProjectContext { kind: ProjectKind::Rust, name: String::from("demo"), manifest_path: None },
        readiness: ReadinessTier::Rough,
        score: 15,
        base_score: 15,
        minimum_score: 70,
        strict_passed: false,
        config_source: None,
        category_scores: Vec::new(),
        domain_scores: Vec::new(),
        checks: list,
    };
    assert_eq!(report.missing_checks(), vec![0, 2]);
    assert_eq!(report.partial_checks(), vec![1, 3]);
    assert!(report.strong_checks().is_empty());
    assert_eq!(report.missing_count(), 2);
    assert_eq!(report.partial_count(), 2);
    assert_eq!(report.strong_count(), 0);
}

use ossify::doctor::{
    aggregate_engine_source, deps_summary, doctor_finding, workflow_score, DoctorDomain,
    DoctorEcosystem, DoctorSeverity, EcosystemDoctorScore, EngineSource,
};
use ossify::engines::ManagedEngineStatus;

#[test]
fn syntax_errors_cap_workflow_score_below_fifty() {
    let findings = vec![doctor_finding(
        DoctorDomain::Workflow,
        None,
        DoctorSeverity::Error,
        "workflow.syntax-check",
        "could not parse as YAML",
        None,
        None,
    )];

    assert_eq!(workflow_score(&findings), 49);
}

#[test]
fn non_syntax_actionlint_errors_cap_workflow_score_below_seventy() {
    let findings = vec![doctor_finding(
        DoctorDomain::Workflow,
        None,
        DoctorSeverity::Error,
        "workflow.expression",
        "invalid expression",
        None,
        None,
    )];

    assert_eq!(workflow_score(&findings), 69);
}

#[test]
fn deps_summary_mentions_degraded_mode_when_any_engine_falls_back() {
    let summary = deps_summary(
        &vec![],
        &vec![EcosystemDoctorScore {
            ecosystem: DoctorEcosystem::Node,
            score: 100,
            cap: None,
            cap_reason: None,
            cap_code: None,
            engine: String::from("audit-ci + ossify policy"),
            engine_source: EngineSource::AbsorbedPolicy,
            engine_status: ManagedEngineStatus::RuntimeMissing,
            engine_detail: Some(String::from("node missing")),
            finding_count: 0,
        }],
    );

    assert!(summary.contains("degraded fallback mode"));
}

#[test]
fn aggregate_engine_source_prefers_managed_when_any_ecosystem_is_managed() {
    let scores = vec![
        EcosystemDoctorScore {
            ecosystem: DoctorEcosystem::Rust,
            score: 49,
            cap: Some(49),
            cap_reason: Some(String::from("high Rust advisory capped score at 49/100")),
            cap_code: Some(String::from("deps.rust.advisory.reported")),
            engine: String::from("cargo-deny + ossify policy"),
            engine_source: EngineSource::ManagedTool,
            engine_status: ManagedEngineStatus::Managed,
            engine_detail: None,
            finding_count: 1,
        },
        EcosystemDoctorScore {
            ecosystem: DoctorEcosystem::Python,
            score: 77,
            cap: None,
            cap_reason: None,
            cap_code: None,
            engine: String::from("pip-audit + ossify policy"),
            engine_source: EngineSource::AbsorbedPolicy,
            engine_status: ManagedEngineStatus::ParseFailed,
            engine_detail: Some(String::from("parse failed")),
            finding_count: 3,
        },
    ];

    assert_eq!(aggregate_engine_source(&scores), EngineSource::ManagedTool);
}

use ossify::doctor::{doctor_finding, DoctorDomain, DoctorEcosystem, DoctorFinding, DoctorSeverity};
use ossify::rust_deps::{
    score_rust_deps_findings, RustDepsCaps, RustDepsFeatureVector, RustDepsCombination, RustDepsScoringProfile,
    RustDepsWeights,
};

fn active_rust_deps_profile() -> RustDepsScoringProfile {
    RustDepsScoringProfile {
        version: 1,
        objective: String::from("ordered caps"),
        weights: RustDepsWeights {
            advisory_critical: 40,
            advisory_high: 25,
            advisory_medium: 12,
            advisory_low: 6,
            advisory_unmaintained: 8,
            advisory_yanked: 8,
            advisory_unsound: 10,
            advisory_informational: 2,
            advisory_reported: 4,
            lockfile_missing: 10,
            policy_missing: 6,
            license_missing: 4,
            version_wildcard: 6,
            source_direct: 8,
            source_path: 2,
            source_registry: 4,
            license_reported: 4,
            source_reported: 4,
            bans_reported: 4,
            engine_signal: 2,
        },
        caps: RustDepsCaps {
            advisory_critical: 29,
            advisory_high: 49,
            advisory_medium: 69,
            advisory_low: 84,
            advisory_unmaintained: 79,
            advisory_yanked: 74,
            advisory_unsound: 59,
            advisory_informational: 89,
            advisory_reported: 79,
        },
        combination: RustDepsCombination {
            repeated_advisory_penalty: 3,
            low_signal_stack_penalty: 2,
            unmaintained_cap_step: 5,
            yanked_cap_step: 5,
            policy_only_floor: 90,
        },
    }
}

fn finding(code: &str) -> DoctorFinding {
    doctor_finding(
        DoctorDomain::Deps,
        Some(DoctorEcosystem::Rust),
        DoctorSeverity::Warning,
        code,
        code,
        None,
        None,
    )
}

#[test]
fn policy_only_score_stays_above_floor() {
    let profile = active_rust_deps_profile();
    let findings = vec![finding("deps.rust.policy-missing")];
    let outcome = score_rust_deps_findings(&findings, &profile);
    assert!(outcome.score >= profile.combination.policy_only_floor);
}

#[test]
fn advisory_caps_remain_ordered() {
    let profile = active_rust_deps_profile();
    let critical = score_rust_deps_findings(&vec![finding("deps.rust.advisory.critical")], &profile).score;
    let high = score_rust_deps_findings(&vec![finding("deps.rust.advisory.high")], &profile).score;
    let medium = score_rust_deps_findings(&vec![finding("deps.rust.advisory.medium")], &profile).score;
    let unmaintained =
        score_rust_deps_findings(&vec![finding("deps.rust.advisory.unmaintained")], &profile).score;
    let policy_only = score_rust_deps_findings(&vec![finding("deps.rust.policy-missing")], &profile).score;

    assert!(critical < high);
    assert!(high < medium);
    assert!(medium < unmaintained);
    assert!(unmaintained < policy_only);
}

#[test]
fn critical_advisory_sets_the_cap() {
    let profile = active_rust_deps_profile();
    let outcome = score_rust_deps_findings(&vec![finding("deps.rust.advisory.critical")], &profile);
    assert_eq!(outcome.cap, Some(29));
    assert_eq!(outcome.score, 29);
    assert_eq!(outcome.cap_code.as_deref(), Some("deps.rust.advisory.critical"));
}

#[test]
fn feature_counts_add_over_joined_findings() {
    let a = vec![finding("deps.rust.lockfile.missing"), finding("deps.rust.advisory.high")];
    let b = vec![finding("deps.rust.advisory.high"), finding("deps.rust.policy-missing")];
    let mut joined = a.clone();
    joined.extend(b.clone());
    let (va, vb, vj) = (
        RustDepsFeatureVector::from_findings(&a),
        RustDepsFeatureVector::from_findings(&b),
        RustDepsFeatureVector::from_findings(&joined),
    );
    assert_eq!(vj.advisory_high, va.advisory_high + vb.advisory_high);
    assert_eq!(vj.advisory_high, 2);
    assert_eq!(vj.lockfile_missing, 1);
    assert_eq!(vj.policy_missing, va.policy_missing + vb.policy_missing);
    let empty = RustDepsFeatureVector::from_findings(&Vec::new());
    assert_eq!(empty.advisory_high, 0);
}

use ossify::audit::{rule_specs, ReadinessTier};
use ossify::audit_report::{build_check, AuditReport};
use ossify::project::{ProjectContext, ProjectKind};
use ossify::prompt_plan::{build_bug_prompt_report, severity_score};
use ossify::readme::RepoDocument;
use ossify::rules::{assess_changelog, assess_codeowners, assess_license, funding_intent_detected, assess_funding};

fn spec_for(id: &str) -> ossify::audit::RuleSpec {
    *rule_specs().iter().find(|spec| spec.id == id).expect("rule spec")
}

fn report() -> AuditReport {
    let license = build_check(&spec_for("license"), 12, None, assess_license(&None, &None, &None));
    let changelog = build_check(&spec_for("changelog"), 8, None, assess_changelog(&None));
    let codeowners = build_check(
        &spec_for("codeowners"),
        4,
        None,
        assess_codeowners(&Some(RepoDocument {
            path: String::from("/repo/.github/CODEOWNERS"),
            display: String::from(".github/CODEOWNERS"),
            contents: String::from("* @acme\n"),
        })),
    );
    let funding = build_check(
        &spec_for("funding"),
        2,
        None,
        assess_funding(&None, funding_intent_detected("# Demo\n", &None), true),
    );
    AuditReport {
        target: String::from("/repo"),
        project: ProjectContext {
            kind: ProjectKind::Python,
            name: String::from("demo"),
            manifest_path: Some(String::from("/repo/requirements.txt")),
        },
        readiness: ReadinessTier::Rough,
        score: 30,
        base_score: 30,
        minimum_score: 80,
        strict_passed: false,
        config_source: None,
        category_scores: Vec::new(),
        domain_scores: Vec::new(),
        checks: vec![changelog, license, codeowners, funding],
    }
}

#[test]
fn prompt_defaults_to_one_shot_for_all_non_strong_rules() {
    let report = report();
    let prompt = build_bug_prompt_report(&report, None, 0).expect("build prompt");
    assert_eq!(prompt.prompts.len(), 1);
    assert_eq!(prompt.prompts[0].strategy.as_str(), "one-shot");
    assert!(prompt.prompts[0].issue_count >= 2);
    assert!(prompt.prompts[0].prompt.contains("Prioritized issues to fix"));
    assert_eq!(prompt.prompts[0].selected_rules, vec!["license", "changelog"]);
    assert!(prompt.prompts[0]
        .prompt
        .contains("This prompt covers every currently non-strong rule in the repository audit."));
    assert_eq!(prompt.prompts[0].preserve, vec!["CODEOWNERS | CODEOWNERS declares review ownership."]);
    assert_eq!(prompt.strong_count, 2);
    assert_eq!(prompt.missing_count, 2);
}

#[test]
fn prompt_can_target_explicit_rule() {
    let report = report();
    let prompt = build_bug_prompt_report(&report, Some("license"), 0).expect("build prompt");
    assert_eq!(prompt.prompts.len(), 1);
    assert_eq!(prompt.prompts[0].strategy.as_str(), "targeted");
    assert_eq!(prompt.prompts[0].selected_rules, vec![String::from("license")]);
    assert!(prompt.prompts[0].prompt.contains("Issue to fix"));
    assert_eq!(prompt.prompts[0].title, "Fix License in demo");
    assert_eq!(prompt.prompts[0].issues[0].gap, 12);
}

#[test]
fn prompt_errors_name_the_problem() {
    let report = report();
    let missing = build_bug_prompt_report(&report, Some("nothing-like-this"), 0);
    assert_eq!(missing.err(), Some(String::from("No matching bug rule found for `nothing-like-this`.")));
    let limited = build_bug_prompt_report(&report, None, 1).expect("build prompt");
    assert_eq!(limited.prompts[0].selected_rules, vec!["license"]);
    assert!(limited.prompts[0]
        .prompt
        .contains("This prompt covers the highest-impact 1 non-strong rule(s) from the current audit."));
    assert_eq!(severity_score(&report.checks[1]), 3);
}

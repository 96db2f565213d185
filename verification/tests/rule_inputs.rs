use ossify::audit::{rule_weight, CheckStatus};
use ossify::deps::{
    is_requirements_file_name, node_lockfiles, node_policy_files, python_lockfiles,
    workflows_run_pip_audit,
};
use ossify::project::ProjectKind;
use ossify::readme::RepoDocument;
use ossify::rules::{
    assess_code_of_conduct, assess_contributing_guide, format_mentioned, lint_mentioned,
    test_script_mentioned,
};

fn doc(path: &str, contents: &str) -> Option<RepoDocument> {
    Some(RepoDocument {
        path: format!("/repo/{path}"),
        display: String::from(path),
        contents: String::from(contents),
    })
}

#[test]
fn quality_documents_use_their_own_keywords() {
    let guide = "Open an issue first, then a pull request from a branch; run the test suite. ".repeat(4);
    let strong = assess_contributing_guide(&doc("CONTRIBUTING.md", &guide));
    assert_eq!(strong.status, CheckStatus::Strong);
    assert_eq!(strong.status, CheckStatus::from_coverage(strong.coverage));
    let short = assess_contributing_guide(&doc("CONTRIBUTING.md", "Be nice."));
    assert_ne!(short.status, CheckStatus::Strong);
    let missing = assess_code_of_conduct(&None);
    assert_eq!(missing.status, CheckStatus::Missing);
    assert_eq!(missing.coverage, 0);
    let conduct = "Expected behavior: be kind. Unacceptable behavior: harassment. Report incidents to the maintainers. ".repeat(2);
    assert_eq!(assess_code_of_conduct(&doc("CODE_OF_CONDUCT.md", &conduct)).status, CheckStatus::Strong);
}

#[test]
fn manifest_signals_and_ecosystems() {
    assert!(lint_mentioned(r#"{"scripts":{"lint":"eslint ."}}"#));
    assert!(lint_mentioned("[tool.ruff]\n"));
    assert!(!lint_mentioned("[package]\nname = \"x\"\n"));
    assert!(format_mentioned(r#"{"devDependencies":{"prettier":"3"}}"#));
    assert!(!format_mentioned("{}"));
    assert!(test_script_mentioned(r#"{"scripts":{"test":"jest"}}"#));
    assert!(!test_script_mentioned("{}"));
    assert_eq!(ProjectKind::Rust.package_ecosystem(), Some("cargo"));
    assert_eq!(ProjectKind::Python.package_ecosystem(), Some("pip"));
    assert_eq!(ProjectKind::Unknown.package_ecosystem(), None);
}

#[test]
fn requirements_and_lockfile_names() {
    assert!(is_requirements_file_name("requirements.txt"));
    assert!(is_requirements_file_name("Requirements-Dev.IN"));
    assert!(!is_requirements_file_name("requirements.lock"));
    assert!(!is_requirements_file_name("dev-requirements.txt"));
    assert_eq!(node_lockfiles(), vec!["package-lock.json", "npm-shrinkwrap.json", "pnpm-lock.yaml", "yarn.lock"]);
    assert_eq!(node_policy_files().len(), 4);
    assert!(python_lockfiles().contains(&"uv.lock"));
    assert!(workflows_run_pip_audit(&vec![String::from("steps:\n  - run: Python -m pip_audit\n")]));
    assert!(!workflows_run_pip_audit(&vec![String::from("steps: []\n")]));
}

#[test]
fn rule_weights_are_at_least_one() {
    assert_eq!(rule_weight(Some(0), 9), 1);
    assert_eq!(rule_weight(Some(7), 9), 7);
    assert_eq!(rule_weight(None, 0), 1);
    assert_eq!(rule_weight(None, 12), 12);
}

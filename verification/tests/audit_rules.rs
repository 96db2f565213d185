use ossify::audit::{CheckStatus, FindingSeverity};
use ossify::paths::{link_target_path, normalize_path};
use ossify::project::{ProjectContext, ProjectKind, RepoProfile};
use ossify::readme::RepoDocument;
use ossify::rules::{
    assess_changelog, assess_ci_workflow, assess_codeowners, assess_dependabot, assess_examples,
    assess_funding, assess_issue_templates, assess_license, assess_lint_and_format,
    assess_project_manifest, assess_pull_request_template, assess_quality_document, assess_tests,
    funding_intent_detected, pick_supporting_doc, runnable_script_count, test_files, ExamplesInputs, FileRef,
    NestedProjectRef, StackKeywords, TestCandidate,
};

fn doc(path: &str, contents: &str) -> Option<RepoDocument> {
    Some(RepoDocument {
        path: format!("/repo/{path}"),
        display: String::from(path),
        contents: String::from(contents),
    })
}

fn strings(values: &[&str]) -> Vec<String> {
    values.iter().map(|value| String::from(*value)).collect()
}

fn rust_keywords() -> StackKeywords {
    StackKeywords {
        test: strings(&["cargo test"]),
        lint: strings(&["cargo clippy"]),
        build: strings(&["cargo build"]),
        format: strings(&["cargo fmt"]),
    }
}

#[test]
fn funding_without_repo_intent_is_treated_as_optional() {
    let intent = funding_intent_detected("# Demo\n\nA small CLI tool.\n", &None);
    assert!(!intent);
    let funding = assess_funding(&None, intent, true);
    assert_eq!(funding.status, CheckStatus::Strong);
    assert_eq!(funding.coverage, 100);
    assert!(funding.findings.is_empty());
}

#[test]
fn funding_without_any_public_maintainer_surface_is_still_optional() {
    let intent = funding_intent_detected("", &None);
    let funding = assess_funding(&None, intent, false);
    assert_eq!(funding.status, CheckStatus::Strong);
    assert_eq!(funding.coverage, 100);
    assert!(funding.findings.is_empty());
    assert!(funding.message.contains("no public maintainer surface"));
}

#[test]
fn funding_intent_without_file_still_surfaces_gap() {
    let intent = funding_intent_detected(
        "# Demo\n\nSupport this project: https://github.com/sponsors/acme\n",
        &None,
    );
    assert!(intent);
    let funding = assess_funding(&None, intent, true);
    assert_eq!(funding.status, CheckStatus::Missing);
    assert!(funding.findings.iter().any(|finding| finding.id == "funding.missing"));
}

#[test]
fn funding_file_with_provider_is_strong() {
    let funding = assess_funding(&doc(".github/FUNDING.yml", "github: [acme]\n"), false, true);
    assert_eq!(funding.coverage, 100);
    assert_eq!(funding.evidence, vec!["github:"]);
    let thin = assess_funding(&doc(".github/FUNDING.yml", "# nothing yet\n"), false, true);
    assert_eq!(thin.coverage, 55);
    assert_eq!(thin.status, CheckStatus::Partial);
    assert_eq!(thin.findings[0].id, "funding.providers");
}

#[test]
fn documented_scripts_count_as_examples() {
    let scripts = runnable_script_count(&strings(&["run.py", "eval.py", "notes.txt", ".py"]));
    assert_eq!(scripts, 2);
    let inputs = ExamplesInputs {
        readme_path: None,
        readme_text: String::new(),
        examples_file: None,
        docs_file: None,
        scripts_count: scripts,
        supporting_doc: doc(
            "CONTEXT.md",
            "# Context\n\n## Pipeline d'execution\n\n```bash\npython scripts/run.py\npython scripts/eval.py\n```\n",
        ),
    };
    let examples = assess_examples(&inputs);
    assert_eq!(examples.status, CheckStatus::Strong);
    assert!(examples.evidence.iter().any(|entry| entry.contains("scripts/")));
    assert!(examples.findings.is_empty());
}

#[test]
fn repository_without_examples_gets_both_findings() {
    let inputs = ExamplesInputs {
        readme_path: Some(String::from("/repo/README.md")),
        readme_text: String::from("# Demo\n\n## Usage\n\nRun it.\n"),
        examples_file: None,
        docs_file: None,
        scripts_count: 0,
        supporting_doc: None,
    };
    let examples = assess_examples(&inputs);
    assert_eq!(examples.coverage, 35);
    assert_eq!(examples.status, CheckStatus::Partial);
    assert_eq!(examples.findings.len(), 2);
    assert_eq!(examples.findings[0].id, "examples.path");
    assert_eq!(examples.findings[1].id, "examples.runnable");
    assert_eq!(examples.location, Some(String::from("/repo/README.md")));
}

#[test]
fn license_rule_recognizes_standard_text() {
    let mit = format!("MIT License\n\nCopyright (c) 2024 Acme\n\n{}", "Permission is hereby granted. ".repeat(10));
    let license = assess_license(&doc("LICENSE", &mit), &Some(String::from("MIT")), &None);
    assert_eq!(license.coverage, 100);
    assert_eq!(license.evidence, vec!["LICENSE", "manifest: MIT"]);
    assert!(license.findings.is_empty());
    let odd = assess_license(&doc("LICENSE", "All rights reserved."), &None, &None);
    assert_eq!(odd.coverage, 65);
    assert_eq!(odd.findings[0].id, "license.unrecognized");
    let manifest_only = assess_license(
        &None,
        &Some(String::from("Apache-2.0")),
        &Some(String::from("/repo/Cargo.toml")),
    );
    assert_eq!(manifest_only.coverage, 35);
    assert_eq!(manifest_only.findings[0].id, "license.file");
    assert_eq!(manifest_only.findings[0].severity, FindingSeverity::Error);
    let none = assess_license(&None, &None, &None);
    assert_eq!(none.status, CheckStatus::Missing);
    assert_eq!(none.findings[0].id, "license.missing");
}

#[test]
fn quality_document_names_missing_topics() {
    let keywords = vec!["issue", "pull request", "test"];
    let thin = assess_quality_document(
        &doc("CONTRIBUTING.md", "Open an issue first."),
        &vec!["CONTRIBUTING.md"],
        200,
        &keywords,
    );
    assert_eq!(thin.evidence, vec!["issue"]);
    assert_eq!(thin.coverage, 50);
    let ids: Vec<&str> = thin.findings.iter().map(|finding| finding.id.as_str()).collect();
    assert_eq!(ids, vec!["CONTRIBUTING.md.depth", "CONTRIBUTING.md.coverage"]);
    assert_eq!(
        thin.findings[1].help,
        "Make sure it explicitly covers topics such as issue, pull request, test."
    );
    let missing = assess_quality_document(&None, &vec!["CONTRIBUTING.md", "docs/CONTRIBUTING.md"], 200, &keywords);
    assert_eq!(missing.findings[0].id, "document.missing");
    assert_eq!(
        missing.findings[0].help,
        "Add CONTRIBUTING.md or docs/CONTRIBUTING.md with project-specific guidance."
    );
}

#[test]
fn issue_templates_need_bug_and_feature() {
    let dir = Some(String::from("/repo/.github/ISSUE_TEMPLATE"));
    let both = assess_issue_templates(&dir, &strings(&["Bug_Report.md", "feature_request.md"]));
    assert_eq!(both.coverage, 100);
    assert_eq!(both.evidence, vec!["bug_report.md", "feature_request.md"]);
    let one = assess_issue_templates(&dir, &strings(&["bug.yml"]));
    assert_eq!(one.coverage, 50);
    assert_eq!(one.findings[0].id, "issue_templates.feature");
    let none = assess_issue_templates(&None, &Vec::new());
    assert_eq!(none.findings[0].id, "issue_templates.missing");
}

#[test]
fn pull_request_template_counts_prompts() {
    let pr = assess_pull_request_template(&doc(
        ".github/PULL_REQUEST_TEMPLATE.md",
        "## What changed\n\n## Why it matters\n\n## Validation\n\n- [ ] tests pass\n- [ ] docs updated\n- [ ] changelog entry added if needed\n",
    ));
    assert_eq!(pr.evidence, vec!["what changed", "why it matters", "validation"]);
    assert_eq!(pr.coverage, 100);
    let short = assess_pull_request_template(&doc(".github/PULL_REQUEST_TEMPLATE.md", "Describe it."));
    assert_eq!(short.coverage, 30);
    assert_eq!(short.findings.len(), 2);
}

#[test]
fn codeowners_needs_owner_and_wildcard() {
    let owners = assess_codeowners(&doc(".github/CODEOWNERS", "# owners\n* @acme/core\n/docs/ @writer\n"));
    assert_eq!(owners.coverage, 100);
    assert_eq!(owners.evidence, vec!["* @acme/core", "/docs/ @writer"]);
    let partial = assess_codeowners(&doc("CODEOWNERS", "src/ team\n"));
    assert_eq!(partial.coverage, 40);
    assert_eq!(partial.findings[0].id, "codeowners.owner");
    assert_eq!(partial.findings[1].id, "codeowners.coverage");
}

#[test]
fn changelog_wants_structure_and_depth() {
    let log = assess_changelog(&doc(
        "CHANGELOG.md",
        "# Changelog\n\n## Unreleased\n\n- Added the doctor command and its report renderer.\n",
    ));
    assert_eq!(log.coverage, 100);
    assert_eq!(log.evidence, vec!["CHANGELOG.md"]);
    let thin = assess_changelog(&doc("CHANGELOG.md", "notes"));
    assert_eq!(thin.coverage, 40);
    assert_eq!(thin.findings[0].id, "changelog.structure");
}

#[test]
fn dependabot_covers_stack_and_actions() {
    let config = assess_dependabot(
        &doc(
            ".github/dependabot.yml",
            "updates:\n  - package-ecosystem: cargo\n    schedule:\n      interval: weekly\n  - package-ecosystem: github-actions\n",
        ),
        Some("cargo"),
    );
    assert_eq!(config.coverage, 100);
    assert_eq!(config.evidence, vec!["ecosystem: cargo", "github-actions", "schedule"]);
    let other = assess_dependabot(&doc(".github/dependabot.yml", "updates: []\n"), None);
    assert_eq!(other.coverage, 35);
    assert_eq!(other.findings[0].help, "Add an update block for the `unknown` ecosystem.");
}

#[test]
fn ci_rule_reads_triggers_and_steps() {
    let text = "on: [push, pull_request]\njobs:\n  ci:\n    steps:\n      - run: cargo test\n      - run: cargo build\n";
    let ci = assess_ci_workflow(1, text, "/repo/.github/workflows", ProjectKind::Rust, &rust_keywords());
    assert_eq!(ci.coverage, 85);
    assert_eq!(ci.status, CheckStatus::Strong);
    assert_eq!(ci.findings.len(), 1);
    assert_eq!(ci.findings[0].id, "ci_workflow.lint");
    let none = assess_ci_workflow(0, "", "/repo/.github/workflows", ProjectKind::Rust, &rust_keywords());
    assert_eq!(none.findings[0].id, "ci_workflow.missing");
}

#[test]
fn lint_and_format_rule_counts_signals() {
    let both = assess_lint_and_format("cargo clippy\ncargo fmt --check\n", &rust_keywords(), false, false, &None, "/repo/.github/workflows");
    assert_eq!(both.coverage, 100);
    let one = assess_lint_and_format("", &rust_keywords(), true, false, &Some(String::from("/repo/Cargo.toml")), "/repo/.github/workflows");
    assert_eq!(one.coverage, 55);
    assert_eq!(one.findings[0].id, "lint_and_format.format");
    assert_eq!(one.location, Some(String::from("/repo/Cargo.toml")));
}

#[test]
fn test_files_follow_stack_conventions() {
    let files = vec![
        TestCandidate { relative: String::from("tests/cli.rs"), cfg_test: false },
        TestCandidate { relative: String::from("src/lib.rs"), cfg_test: true },
        TestCandidate { relative: String::from("src/main.rs"), cfg_test: false },
    ];
    assert_eq!(test_files(&files, ProjectKind::Rust), vec!["tests/cli.rs", "src/lib.rs"]);
    let py = vec![
        TestCandidate { relative: String::from("tests/__init__.py"), cfg_test: false },
        TestCandidate { relative: String::from("pkg/test_core.py"), cfg_test: false },
    ];
    assert_eq!(test_files(&py, ProjectKind::Python), vec!["pkg/test_core.py"]);
    let detected = test_files(&files, ProjectKind::Rust);
    let tests = assess_tests(&detected, "", &rust_keywords(), false);
    assert_eq!(tests.status, CheckStatus::Strong);
    let referenced = assess_tests(&Vec::new(), "run: cargo test", &rust_keywords(), false);
    assert_eq!(referenced.coverage, 45);
    assert_eq!(referenced.findings[0].severity, FindingSeverity::Warning);
    let nothing = assess_tests(&Vec::new(), "", &rust_keywords(), false);
    assert_eq!(nothing.findings[0].severity, FindingSeverity::Error);
}

#[test]
fn project_manifest_rule_covers_nested_projects() {
    let manifest = Some(FileRef { path: String::from("/repo/Cargo.toml"), display: String::from("Cargo.toml") });
    let rust = assess_project_manifest(ProjectKind::Rust, RepoProfile::Cli, &manifest, &None);
    assert_eq!(rust.status, CheckStatus::Strong);
    assert_eq!(rust.message, "Detected a Rust manifest for a CLI repo.");
    let nested = Some(NestedProjectRef {
        root: String::from("/repo/app"),
        display: String::from("app"),
        name: Some(String::from("app")),
        project: ProjectContext {
            kind: ProjectKind::Node,
            name: String::from("app"),
            manifest_path: None,
        },
    });
    let soft = assess_project_manifest(ProjectKind::Unknown, RepoProfile::Generic, &None, &nested);
    assert_eq!(soft.coverage, 25);
    assert_eq!(soft.evidence, vec!["nested project: app"]);
    assert_eq!(
        soft.findings[0].message,
        "No root manifest was detected, but `app (Node.js)` looks like the real runnable project."
    );
}

#[test]
fn supporting_doc_is_the_largest_docs_page() {
    let files = vec![
        (String::from("docs/guide.md"), 300),
        (String::from("docs/README.md"), 900),
        (String::from("docs/intro.md"), 300),
        (String::from("notes.md"), 5000),
    ];
    assert_eq!(pick_supporting_doc(&files), Some(2));
    assert_eq!(pick_supporting_doc(&Vec::new()), None);
}

#[test]
fn local_link_targets_are_normalized() {
    assert_eq!(normalize_path("/repo/docs/../README.md"), "/repo/README.md");
    assert_eq!(normalize_path("a/./b"), "a/b");
    assert_eq!(normalize_path("../x"), "x");
    assert_eq!(normalize_path("/.."), "/");
    assert_eq!(link_target_path("/repo/docs", "../CONTRIBUTING.md"), "/repo/CONTRIBUTING.md");
}

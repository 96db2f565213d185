use ossify::audit::CheckStatus;
use ossify::project::{ProjectContext, ProjectKind, RepoProfile};
use ossify::readme::{assess_readme, NestedReadme, ReadmeInputs, RepoDocument};

fn inputs(project: ProjectContext, profile: RepoProfile, text: Option<&str>) -> ReadmeInputs {
    ReadmeInputs {
        readme_path: text.map(|_| String::from("/repo/README.md")),
        readme_text: text.unwrap_or("").to_owned(),
        supporting_doc: None,
        nested_readme: None,
        project,
        profile,
        has_contributing_doc: false,
        has_license_file: false,
    }
}

fn ids(assessment: &ossify::readme::RuleAssessment) -> Vec<String> {
    assessment.findings.iter().map(|f| f.id.clone()).collect()
}

#[test]
fn missing_readme_scores_zero() {
    let project = ProjectContext { kind: ProjectKind::Rust, name: String::from("demo"), manifest_path: None };
    let r = assess_readme(&inputs(project, RepoProfile::Library, None));
    assert_eq!(r.coverage, 0);
    assert_eq!(r.status, CheckStatus::Missing);
    assert_eq!(r.confidence_permille, 990);
    assert_eq!(ids(&r), vec!["readme.missing"]);
    assert_eq!(r.message, "No README was found in the repository root.");
    assert!(r.location.is_none());
}

#[test]
fn supporting_doc_counts_as_partial_readme() {
    let project = ProjectContext { kind: ProjectKind::Python, name: String::from("demo"), manifest_path: None };
    let mut inp = inputs(project, RepoProfile::Generic, None);
    inp.supporting_doc = Some(RepoDocument {
        path: String::from("/repo/CONTEXT.md"),
        display: String::from("CONTEXT.md"),
        contents: String::from(
            "# Context\n\n## Vision\n\nA detailed project context.\n\n## Pipeline\n\n```bash\npython scripts/run.py\n```\n\n## Notes\n\nLonger explanation.\n",
        ),
    });
    let r = assess_readme(&inp);
    assert_eq!(r.status, CheckStatus::Partial);
    assert!(r.coverage < 85);
    assert!(r.evidence.iter().any(|entry| entry.contains("CONTEXT.md")));
    // display, structured headings, code blocks and a usage flow: 35 + 100 / 3.
    assert_eq!(r.evidence, vec!["CONTEXT.md", "structured-headings", "code-blocks", "usage-flow"]);
    assert_eq!(r.coverage, 68);
    assert_eq!(ids(&r), vec!["readme.missing-root"]);
}

#[test]
fn nested_project_readme_softens_the_gap() {
    let project = ProjectContext { kind: ProjectKind::Unknown, name: String::from("project"), manifest_path: None };
    let mut inp = inputs(project, RepoProfile::Generic, None);
    inp.nested_readme = Some(NestedReadme {
        root_display: String::from("app"),
        path: String::from("/repo/app/README.md"),
        display: String::from("app/README.md"),
    });
    let r = assess_readme(&inp);
    assert_eq!(r.coverage, 25);
    assert_eq!(r.evidence, vec!["nested project: app", "app/README.md"]);
    assert_eq!(ids(&r), vec!["readme.nested_project"]);
    assert!(r.findings[0].help.contains("`app/README.md`"));
}

#[test]
fn readme_commands_and_repo_docs_count_as_onboarding_signals() {
    let project = ProjectContext {
        kind: ProjectKind::Rust,
        name: String::from("ossify"),
        manifest_path: Some(String::from("/repo/Cargo.toml")),
    };
    let mut inp = inputs(
        project,
        RepoProfile::Cli,
        Some("# ossify\n\n[License](LICENSE)\n\nAudit a repository like a maintainer would, then scaffold the missing trust signals.\n\nThis README focuses on the command surface, a worked example, and the contributor docs that already live in the repository. It is intentionally missing a dedicated install section so the rule can stay partial while still recognizing the rest of the onboarding flow.\n\n## Commands\n\n```text\nossify audit . --interactive\nossify fix . --plan --interactive\nossify version\n```\n\n## Example\n\n```text\n> ossify audit .\n```\n"),
    );
    inp.has_contributing_doc = true;
    inp.has_license_file = true;
    let r = assess_readme(&inp);
    assert_eq!(r.status, CheckStatus::Partial);
    assert!(r.coverage >= 75);
    let found = ids(&r);
    assert!(found.contains(&String::from("readme.install")));
    assert!(!found.contains(&String::from("readme.usage")));
    assert!(!found.contains(&String::from("readme.contributing")));
    assert!(!found.contains(&String::from("readme.license")));
    assert!(!found.contains(&String::from("readme.stack-hints")));
}

#[test]
fn readme_with_emoji_headings_and_bun_commands_counts_install_usage_and_license() {
    let project = ProjectContext {
        kind: ProjectKind::Node,
        name: String::from("lucid-app"),
        manifest_path: Some(String::from("/repo/package.json")),
    };
    let r = assess_readme(&inputs(
        project,
        RepoProfile::App,
        Some("# Lucid\n\n## 🚀 Installation\n\n```bash\nbun install\nbun run dev\nbun run build\n```\n\n## 🎨 Stack Technique\n\nReact, TypeScript, Vite, Bun\n\n## 📄 Licence\n\nMIT License\n"),
    ));
    assert_eq!(r.status, CheckStatus::Partial);
    let found = ids(&r);
    assert!(!found.contains(&String::from("readme.install")));
    assert!(!found.contains(&String::from("readme.usage")));
    assert!(!found.contains(&String::from("readme.license")));
    assert!(!found.contains(&String::from("readme.stack-hints")));
}

#[test]
fn placeholder_readme_loses_twenty_points() {
    let project = ProjectContext { kind: ProjectKind::Rust, name: String::from("demo"), manifest_path: None };
    let r = assess_readme(&inputs(
        project,
        RepoProfile::Library,
        Some("# demo\n\n## Install\n\ncargo build\n\nAdd installation instructions here\n"),
    ));
    assert!(ids(&r).contains(&String::from("readme.placeholder")));
    assert_eq!(
        r.message,
        "README exists, but it still reads like starter copy and needs more project-specific guidance."
    );
    // Install (20), usage through the "demo" heading (20) and stack hints
    // (10) of 100, less 20 for starter copy.
    assert_eq!(r.coverage, 30);
}

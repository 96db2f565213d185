use ossify::audit::CheckStatus;
use ossify::project::{ProjectKind, RepoProfile};
use ossify::readme::RepoDocument;
use ossify::release_rule::{assess_release_workflow, deployment_config_candidates, ReleaseInputs, WorkflowFile};

#[test]
fn cli_release_workflow_with_packaged_binaries_counts_as_strong() {
    let inputs = ReleaseInputs {
        workflow_files: vec![WorkflowFile {
            path: String::from("/repo/.github/workflows/release.yml"),
            display: String::from(".github/workflows/release.yml"),
        }],
        workflow_text: String::from(
            "name: Release\non:\n  push:\n    tags:\n      - \"v*\"\n  workflow_dispatch:\n\njobs:\n  build:\n    runs-on: ubuntu-latest\n    steps:\n      - uses: actions/checkout@v4\n      - run: cargo build --release --target x86_64-unknown-linux-gnu\n      - run: tar -czf ossify.tar.gz target/x86_64-unknown-linux-gnu/release/ossify\n      - uses: actions/upload-artifact@v4\n        with:\n          name: ossify\n          path: ossify.tar.gz\n  publish:\n    runs-on: ubuntu-latest\n    needs: build\n    steps:\n      - uses: softprops/action-gh-release@v2\n",
        ),
        deployment: None,
        kind: ProjectKind::Rust,
        profile: RepoProfile::Cli,
        release_keywords: vec![],
        workflows_dir: String::from("/repo/.github/workflows"),
    };
    let release = assess_release_workflow(&inputs);
    assert_eq!(release.status, CheckStatus::Strong);
    assert!(!release.findings.iter().any(|finding| finding.id == "release_workflow.publish"));
    assert_eq!(release.coverage, 100);
    assert_eq!(
        release.evidence,
        vec![".github/workflows/release.yml", "action-gh-release", "tag-trigger", "release-action", "publish-step"]
    );
}

#[test]
fn app_deployment_config_counts_as_partial_release_surface() {
    let inputs = ReleaseInputs {
        workflow_files: vec![],
        workflow_text: String::new(),
        deployment: Some(RepoDocument {
            path: String::from("/repo/netlify.toml"),
            display: String::from("netlify.toml"),
            contents: String::from("[build]\ncommand = \"bun run build\"\npublish = \"dist\"\n"),
        }),
        kind: ProjectKind::Node,
        profile: RepoProfile::App,
        release_keywords: vec![],
        workflows_dir: String::from("/repo/.github/workflows"),
    };
    let release = assess_release_workflow(&inputs);
    assert_eq!(release.status, CheckStatus::Partial);
    assert!(release.evidence.iter().any(|entry| entry.contains("netlify.toml")));
    assert!(!release.findings.iter().any(|finding| finding.id == "release_workflow.trigger"));
    assert_eq!(release.coverage, 40);
    assert_eq!(release.findings[0].id, "release_workflow.file");
    assert_eq!(release.location.as_deref(), Some("/repo/netlify.toml"));
}

#[test]
fn no_release_surface_is_missing() {
    let inputs = ReleaseInputs {
        workflow_files: vec![WorkflowFile { path: String::from("/repo/.github/workflows/ci.yml"), display: String::from("ci.yml") }],
        workflow_text: String::from("on: push\njobs: {}\n"),
        deployment: None,
        kind: ProjectKind::Go,
        profile: RepoProfile::Library,
        release_keywords: vec![String::from("goreleaser")],
        workflows_dir: String::from("/repo/.github/workflows"),
    };
    let release = assess_release_workflow(&inputs);
    assert_eq!(release.coverage, 0);
    assert_eq!(release.message, "No release workflow was detected.");
    let ids: Vec<&str> = release.findings.iter().map(|f| f.id.as_str()).collect();
    assert_eq!(
        ids,
        vec!["release_workflow.file", "release_workflow.trigger", "release_workflow.artifacts", "release_workflow.publish"]
    );
    assert_eq!(release.location.as_deref(), Some("/repo/.github/workflows"));
    assert_eq!(deployment_config_candidates(RepoProfile::App)[0], "netlify.toml");
    assert!(deployment_config_candidates(RepoProfile::Cli).is_empty());
}

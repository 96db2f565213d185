use ossify::audit::CheckStatus;
use ossify::manifest::{assess_manifest_metadata, ManifestMetadata};
use ossify::project::{ProjectContext, ProjectKind};

fn empty_metadata() -> ManifestMetadata {
    ManifestMetadata {
        description: None,
        license: None,
        repository: None,
        homepage: None,
        version: None,
        keywords: vec![],
        categories: vec![],
        dependencies: vec![],
    }
}

#[test]
fn manifest_metadata_emits_granular_findings() {
    let project = ProjectContext {
        kind: ProjectKind::Python,
        name: String::from("demo"),
        manifest_path: Some(String::from("/repo/pyproject.toml")),
    };
    let mut m = empty_metadata();
    m.version = Some(String::from("0.1.0"));
    let r = assess_manifest_metadata(&project, &m);
    assert_eq!(r.status, CheckStatus::Partial);
    assert!(r.findings.iter().any(|finding| finding.id == "manifest_metadata.description"));
    assert_eq!(r.evidence, vec!["name", "version"]);
    assert_eq!(r.coverage, 28);
    assert_eq!(r.message, "Manifest metadata covers 2/7 expected discovery signals.");
}

#[test]
fn requirements_txt_manifest_metadata_is_lightweight_not_impossible() {
    let project = ProjectContext {
        kind: ProjectKind::Python,
        name: String::from("demo"),
        manifest_path: Some(String::from("/repo/Requirements.TXT")),
    };
    let mut m = empty_metadata();
    m.dependencies = vec![String::from("requests"), String::from("rich")];
    let r = assess_manifest_metadata(&project, &m);
    assert_eq!(r.coverage, 25);
    assert_eq!(r.evidence, vec!["name", "2 dependencies"]);
    assert_eq!(r.findings.len(), 1);
    assert_eq!(r.findings[0].id, "manifest_metadata.lightweight_manifest");
    assert_eq!(r.findings[0].evidence, vec!["requirements.txt"]);
}

#[test]
fn complete_metadata_is_strong() {
    let project = ProjectContext {
        kind: ProjectKind::Rust,
        name: String::from("ossify"),
        manifest_path: Some(String::from("/repo/Cargo.toml")),
    };
    let m = ManifestMetadata {
        description: Some(String::from("Audit repository readiness for open source")),
        license: Some(String::from("MIT")),
        repository: Some(String::from("https://github.com/acme/ossify")),
        homepage: Some(String::from("https://acme.dev")),
        version: Some(String::from("1.0.0")),
        keywords: vec![String::from("audit")],
        categories: vec![],
        dependencies: vec![],
    };
    let r = assess_manifest_metadata(&project, &m);
    assert_eq!(r.coverage, 100);
    assert_eq!(r.status, CheckStatus::Strong);
    assert!(r.findings.is_empty());
}

#[test]
fn generic_name_and_short_description_are_flagged() {
    let project = ProjectContext {
        kind: ProjectKind::Node,
        name: String::from("project"),
        manifest_path: Some(String::from("/repo/package.json")),
    };
    let mut m = empty_metadata();
    m.description = Some(String::from("tiny"));
    let r = assess_manifest_metadata(&project, &m);
    assert_eq!(r.coverage, 0);
    assert_eq!(r.status, CheckStatus::Missing);
    assert_eq!(r.findings[0].id, "manifest_metadata.name");
    assert_eq!(r.findings[1].id, "manifest_metadata.description");
    assert_eq!(r.findings[1].evidence, vec!["tiny"]);
}

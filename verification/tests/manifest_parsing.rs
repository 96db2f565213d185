use ossify::deps::CargoDepSpec;
use ossify::engine_output::{CvssBand, CvssScore};
use ossify::manifests::{
    analyze_node_manifest, analyze_python_project, analyze_rust_manifest, cargo_dependencies,
    cargo_license_declared, cargo_version_declared, node_private, node_version_declared,
    manifest_metadata_of, pyproject_version_declared, node_dependencies, parse_deny_line, pyproject_dependencies,
    pyproject_license, workflow_document, workflow_hygiene_of_files,
};
use ossify::project::{detect_project, ProjectKind};
use ossify::structured::{parse_json, parse_toml, parse_yaml, DocValue};

const CARGO: &str = r#"
[package]
name = "demo"
license = "MIT"

[dependencies]
serde = "1"
zeta = { git = "https://example.com/zeta" }
anyhow = "*"

[dev-dependencies]
serde = "2"
local = { path = "../local" }

[workspace.dependencies]
shared = { version = "*", registry = "corp" }
"#;

fn codes(findings: &[ossify::doctor::DoctorFinding]) -> Vec<String> {
    findings.iter().map(|finding| finding.code.clone()).collect()
}

#[test]
fn cargo_dependencies_are_sorted_and_first_seen() {
    let doc = parse_toml(CARGO).expect("toml");
    let deps = cargo_dependencies(&doc);
    let names: Vec<&str> = deps.iter().map(|dep| dep.name.as_str()).collect();
    assert_eq!(names, vec!["anyhow", "local", "serde", "shared", "zeta"]);
    assert!(matches!(&deps[2].spec, CargoDepSpec::Version(v) if v == "1"));
    assert!(matches!(&deps[4].spec, CargoDepSpec::Table { git: true, path: false, .. }));
    assert!(matches!(&deps[3].spec, CargoDepSpec::Table { version: Some(v), registry: true, .. } if v == "*"));
    assert!(cargo_license_declared(&doc));
    let workspace = parse_toml("[workspace.package]\nlicense = \"MIT\"\n").expect("toml");
    assert!(cargo_license_declared(&workspace));
    let none = parse_toml("[package]\nname = \"x\"\n").expect("toml");
    assert!(!cargo_license_declared(&none));
}

#[test]
fn rust_manifest_findings_follow_the_parse() {
    let findings = analyze_rust_manifest(
        &Some(String::from(CARGO)),
        "/repo/Cargo.toml",
        "/repo/deny.toml",
        false,
        false,
    )
    .expect("findings");
    let found = codes(&findings);
    assert!(found.contains(&String::from("deps.rust.lockfile.missing")));
    assert!(found.contains(&String::from("deps.rust.version.wildcard")));
    assert!(found.contains(&String::from("deps.rust.source.direct-source")));
    assert!(!found.contains(&String::from("deps.rust.license-missing")));
    let wildcard = findings.iter().find(|f| f.code == "deps.rust.version.wildcard").expect("wildcard");
    assert!(wildcard.message.contains("anyhow"));
    assert!(wildcard.message.contains("shared"));
    assert!(analyze_rust_manifest(&Some(String::from("[package\n")), "/r/Cargo.toml", "/r/deny.toml", true, true).is_err());
    let absent = analyze_rust_manifest(&None, "/r/Cargo.toml", "/r/deny.toml", false, false).expect("absent");
    assert_eq!(codes(&absent), vec![String::from("deps.rust.not-detected")]);
}

#[test]
fn node_dependencies_read_every_section() {
    let text = r#"{"name":"demo","dependencies":{"b":"^1","a":"*"},"devDependencies":{"a":"2","c":{"x":1}},"optionalDependencies":{"d":"github:me/d"}}"#;
    let doc = parse_json(text).expect("json");
    let deps = node_dependencies(&doc);
    let pairs: Vec<(&str, &str)> = deps.iter().map(|d| (d.name.as_str(), d.version.as_str())).collect();
    assert_eq!(pairs, vec![("a", "*"), ("b", "^1"), ("d", "github:me/d")]);
    let findings = analyze_node_manifest(&Some(String::from(text)), "/r/package.json", "/r/audit-ci.json", true, false)
        .expect("findings");
    let found = codes(&findings);
    assert!(found.contains(&String::from("deps.node.license-missing")));
    assert!(found.contains(&String::from("deps.node.version.wildcard")));
    assert!(analyze_node_manifest(&Some(String::from("{")), "/r/package.json", "/r/a.json", true, true).is_err());
}

#[test]
fn pyproject_license_and_dependencies_are_read() {
    let text = r#"
[project]
name = "demo"
dependencies = ["flask>=2", 3]
license = { text = "MIT" }

[project.optional-dependencies]
dev = ["pytest"]

[tool.poetry.dependencies]
python = "^3.11"
requests = "^2"
gitdep = { git = "https://example.com/g" }
"#;
    let doc = parse_toml(text).expect("toml");
    assert_eq!(pyproject_license(&doc), Some(String::from("MIT")));
    assert_eq!(
        pyproject_dependencies(&doc),
        vec!["flask>=2", "pytest", "gitdep", "requests^2"]
    );
    let findings = analyze_python_project(
        &Some(String::from(text)),
        "/r/pyproject.toml",
        &Vec::new(),
        false,
        false,
        true,
        "/r/.github/workflows",
        "/r/pyproject.toml",
    )
    .expect("findings");
    let found = codes(&findings);
    assert!(found.contains(&String::from("deps.python.lockfile.missing")));
    assert!(!found.contains(&String::from("deps.python.license-missing")));
    let bad = analyze_python_project(&Some(String::from("= nope")), "/r/p", &Vec::new(), false, false, true, "/r/w", "/r/p");
    assert!(bad.is_err());
}

#[test]
fn workflow_documents_come_from_yaml() {
    let text = "name: CI\non: push\npermissions:\n  contents: read\njobs:\n  test:\n    runs-on: ubuntu-latest\n    timeout-minutes: 10\n    steps:\n      - uses: actions/checkout@v4\n      - uses: other/tool@v1\n  lint:\n    steps: []\n";
    let doc = workflow_document("/r/.github/workflows/ci.yml", text).expect("mapping");
    assert!(doc.has_permissions);
    assert!(!doc.has_concurrency);
    let jobs: Vec<(&str, bool)> = doc.jobs.iter().map(|j| (j.id.as_str(), j.has_timeout)).collect();
    assert_eq!(jobs, vec![("test", true), ("lint", false)]);
    assert_eq!(doc.uses, vec!["actions/checkout@v4", "other/tool@v1"]);
    assert!(workflow_document("/r/x.yml", "- just\n- a list\n").is_none());
    assert!(workflow_document("/r/x.yml", "a: [\n").is_none());
    let findings = workflow_hygiene_of_files(&vec![
        (String::from("/r/ci.yml"), String::from(text)),
        (String::from("/r/bad.yml"), String::from("a: [\n")),
    ]);
    let found = codes(&findings);
    assert!(found.contains(&String::from("workflow.concurrency.missing")));
    assert!(found.contains(&String::from("workflow.timeout.missing")));
    assert!(found.contains(&String::from("workflow.actions.unpinned")));
    assert!(!found.contains(&String::from("workflow.permissions.missing")));
}

#[test]
fn deny_lines_give_their_fields() {
    let line = r#"{"type":"diagnostic","fields":{"level":"error","severity":"ERROR","code":"vulnerability","message":"bad","advisory":{"id":"RUSTSEC-1","package":"foo"},"graphs":[{"Krate":{"name":"foo","version":"1.2.3"}}]}}"#;
    let cvss = Some(CvssScore { band: CvssBand::High, text: String::from("7.5") });
    let fields = parse_deny_line(line, cvss).expect("fields");
    assert_eq!(fields.level, "error");
    assert_eq!(fields.severity, "ERROR");
    assert_eq!(fields.code, "vulnerability");
    assert_eq!(fields.message, "bad");
    assert_eq!(fields.krate_version, Some(String::from("1.2.3")));
    let advisory = fields.advisory.expect("advisory");
    assert_eq!(advisory.id, Some(String::from("RUSTSEC-1")));
    assert_eq!(advisory.package, Some(String::from("foo")));
    assert_eq!(advisory.informational, None);
    assert_eq!(advisory.cvss.map(|c| c.text), Some(String::from("7.5")));
    let bare = parse_deny_line(r#"{"fields":{"message":"m"}}"#, None).expect("fields");
    assert_eq!(bare.level, "");
    assert!(bare.advisory.is_none());
    assert!(parse_deny_line("not json", None).is_err());
}

#[test]
fn parsers_model_strings_maps_and_lists() {
    match parse_yaml("k: [a, 1]\n").expect("yaml") {
        DocValue::Mapping(entries) => {
            assert_eq!(entries.len(), 1);
            assert!(matches!(&entries[0].1, DocValue::List(items) if items.len() == 2 && matches!(&items[1], DocValue::Other)));
        }
        _ => panic!("expected a mapping"),
    }
    assert!(parse_json("[").is_err());
}

#[test]
fn requirements_txt_project_is_python() {
    let project = detect_project("flask-app", "/repo/flask-app", None, None, None, None, true);
    assert_eq!(project.kind, ProjectKind::Python);
    assert_eq!(project.name, "flask-app");
    assert!(project.summary().contains("requirements.txt"));
    let unknown = detect_project("x", "/repo/x", None, None, None, None, false);
    assert_eq!(unknown.kind, ProjectKind::Unknown);
    let go = detect_project("x", "/repo/x", None, None, None, Some(String::from("module example.com/x\n")), true);
    assert_eq!(go.kind, ProjectKind::Go);
}

#[test]
fn release_fields_come_from_the_manifests() {
    assert!(cargo_version_declared(&parse_toml("[package]\nversion = \"0.1.0\"\n").expect("toml")));
    assert!(cargo_version_declared(&parse_toml("[workspace.package]\nversion = \"1.0.0\"\n").expect("toml")));
    assert!(!cargo_version_declared(&parse_toml("[package]\nversion = 1\n").expect("toml")));
    let private = parse_json(r#"{"private": true, "version": "1.0.0"}"#).expect("json");
    assert!(node_private(&private));
    assert!(node_version_declared(&private));
    let public = parse_json(r#"{"private": "yes"}"#).expect("json");
    assert!(!node_private(&public));
    assert!(!node_version_declared(&public));
    assert!(pyproject_version_declared(&parse_toml("[project]\ndynamic = [\"readme\", \"version\"]\n").expect("toml")));
    assert!(pyproject_version_declared(&parse_toml("[tool.setuptools_scm]\n").expect("toml")));
    assert!(pyproject_version_declared(&parse_toml("[tool.poetry]\nversion = \"2\"\n").expect("toml")));
    assert!(!pyproject_version_declared(&parse_toml("[project]\nname = \"x\"\n").expect("toml")));
}

#[test]
fn manifest_metadata_is_read_per_stack() {
    let cargo = parse_toml(CARGO).expect("toml");
    let meta = manifest_metadata_of(ProjectKind::Rust, &cargo);
    assert_eq!(meta.license, Some(String::from("MIT")));
    assert_eq!(meta.description, None);
    assert_eq!(meta.dependencies, vec!["anyhow", "serde", "zeta"]);
    let node = parse_json(r#"{"description":"d","keywords":["a",1,"b"],"dependencies":{"x":"1"}}"#).expect("json");
    let meta = manifest_metadata_of(ProjectKind::Node, &node);
    assert_eq!(meta.description, Some(String::from("d")));
    assert_eq!(meta.keywords, vec!["a", "b"]);
    assert_eq!(meta.dependencies, vec!["x"]);
    let py = parse_toml("[project]\nversion = \"1\"\ndependencies = [\"flask\"]\n").expect("toml");
    let meta = manifest_metadata_of(ProjectKind::Python, &py);
    assert_eq!(meta.version, Some(String::from("1")));
    assert_eq!(meta.dependencies, vec!["flask"]);
}

use ossify::docs::{analyze_markdown, docs_report, is_markdown_file, LinkTarget, MarkdownAnalysis};
use ossify::doctor::DoctorSeverity;

fn no_targets(docs: &[MarkdownAnalysis]) -> Vec<Vec<LinkTarget>> {
    docs.iter()
        .map(|doc| {
            doc.links
                .iter()
                .map(|_| LinkTarget { path: String::new(), exists: false })
                .collect()
        })
        .collect()
}

#[test]
fn markdown_analysis_reads_headings_links_and_code_blocks() {
    let analysis = analyze_markdown(
        "/repo/README.md",
        "# Demo\n\n## Install `now`\n\n```bash\ncargo run\n```\n\n## Usage\n\nSee [Guide](docs/guide.md) and ![logo](img/logo.png).\n",
    );
    assert_eq!(analysis.path, "/repo/README.md");
    assert_eq!(analysis.raw_headings, vec!["Demo", "Install now", "Usage"]);
    assert_eq!(analysis.headings, vec!["demo", "install-now", "usage"]);
    assert_eq!(analysis.links, vec!["docs/guide.md", "img/logo.png"]);
    assert_eq!(analysis.code_blocks, 1);
}

#[test]
fn detects_broken_local_markdown_links() {
    let readme = analyze_markdown(
        "/repo/README.md",
        "# Demo\n\n## Install\n\n```bash\ncargo run\n```\n\n## Usage\n\nSee [Guide](docs/guide.md).\n",
    );
    let docs = vec![readme];
    let targets = vec![vec![LinkTarget { path: String::from("/repo/docs/guide.md"), exists: false }]];
    let report = docs_report(String::from("/repo"), "/repo/README.md", &docs, &targets);
    assert!(report.findings.iter().any(|finding| finding.code == "docs.broken-link"));
    let broken = report.findings.iter().find(|f| f.code == "docs.broken-link").unwrap();
    assert_eq!(broken.message, "Broken local link `docs/guide.md`.");
    assert_eq!(broken.file.as_deref(), Some("/repo/README.md"));
    assert_eq!(report.local_links_checked, 1);
    assert_eq!(report.markdown_files, 1);
    assert_eq!(report.score, 80);
}

#[test]
fn detects_missing_markdown_anchor() {
    let readme = analyze_markdown(
        "/repo/README.md",
        "# Demo\n\n## Install\n\n```bash\ncargo run\n```\n\n## Usage\n\nSee [Guide](docs/guide.md#missing-anchor).\n",
    );
    let guide = analyze_markdown("/repo/docs/guide.md", "# Guide\n\n## Real Heading\n");
    let docs = vec![readme, guide];
    let targets = vec![
        vec![LinkTarget { path: String::from("/repo/docs/guide.md"), exists: true }],
        vec![],
    ];
    let report = docs_report(String::from("/repo"), "/repo/README.md", &docs, &targets);
    assert!(report.findings.iter().any(|finding| finding.code == "docs.missing-anchor"));
}

#[test]
fn existing_anchor_passes() {
    let readme = analyze_markdown(
        "/repo/README.md",
        "# Demo\n\n## Install\n\n```bash\ncargo run\n```\n\n## Usage\n\nSee [Guide](docs/guide.md#real-heading) and [site](https://example.com).\n",
    );
    let guide = analyze_markdown("/repo/docs/guide.md", "# Guide\n\n## Real Heading\n");
    let docs = vec![readme, guide];
    let targets = vec![
        vec![
            LinkTarget { path: String::from("/repo/docs/guide.md"), exists: true },
            LinkTarget { path: String::new(), exists: false },
        ],
        vec![],
    ];
    let report = docs_report(String::from("/repo"), "/repo/README.md", &docs, &targets);
    assert!(report.findings.is_empty());
    assert_eq!(report.local_links_checked, 1);
    assert_eq!(report.score, 100);
}

#[test]
fn flags_readme_quality_gaps() {
    let readme = analyze_markdown("/repo/README.md", "# Demo\n\nShort description.\n");
    let docs = vec![readme];
    let targets = no_targets(&docs);
    let report = docs_report(String::from("/repo"), "/repo/README.md", &docs, &targets);
    assert!(report.findings.iter().any(|finding| finding.code == "readme.install"));
    assert!(report.findings.iter().any(|finding| finding.code == "readme.usage"));
    // Warnings come before the info finding about code blocks.
    let codes: Vec<&str> = report.findings.iter().map(|f| f.code.as_str()).collect();
    assert_eq!(codes, vec!["readme.install", "readme.usage", "readme.codeblocks"]);
    assert_eq!(report.findings[2].severity, DoctorSeverity::Info);
    assert_eq!(report.score, 100 - 10 - 10 - 4);
}

#[test]
fn missing_readme_is_an_error() {
    let docs: Vec<MarkdownAnalysis> = vec![];
    let report = docs_report(String::from("/repo"), "/repo/README.md", &docs, &vec![]);
    assert_eq!(report.findings.len(), 1);
    assert_eq!(report.findings[0].code, "readme.missing");
    assert_eq!(report.findings[0].file.as_deref(), Some("/repo/README.md"));
    assert_eq!(report.score, 80);
}

#[test]
fn markdown_file_extensions() {
    assert!(is_markdown_file("docs/guide.md"));
    assert!(is_markdown_file("notes.markdown"));
    assert!(!is_markdown_file("docs/.md"));
    assert!(!is_markdown_file("docs/guide.txt"));
    assert!(!is_markdown_file("md"));
}

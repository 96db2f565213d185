use ossify::audit::{AuditFinding, CheckStatus, FindingSeverity, Fixability, ReadinessTier, RuleCategory};
use ossify::project::{ProjectContext, ProjectKind};
use ossify::prompt::{
    bullet_block, count_fixability, expected_locations, format_finding, format_issue_block,
    indent_block, prompt_report_text, push_location, BugPromptReport, GeneratedBugPrompt,
    PromptIssue, PromptStrategy,
};

fn issue(rule_id: &str, label: &str, category: RuleCategory, fixability: Fixability) -> PromptIssue {
    PromptIssue {
        rule_id: rule_id.to_owned(),
        rule_label: label.to_owned(),
        category,
        status: CheckStatus::Missing,
        fixability,
        gap: 10,
        blocking: false,
        primary_cause: None,
        summary: String::from("Missing"),
        hint: String::from("Add it"),
        findings: Vec::new(),
        locations: Vec::new(),
        evidence: Vec::new(),
    }
}

fn prompt(title: &str, rule: &str, label: &str, category: RuleCategory, text: &str) -> GeneratedBugPrompt {
    GeneratedBugPrompt {
        strategy: PromptStrategy::Targeted,
        title: title.to_owned(),
        issue_count: 1,
        selected_rules: vec![rule.to_owned()],
        automatic_count: 1,
        guided_count: 0,
        manual_count: 0,
        preserve: Vec::new(),
        issues: vec![issue(rule, label, category, Fixability::Automatic)],
        prompt: text.to_owned(),
    }
}

#[test]
fn prompt_report_text_joins_prompt_bodies() {
    let report = BugPromptReport {
        target: String::from("."),
        project: ProjectContext { kind: ProjectKind::Rust, name: String::from("ossify"), manifest_path: None },
        score: 50,
        readiness: ReadinessTier::Promising,
        minimum_score: 85,
        strong_count: 1,
        partial_count: 1,
        missing_count: 1,
        prompt_count: 2,
        prompts: vec![
            prompt("One", "readme", "README", RuleCategory::Docs, "first prompt"),
            prompt("Two", "license", "License", RuleCategory::Identity, "second prompt"),
        ],
    };

    let text = prompt_report_text(&report);
    assert!(text.contains("first prompt"));
    assert!(text.contains("second prompt"));
    assert!(text.contains("---"));
    assert_eq!(text, "first prompt\n\n---\n\nsecond prompt");
}

#[test]
fn blocks_and_bullets() {
    assert_eq!(bullet_block(&vec![], "  ", "- nothing"), "  - nothing");
    assert_eq!(bullet_block(&vec![String::from("a"), String::from("b")], "  ", "- x"), "  - a\n  - b");
    assert_eq!(indent_block("one\ntwo", "   "), "   one\n   two");
    let block = format_issue_block(2, &issue("readme", "README", RuleCategory::Docs, Fixability::Guided));
    assert!(block.starts_with("2. README (`readme`)\n   Status: missing | Category: docs | Fixability: guided | Gap: 10"));
    assert!(block.contains("   Primary cause: No single cause was isolated"));
    assert!(block.contains("     - No granular findings were emitted for this issue."));
}

#[test]
fn fixability_is_counted() {
    let issues = vec![
        issue("a", "A", RuleCategory::Docs, Fixability::Automatic),
        issue("b", "B", RuleCategory::Docs, Fixability::Manual),
        issue("c", "C", RuleCategory::Docs, Fixability::Automatic),
    ];
    assert_eq!(count_fixability(&issues), (2, 0, 1));
}

#[test]
fn findings_and_locations() {
    let finding = AuditFinding {
        id: String::from("readme.install"),
        severity: FindingSeverity::Warning,
        message: String::from("No install section."),
        help: String::from("  Add one.  "),
        evidence: vec![],
        location: None,
    };
    assert_eq!(format_finding(&finding), "[warning] No install section. | Add one.");

    let mut locations = vec![];
    push_location(&mut locations, String::from("C:\\repo\\README.md"));
    push_location(&mut locations, String::from("C:\\repo\\README.md"));
    push_location(&mut locations, String::from("/repo/node_modules/x/index.js"));
    assert_eq!(locations, vec!["C:\\repo\\README.md"]);

    let project = ProjectContext {
        kind: ProjectKind::Rust,
        name: String::from("demo"),
        manifest_path: Some(String::from("/repo/Cargo.toml")),
    };
    assert_eq!(
        expected_locations("issue_templates", "/repo", &project),
        vec![
            "/repo\\.github\\ISSUE_TEMPLATE\\bug_report.md (expected)",
            "/repo\\.github\\ISSUE_TEMPLATE\\feature_request.md (expected)",
        ]
    );
    assert_eq!(
        expected_locations("examples", "/repo", &project),
        vec!["/repo/Cargo.toml", "/repo\\examples (expected)", "/repo\\scripts (expected)"]
    );
    assert!(expected_locations("unknown", "/repo", &project).is_empty());
}

use ossify::audit::{rule_specs, ReadinessTier};
use ossify::audit_report::{build_check, AuditReport};
use ossify::generator::{FileAction, GeneratedFile, InitReport, ScaffoldMode};
use ossify::panels::{
    box_section, box_section_verbatim, display_width, join_columns, pad_to_width, render_init,
    render_init_report, render_prompt, render_prompt_report, section_header, stack_sections,
    strip_ansi, truncate_to_width, wrap_text, wrap_verbatim,
};
use ossify::project::{ProjectContext, ProjectKind};
use ossify::prompt_plan::build_bug_prompt_report;
use ossify::rules::{assess_changelog, assess_license};

fn strings(values: &[&str]) -> Vec<String> {
    values.iter().map(|value| String::from(*value)).collect()
}

fn project() -> ProjectContext {
    ProjectContext {
        kind: ProjectKind::Rust,
        name: String::from("demo"),
        manifest_path: Some(String::from("/repo/Cargo.toml")),
    }
}

fn audit() -> AuditReport {
    let spec = |id: &str| *rule_specs().iter().find(|spec| spec.id == id).expect("rule spec");
    AuditReport {
        target: String::from("/repo"),
        project: project(),
        readiness: ReadinessTier::Rough,
        score: 40,
        base_score: 40,
        minimum_score: 80,
        strict_passed: false,
        config_source: None,
        category_scores: Vec::new(),
        domain_scores: Vec::new(),
        checks: vec![
            build_check(&spec("license"), 12, None, assess_license(&None, &None, &None)),
            build_check(&spec("changelog"), 8, None, assess_changelog(&None)),
        ],
    }
}

#[test]
fn display_width_counts_columns_without_escapes() {
    assert_eq!(strip_ansi("\u{1b}[92mok\u{1b}[0m"), "ok");
    assert_eq!(display_width("\u{1b}[1;94mOSSIFY\u{1b}[0m"), 6);
    assert_eq!(display_width("日本"), 4);
    assert_eq!(display_width("─ a "), 4);
    assert_eq!(pad_to_width("日本", 6), "日本  ");
    assert_eq!(truncate_to_width("日本語", 5), "日本");
}

#[test]
fn wrapping_breaks_between_words_or_verbatim() {
    assert_eq!(wrap_text("alpha beta gamma", 10), strings(&["alpha beta", "gamma"]));
    assert_eq!(wrap_text("abcdefghijklmnop x", 8), strings(&["abcdefgh", "x"]));
    assert_eq!(wrap_text("short", 0), strings(&[""]));
    assert_eq!(wrap_verbatim("ab  cdef", 3), strings(&["ab ", " cd", "ef"]));
    assert_eq!(wrap_verbatim("", 3), strings(&[""]));
}

#[test]
fn boxes_frame_their_lines() {
    assert_eq!(section_header("Files", 12), "─ Files ────");
    let framed = box_section(16, "Files", &strings(&["one two three four"]));
    assert_eq!(
        framed,
        "┌─ Files ──────┐\n│ one two      │\n│ three four   │\n└──────────────┘"
    );
    let verbatim = box_section_verbatim(16, "Code", &strings(&["\tx"]));
    assert_eq!(verbatim, "┌─ Code ───────┐\n│     x        │\n└──────────────┘");
}

#[test]
fn sections_stack_and_sit_side_by_side() {
    let stacked = stack_sections(&strings(&["a\nb", "c"]));
    assert_eq!(stacked, strings(&["a", "b", "", "c"]));
    let joined = join_columns(&strings(&["l1", "l2"]), &strings(&["r1"]), 3, 2);
    assert_eq!(joined, "l1   r1\nl2     ");
}

#[test]
fn init_screen_lists_files_and_next_move() {
    let report = InitReport {
        target: String::from("/repo"),
        mode: ScaffoldMode::Init,
        project: project(),
        files: vec![
            GeneratedFile { path: String::from("/repo/LICENSE"), action: FileAction::Created, reason: None },
            GeneratedFile {
                path: String::from("/repo/README.md"),
                action: FileAction::Skipped,
                reason: Some(String::from("exists")),
            },
        ],
    };
    let screen = render_init(&report, false, 80);
    assert!(screen.contains("OSSIFY INIT"));
    assert!(screen.contains("Project: demo (Rust via /repo/Cargo.toml)"));
    assert!(screen.contains("Mode: init"));
    assert!(screen.contains("[created] /repo/LICENSE"));
    assert!(screen.contains("[skipped] /repo/README.md"));
    assert!(screen.contains("Run `ossify audit /repo` to inspect the result."));
    assert_eq!(screen.lines().next().map(|line| line.chars().count()), Some(80));
    assert_eq!(render_init_report(&report, false, 80), screen);
    let colored = render_init(&report, true, 80);
    assert!(colored.contains("\u{1b}[92mcreated\u{1b}[0m"));
    assert!(colored.contains("\u{1b}[93mskipped\u{1b}[0m"));
}

#[test]
fn prompt_screen_holds_the_copy_paste_box() {
    let prompt = build_bug_prompt_report(&audit(), None, 0).expect("bug prompt");
    let narrow = render_prompt(&prompt, false, 80);
    assert!(narrow.contains("OSSIFY PROMPT"));
    assert!(narrow.contains("Copy/Paste Prompt"));
    assert!(narrow.contains("Prioritized issues to fix"));
    assert!(narrow.contains("Prompt style: one-shot"));
    assert!(narrow.contains("Selected rules: license, changelog"));
    assert!(narrow.contains("Signal mix: 0 strong | 0 partial | 2 missing"));
    assert!(narrow.contains("No strong signals were captured; focus on the gaps in scope."));
    assert!(narrow.lines().all(|line| line.chars().count() == 80 || line.is_empty()));
    let wide = render_prompt_report(&prompt, false, 120);
    assert!(wide.lines().any(|line| line.contains("Prompt Scope") && line.contains("Issues In Scope")));
    let tiny = render_prompt(&prompt, false, 10);
    assert_eq!(tiny.lines().next().map(|line| line.chars().count()), Some(72));
}

#[test]
fn prompt_screen_without_prompts_says_so() {
    let mut prompt = build_bug_prompt_report(&audit(), None, 0).expect("bug prompt");
    prompt.prompts.clear();
    let screen = render_prompt(&prompt, false, 80);
    assert!(screen.contains("No bug prompt could be generated for this repository."));
    assert_eq!(screen.lines().count(), 3);
}

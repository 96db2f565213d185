use ossify::knowledge::{extend_unique, KnowledgePack, RuleEntry, RuleKnowledge, SectionAliases};

fn strings(values: &[&str]) -> Vec<String> {
    values.iter().map(|v| v.to_string()).collect()
}

fn knowledge(aliases: &[&str], commands: &[&str], sections: Vec<(&str, &[&str])>) -> RuleKnowledge {
    RuleKnowledge {
        aliases: strings(aliases),
        related_paths: vec![],
        valid_commands: strings(commands),
        anti_patterns: vec![],
        section_aliases: sections
            .into_iter()
            .map(|(s, a)| SectionAliases { section: s.to_owned(), aliases: strings(a) })
            .collect(),
    }
}

#[test]
fn extend_unique_keeps_order_and_skips_repeats() {
    let mut target = strings(&["a", "b"]);
    extend_unique(&mut target, &strings(&["b", "c", "c", "a", "d"]));
    assert_eq!(target, strings(&["a", "b", "c", "d"]));
}

#[test]
fn ecosystem_pack_merges_commands() {
    let common = KnowledgePack {
        rules: vec![
            RuleEntry {
                id: String::from("ci_workflow"),
                knowledge: RuleKnowledge {
                    aliases: strings(&["ci"]),
                    related_paths: strings(&[".github/workflows"]),
                    valid_commands: strings(&["make test"]),
                    anti_patterns: vec![],
                    section_aliases: vec![],
                },
            },
            RuleEntry { id: String::from("readme"), knowledge: knowledge(&["readme"], &[], vec![]) },
        ],
    };
    let rust = KnowledgePack {
        rules: vec![
            RuleEntry { id: String::from("changelog"), knowledge: knowledge(&["changes"], &[], vec![]) },
            RuleEntry { id: String::from("ci_workflow"), knowledge: knowledge(&["ci"], &["cargo test"], vec![]) },
        ],
    };
    let pack = KnowledgePack::load(common, Some(rust));
    let ci = pack.rule("ci_workflow");
    assert!(ci.valid_commands.iter().any(|value| value == "cargo test"));
    assert!(ci.related_paths.iter().any(|value| value == ".github/workflows"));
    assert_eq!(ci.valid_commands, strings(&["make test", "cargo test"]));
    assert_eq!(ci.aliases, strings(&["ci"]));
    let ids: Vec<&str> = pack.rules.iter().map(|r| r.id.as_str()).collect();
    assert_eq!(ids, vec!["changelog", "ci_workflow", "readme"]);
    assert!(pack.rule("unknown").aliases.is_empty());
}

#[test]
fn sections_merge_in_key_order_and_terms_collect_once() {
    let mut base = knowledge(&["readme"], &["cargo run"], vec![("install", &["setup"]), ("usage", &["run"])]);
    let other = knowledge(&["docs"], &["cargo run"], vec![("examples", &["demo"]), ("usage", &["run", "quickstart"])]);
    base.merge(&other);
    let sections: Vec<(&str, Vec<String>)> = base
        .section_aliases
        .iter()
        .map(|s| (s.section.as_str(), s.aliases.clone()))
        .collect();
    assert_eq!(
        sections,
        vec![
            ("examples", strings(&["demo"])),
            ("install", strings(&["setup"])),
            ("usage", strings(&["run", "quickstart"])),
        ]
    );
    assert_eq!(base.aliases, strings(&["readme", "docs"]));
    assert_eq!(
        base.all_terms(),
        strings(&["readme", "docs", "cargo run", "demo", "setup", "run", "quickstart"])
    );
}

#[test]
fn loaded_packs_keep_ids_and_sections_sorted_and_unique() {
    let common = KnowledgePack {
        rules: vec![
            RuleEntry { id: String::from("license"), knowledge: knowledge(&[], &[], vec![("install", &["setup"])]) },
            RuleEntry { id: String::from("readme"), knowledge: knowledge(&[], &[], vec![("usage", &["run"])]) },
        ],
    };
    let node = KnowledgePack {
        rules: vec![
            RuleEntry { id: String::from("tests"), knowledge: knowledge(&[], &[], vec![]) },
            RuleEntry { id: String::from("readme"), knowledge: knowledge(&[], &[], vec![("install", &["npm i"]), ("usage", &["npx"])]) },
            RuleEntry { id: String::from("changelog"), knowledge: knowledge(&[], &[], vec![]) },
            RuleEntry { id: String::from("license"), knowledge: knowledge(&[], &[], vec![]) },
        ],
    };
    let pack = KnowledgePack::load(common, Some(node));
    let ids: Vec<&str> = pack.rules.iter().map(|entry| entry.id.as_str()).collect();
    assert_eq!(ids, vec!["changelog", "license", "readme", "tests"]);
    let readme = pack.rule("readme");
    let sections: Vec<&str> = readme.section_aliases.iter().map(|s| s.section.as_str()).collect();
    assert_eq!(sections, vec!["install", "usage"]);
    assert_eq!(readme.section_aliases[1].aliases, strings(&["run", "npx"]));
}

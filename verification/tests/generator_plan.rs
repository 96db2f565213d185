use ossify::audit::CheckStatus;
use ossify::generator::{
    all_fixable_items, check_for_item, item_for_check, items_from_checks, plan_file,
    planned_upgrades, year_from_unix_seconds, CheckSelection, FileAction, LicenseKind,
    ScaffoldItem, ScaffoldMode,
};

#[test]
fn license_names_parse() {
    assert!(matches!(LicenseKind::parse("mit"), Ok(LicenseKind::Mit)));
    assert!(matches!(LicenseKind::parse("MIT"), Ok(LicenseKind::Mit)));
    assert!(matches!(LicenseKind::parse("apache"), Ok(LicenseKind::Apache2)));
    assert!(matches!(LicenseKind::parse("Apache-2.0"), Ok(LicenseKind::Apache2)));
    match LicenseKind::parse("gpl") {
        Err(message) => assert_eq!(message, "Unsupported license: gpl. Use `mit` or `apache-2.0`."),
        Ok(_) => panic!("gpl is not supported"),
    }
    assert_eq!(LicenseKind::Apache2.name(), "apache-2.0");
    assert_eq!(ScaffoldMode::Plan.as_str(), "plan");
}

#[test]
fn every_item_round_trips_through_its_rule() {
    for item in all_fixable_items() {
        assert_eq!(item_for_check(check_for_item(item)), Some(item));
    }
    assert_eq!(item_for_check("contributing_guide"), Some(ScaffoldItem::Contributing));
    assert_eq!(item_for_check("tests"), None);
    assert_eq!(all_fixable_items().len(), 13);
}

#[test]
fn plan_file_decides_the_action() {
    let created = plan_file(ScaffoldItem::Readme, "/r/README.md", Some(String::from("# x")), false, false, None);
    assert_eq!(created.generated.action, FileAction::Created);
    assert_eq!(created.content.as_deref(), Some("# x"));
    let kept = plan_file(ScaffoldItem::Readme, "/r/README.md", Some(String::from("# x")), true, false, None);
    assert_eq!(kept.generated.action, FileAction::Skipped);
    assert_eq!(
        kept.generated.reason.as_deref(),
        Some("File already exists. Re-run with --overwrite to replace it.")
    );
    assert!(kept.content.is_none());
    let updated = plan_file(ScaffoldItem::Readme, "/r/README.md", Some(String::from("# x")), true, true, None);
    assert_eq!(updated.generated.action, FileAction::Updated);
    let guided = plan_file(ScaffoldItem::Codeowners, "/r/.github/CODEOWNERS", None, false, false, Some("needs --owner"));
    assert_eq!(guided.generated.action, FileAction::Skipped);
    assert_eq!(guided.generated.reason.as_deref(), Some("needs --owner"));
    let missing = plan_file(ScaffoldItem::Funding, "/r/.github/FUNDING.yml", None, false, false, None);
    assert_eq!(missing.generated.reason.as_deref(), Some("Missing required inputs."));
}

#[test]
fn items_follow_the_audit() {
    let checks = vec![
        CheckSelection { id: String::from("readme"), status: CheckStatus::Missing, fixable: true },
        CheckSelection { id: String::from("license"), status: CheckStatus::Partial, fixable: true },
        CheckSelection { id: String::from("tests"), status: CheckStatus::Missing, fixable: true },
        CheckSelection { id: String::from("readme"), status: CheckStatus::Missing, fixable: true },
        CheckSelection { id: String::from("funding"), status: CheckStatus::Missing, fixable: false },
        CheckSelection { id: String::from("changelog"), status: CheckStatus::Strong, fixable: true },
    ];
    assert_eq!(items_from_checks(&checks, false), vec![ScaffoldItem::Readme]);
    assert_eq!(items_from_checks(&checks, true), vec![ScaffoldItem::Readme, ScaffoldItem::License]);
}

#[test]
fn upgrades_need_every_file_written() {
    let ops = vec![
        plan_file(ScaffoldItem::IssueTemplates, ".github/ISSUE_TEMPLATE/bug_report.md", Some(String::from("a")), false, false, None),
        plan_file(ScaffoldItem::Readme, "README.md", Some(String::from("b")), false, false, None),
        plan_file(ScaffoldItem::IssueTemplates, ".github/ISSUE_TEMPLATE/feature_request.md", Some(String::from("c")), false, false, None),
        plan_file(ScaffoldItem::Funding, ".github/FUNDING.yml", None, false, false, None),
    ];
    let upgrades = planned_upgrades(&ops);
    assert_eq!(upgrades.len(), 2);
    assert_eq!(upgrades[0].rule_id, "readme");
    assert_eq!(upgrades[0].message, "Planned scaffolding would satisfy this rule by adding README.md.");
    assert_eq!(upgrades[1].rule_id, "issue_templates");
    assert_eq!(
        upgrades[1].evidence,
        vec![".github/ISSUE_TEMPLATE/bug_report.md", ".github/ISSUE_TEMPLATE/feature_request.md"]
    );
    assert_eq!(upgrades[1].location.as_deref(), Some(".github/ISSUE_TEMPLATE/bug_report.md"));
}

#[test]
fn year_counts_from_1970() {
    assert_eq!(year_from_unix_seconds(0), 1970);
    assert_eq!(year_from_unix_seconds(31_556_952 * 56), 2026);
}

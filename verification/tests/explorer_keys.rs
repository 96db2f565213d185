use ossify::audit::{CheckStatus, RuleCategory};
use ossify::explorer::{ExplorerState, ItemTag, Key, KeyKind};
use ossify::ui::{ActiveView, StatusFilter, UiMode};

fn tag(status: CheckStatus, category: RuleCategory) -> ItemTag {
    ItemTag { status, category }
}

fn sample_plan_app() -> ExplorerState {
    let checks = vec![
        tag(CheckStatus::Partial, RuleCategory::Identity),
        tag(CheckStatus::Missing, RuleCategory::Docs),
        tag(CheckStatus::Missing, RuleCategory::Community),
        tag(CheckStatus::Strong, RuleCategory::Automation),
        tag(CheckStatus::Missing, RuleCategory::Release),
    ];
    let diagnostics = vec![tag(CheckStatus::Missing, RuleCategory::Docs)];
    ExplorerState::new(UiMode::Plan, checks, diagnostics, 4, 0)
}

#[test]
fn tab_cycles_views() {
    let mut app = sample_plan_app();
    assert_eq!(app.active_view(), ActiveView::Overview);
    assert!(!app.handle_key(Key::Tab, 0));
    assert_eq!(app.active_view(), ActiveView::Checks);
    assert!(!app.handle_key(Key::BackTab, 0));
    assert_eq!(app.active_view(), ActiveView::Overview);
}

#[test]
fn filters_cycle() {
    let mut app = sample_plan_app();
    app.handle_key(Key::Char('f'), 0);
    assert_eq!(app.status_filter(), StatusFilter::Strong);
    app.handle_key(Key::Char('c'), 0);
    assert_eq!(app.category_filter(), Some(RuleCategory::Identity));
}

#[test]
fn enter_toggles_detail_and_escape_quits() {
    let mut app = sample_plan_app();
    app.handle_key(Key::Enter, 0);
    assert!(app.detail_open());
    assert!(app.handle_key(Key::Esc, 0));
}

#[test]
fn repeated_navigation_is_throttled() {
    let mut app = sample_plan_app();
    let start = 1_000;

    assert!(!app.handle_key_at(Key::Tab, KeyKind::Press, start));
    assert_eq!(app.active_view(), ActiveView::Checks);

    assert!(!app.handle_key_at(Key::Down, KeyKind::Press, start));
    assert_eq!(app.selected_check(), 1);

    assert!(!app.handle_key_at(Key::Down, KeyKind::Repeat, start + 30));
    assert_eq!(app.selected_check(), 1);

    assert!(!app.handle_key_at(Key::Down, KeyKind::Repeat, start + 120));
    assert_eq!(app.selected_check(), 2);
}

#[test]
fn plan_view_comes_last_and_wraps() {
    let mut app = sample_plan_app();
    assert!(!app.handle_key(Key::BackTab, 0));
    assert_eq!(app.active_view(), ActiveView::Plan);
    assert!(!app.handle_key_at(Key::Tab, KeyKind::Release, 0));
    assert_eq!(app.active_view(), ActiveView::Plan);
    assert!(!app.handle_key(Key::Tab, 0));
    assert_eq!(app.active_view(), ActiveView::Overview);
}

#[test]
fn filtering_keeps_the_selection_in_range() {
    let mut app = sample_plan_app();
    app.handle_key(Key::Tab, 0);
    app.handle_key(Key::Down, 1_000);
    app.handle_key(Key::Down, 2_000);
    app.handle_key(Key::Down, 3_000);
    assert_eq!(app.selected_check(), 3);
    // Strong leaves a single check.
    app.handle_key(Key::Char('f'), 4_000);
    assert_eq!(app.selected_check(), 0);
}

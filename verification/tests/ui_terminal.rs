use ossify::ui::interactive_supported;

#[test]
fn interactive_support_rejects_dumb_terminal() {
    assert!(!interactive_supported(true, Some(String::from("dumb"))));
    assert!(!interactive_supported(
        false,
        Some(String::from("xterm-256color"))
    ));
    assert!(interactive_supported(
        true,
        Some(String::from("xterm-256color"))
    ));
}

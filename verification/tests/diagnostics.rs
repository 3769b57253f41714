use ctl_tab::diagnostics::debug_requested;

#[test]
fn debug_flag_values() {
    assert!(!debug_requested(None));
    assert!(!debug_requested(Some("")));
    assert!(!debug_requested(Some("0")));
    assert!(debug_requested(Some("1")));
    assert!(debug_requested(Some("00")));
    assert!(debug_requested(Some("yes")));
}

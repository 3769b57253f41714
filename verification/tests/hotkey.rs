use ctl_tab::hotkey::{keep_waiting_for_tap, TAP_POLL_ATTEMPTS, TAP_POLL_INTERVAL_MS};

#[test]
fn tap_wait_stops_when_installed_or_after_the_last_attempt() {
    assert!(keep_waiting_for_tap(0, false));
    assert!(keep_waiting_for_tap(1199, false));
    assert!(!keep_waiting_for_tap(1200, false));
    assert!(!keep_waiting_for_tap(0, true));
    assert_eq!(TAP_POLL_ATTEMPTS, 1200);
    assert_eq!(TAP_POLL_INTERVAL_MS, 1500);
}

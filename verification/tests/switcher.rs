use ctl_tab::switcher::{
    filter_eligible, order_by_mru, promote_mru, wrapping_advance, AppItem, Mode, RawApp, Switcher,
};

#[test]
fn forward_within_bounds() {
    assert_eq!(wrapping_advance(0, 1, 5), 1);
    assert_eq!(wrapping_advance(2, 1, 5), 3);
}

#[test]
fn forward_wraps_past_end() {
    assert_eq!(wrapping_advance(4, 1, 5), 0);
}

#[test]
fn backward_wraps_past_start() {
    assert_eq!(wrapping_advance(0, -1, 5), 4);
    assert_eq!(wrapping_advance(2, -1, 5), 1);
}

#[test]
fn large_deltas_wrap_modularly() {
    assert_eq!(wrapping_advance(0, 7, 5), 2); // 7 mod 5
    assert_eq!(wrapping_advance(4, -3, 5), 1); // (4-3) mod 5
    assert_eq!(wrapping_advance(0, -7, 5), 3); // (-7) mod 5 == 3
}

#[test]
fn single_element_list_stays_put() {
    assert_eq!(wrapping_advance(0, 1, 1), 0);
    assert_eq!(wrapping_advance(0, -1, 1), 0);
}

#[test]
fn empty_list_returns_zero() {
    assert_eq!(wrapping_advance(0, 1, 0), 0);
    assert_eq!(wrapping_advance(0, -1, 0), 0);
}

#[test]
fn step_and_step_back_return() {
    for i in 0..5usize {
        for d in -12isize..12 {
            let there = wrapping_advance(i, d, 5);
            assert_eq!(wrapping_advance(there, -d, 5), i);
            assert_eq!(wrapping_advance(i, d + 10, 5), there);
        }
    }
}

#[test]
fn mode_labels() {
    assert_eq!(Mode::Apps.label(), "apps");
    assert_eq!(Mode::Windows.label(), "windows");
}

#[test]
fn switcher_gesture_lifecycle() {
    let mut s = Switcher::new();
    assert!(!s.active);
    // Idle: advance, commit and cancel do nothing.
    s.advance(1);
    assert_eq!(s.selected, 0);
    assert_eq!(s.commit(), None);
    s.cancel();
    assert!(!s.active);

    s.start(Mode::Windows);
    assert!(s.active);
    assert_eq!(s.mode, Mode::Windows);
    assert_eq!(s.items, vec!["item-0", "item-1", "item-2", "item-3", "item-4"]);
    s.advance(-1);
    assert_eq!(s.selected, 4);
    s.advance(2);
    assert_eq!(s.selected, 1);
    assert_eq!(s.commit(), Some("item-1".to_string()));
    assert!(!s.active);
    assert_eq!(s.selected, 0);
    assert!(s.items.is_empty());

    s.start(Mode::Apps);
    s.advance(1);
    s.cancel();
    assert!(!s.active);
    assert_eq!(s.selected, 0);
    assert!(s.items.is_empty());

    let d = Switcher::default();
    assert!(!d.active && d.mode == Mode::Apps && d.items.is_empty());
}

#[test]
fn begin_uses_the_given_list() {
    let mut s = Switcher::new();
    s.begin(Mode::Apps, vec!["a".to_string(), "b".to_string()], 1);
    assert!(s.active);
    assert_eq!(s.selected, 1);
    s.advance(1);
    assert_eq!(s.selected, 0);
    assert_eq!(s.commit(), Some("a".to_string()));
}

fn raw(pid: i32, name: &str, regular: bool) -> RawApp {
    RawApp { pid, name: name.to_string(), regular }
}

fn item(pid: i32, name: &str) -> AppItem {
    AppItem { pid, name: name.to_string() }
}

#[test]
fn eligible_apps_are_regular_and_not_ourselves() {
    let apps = vec![raw(1, "Finder", true), raw(2, "agent", false), raw(3, "Self", true), raw(4, "Mail", true)];
    let kept = filter_eligible(apps, 3);
    assert_eq!(kept, vec![raw(1, "Finder", true), raw(4, "Mail", true)]);
}

#[test]
fn promote_moves_pid_to_front() {
    let mut mru = vec![5, 7, 9];
    promote_mru(&mut mru, 9);
    assert_eq!(mru, vec![9, 5, 7]);
    promote_mru(&mut mru, 11);
    assert_eq!(mru, vec![11, 9, 5, 7]);
    promote_mru(&mut mru, 11);
    assert_eq!(mru, vec![11, 9, 5, 7]);
}

#[test]
fn order_follows_recency_then_enumeration() {
    let items = vec![item(1, "a"), item(2, "b"), item(3, "c"), item(4, "d")];
    let mru = vec![3, 9, 1];
    let ordered = order_by_mru(items, &mru);
    assert_eq!(ordered, vec![item(3, "c"), item(1, "a"), item(2, "b"), item(4, "d")]);
    assert_eq!(order_by_mru(vec![], &mru), vec![]);
    assert_eq!(
        order_by_mru(vec![item(2, "b"), item(1, "a")], &vec![]),
        vec![item(2, "b"), item(1, "a")]
    );
}

#[test]
fn lengths_beyond_isize_are_read_as_signed() {
    // A length of usize::MAX reads as -1: everything reduces to 0.
    assert_eq!(wrapping_advance(0, 1, usize::MAX), 0);
    // usize::MAX - 1 reads as -2: the remainder is taken modulo 2.
    assert_eq!(wrapping_advance(0, 3, usize::MAX - 1), 1);
}

#[test]
fn switcher_selection_stays_in_its_list() {
    let mut s = Switcher::new();
    s.start(Mode::Apps);
    for d in [1isize, -1, 7, -13, isize::MAX - 4, isize::MIN + 4] {
        s.advance(d);
        assert!(s.selected < s.items.len());
    }
    s.cancel();
    assert!(s.selected == 0 && s.items.is_empty());
}

use ctl_tab::apps::{ensure_icon, AppState};
use ctl_tab::config::{Combo, MOD_COMMAND, MOD_CONTROL, MOD_OPTION, MOD_SHIFT};
use ctl_tab::controller::{
    build_show_payload, cancel, combo_for, commit_index, current_config, handle_flags_changed,
    handle_key_down, hover, init, match_trigger, parse_action, present_overlay, reset_config,
    save_config, start, start_recording, window_items, Action, CtlState, FlagsAction,
    KeyDownAction,
};
use ctl_tab::switcher::{AppItem, Mode};

const TAB: i64 = 48;
const SECTION: i64 = 10;
const ESC: i64 = 53;

fn apps3() -> Vec<AppItem> {
    vec![
        AppItem { pid: 10, name: "Finder".to_string() },
        AppItem { pid: 20, name: "Mail".to_string() },
        AppItem { pid: 30, name: "Notes".to_string() },
    ]
}

fn open_apps(st: &mut CtlState) {
    match handle_key_down(st, TAB, MOD_CONTROL) {
        KeyDownAction::Open { mode, required_mods } => {
            assert_eq!(mode, Mode::Apps);
            assert_eq!(required_mods, MOD_CONTROL);
            assert!(start(st, mode, required_mods, false, apps3()));
        }
        other => panic!("expected Open, got {other:?}"),
    }
}

#[test]
fn ctrl_tab_opens_on_previous_app_and_release_commits() {
    let mut st = CtlState::new();
    open_apps(&mut st);
    assert!(st.switcher.active);
    assert_eq!(st.switcher.selected, 1);
    assert!(present_overlay(&st));

    // Tab again moves right.
    assert!(matches!(handle_key_down(&mut st, TAB, MOD_CONTROL), KeyDownAction::Moved { selected: 2 }));
    // Tab wraps.
    assert!(matches!(handle_key_down(&mut st, TAB, MOD_CONTROL), KeyDownAction::Moved { selected: 0 }));
    // Shift rising edge moves left.
    assert!(matches!(
        handle_flags_changed(&mut st, MOD_CONTROL | MOD_SHIFT),
        FlagsAction::Moved { selected: 2 }
    ));
    // Holding Shift is not another rising edge.
    assert!(matches!(handle_flags_changed(&mut st, MOD_CONTROL | MOD_SHIFT), FlagsAction::Nothing));
    assert!(matches!(handle_flags_changed(&mut st, MOD_CONTROL), FlagsAction::Nothing));

    // Releasing Ctrl commits the selection.
    match handle_flags_changed(&mut st, 0) {
        FlagsAction::Commit(info) => {
            assert_eq!(info.mode, Mode::Apps);
            assert_eq!(info.index, 2);
            assert_eq!(info.item, Some(AppItem { pid: 30, name: "Notes".to_string() }));
        }
        other => panic!("expected Commit, got {other:?}"),
    }
    assert!(!st.switcher.active);
    assert!(st.pids.is_empty());
    assert_eq!(st.active_mods, 0);
    assert!(!present_overlay(&st));
}

#[test]
fn single_item_selects_it() {
    let mut st = CtlState::new();
    assert!(start(&mut st, Mode::Windows, MOD_CONTROL, false, vec![AppItem { pid: 1, name: "w".to_string() }]));
    assert_eq!(st.switcher.selected, 0);
    let mut st2 = CtlState::new();
    assert!(start(&mut st2, Mode::Apps, MOD_CONTROL, true, apps3()));
    assert_eq!(st2.switcher.selected, 2);
}

#[test]
fn empty_list_does_not_open() {
    let mut st = CtlState::new();
    assert!(!start(&mut st, Mode::Windows, MOD_CONTROL, false, vec![]));
    assert!(!st.switcher.active);
}

#[test]
fn esc_cancels_only_an_active_gesture() {
    let mut st = CtlState::new();
    assert!(matches!(handle_key_down(&mut st, ESC, MOD_CONTROL), KeyDownAction::Pass));
    open_apps(&mut st);
    assert!(matches!(handle_key_down(&mut st, ESC, MOD_CONTROL), KeyDownAction::Cancelled));
    assert!(!st.switcher.active);
    assert_eq!(st.active_mods, 0);
    // After the cancel, releasing Ctrl does nothing.
    assert!(matches!(handle_flags_changed(&mut st, 0), FlagsAction::Nothing));
}

#[test]
fn trigger_needs_exactly_the_held_modifiers() {
    let mut st = CtlState::new();
    // Extra Option or Command disqualifies; Shift alone is ignored.
    assert!(matches!(handle_key_down(&mut st, TAB, MOD_CONTROL | MOD_OPTION), KeyDownAction::Pass));
    assert!(matches!(handle_key_down(&mut st, TAB, MOD_CONTROL | MOD_COMMAND), KeyDownAction::Pass));
    assert!(matches!(handle_key_down(&mut st, TAB, 0), KeyDownAction::Pass));
    assert!(matches!(
        handle_key_down(&mut st, TAB, MOD_CONTROL | MOD_SHIFT),
        KeyDownAction::Open { mode: Mode::Apps, .. }
    ));
    assert!(matches!(
        handle_key_down(&mut st, SECTION, MOD_CONTROL),
        KeyDownAction::Open { mode: Mode::Windows, .. }
    ));
    // Flags beyond the four modifiers are masked away.
    assert!(matches!(
        handle_key_down(&mut st, SECTION, MOD_CONTROL | 0x0001_0000),
        KeyDownAction::Open { mode: Mode::Windows, .. }
    ));
    assert_eq!(match_trigger(&st.config, 12, MOD_CONTROL), None);
    assert_eq!(match_trigger(&st.config, TAB, MOD_CONTROL), Some(Action::SwitchApp));
}

#[test]
fn shift_combo_needs_exact_match_and_disables_left() {
    let mut st = CtlState::new();
    let app = Combo::new(MOD_CONTROL | MOD_SHIFT, TAB);
    let win = Combo::new(MOD_CONTROL, SECTION);
    assert!(save_config(&mut st, app, win).is_ok());
    assert_eq!(match_trigger(&st.config, TAB, MOD_CONTROL), None);
    assert_eq!(match_trigger(&st.config, TAB, MOD_CONTROL | MOD_SHIFT), Some(Action::SwitchApp));
    match handle_key_down(&mut st, TAB, MOD_CONTROL | MOD_SHIFT) {
        KeyDownAction::Open { mode, required_mods } => {
            assert_eq!(required_mods, MOD_CONTROL | MOD_SHIFT);
            assert!(start(&mut st, mode, required_mods, false, apps3()));
        }
        other => panic!("expected Open, got {other:?}"),
    }
    assert!(matches!(handle_flags_changed(&mut st, MOD_CONTROL | MOD_SHIFT), FlagsAction::Nothing));
    assert_eq!(st.switcher.selected, 1);
    // Releasing Shift releases part of the hold: commit.
    assert!(matches!(handle_flags_changed(&mut st, MOD_CONTROL), FlagsAction::Commit(_)));
}

#[test]
fn shift_with_extra_modifier_does_not_move() {
    let mut st = CtlState::new();
    open_apps(&mut st);
    assert!(matches!(
        handle_flags_changed(&mut st, MOD_CONTROL | MOD_SHIFT | MOD_OPTION),
        FlagsAction::Nothing
    ));
    assert_eq!(st.switcher.selected, 1);
}

#[test]
fn shift_while_idle_does_nothing() {
    let mut st = CtlState::new();
    assert!(matches!(handle_flags_changed(&mut st, MOD_CONTROL | MOD_SHIFT), FlagsAction::Nothing));
    assert!(st.prev_shift);
    assert!(!st.switcher.active);
}

#[test]
fn recording_captures_first_full_combo_and_swallows_everything() {
    let mut st = CtlState::new();
    start_recording(&mut st, parse_action("windows"));
    assert_eq!(st.recording, Some(Action::SwitchWindows));
    // No modifier yet, or only a modifier key: swallowed, still recording.
    assert!(matches!(handle_key_down(&mut st, TAB, 0), KeyDownAction::Swallow));
    assert!(matches!(handle_key_down(&mut st, 59, MOD_CONTROL), KeyDownAction::Swallow));
    match handle_key_down(&mut st, 12, MOD_COMMAND | MOD_OPTION | 0x0001_0000) {
        KeyDownAction::Recorded { action, modifiers, key_code, label } => {
            assert_eq!(action, Action::SwitchWindows);
            assert_eq!(modifiers, MOD_COMMAND | MOD_OPTION);
            assert_eq!(key_code, 12);
            assert_eq!(label, "⌥⌘Q");
        }
        other => panic!("expected Recorded, got {other:?}"),
    }
    assert_eq!(st.recording, None);
    assert_eq!(parse_action("app"), Action::SwitchApp);
    assert_eq!(parse_action("anything"), Action::SwitchApp);
    assert_eq!(Action::SwitchApp.key(), "app");
    assert_eq!(Action::SwitchWindows.key(), "windows");
    assert_eq!(Action::SwitchWindows.mode(), Mode::Windows);
}

#[test]
fn recording_blocks_flag_handling() {
    let mut st = CtlState::new();
    open_apps(&mut st);
    start_recording(&mut st, Action::SwitchApp);
    assert!(matches!(handle_flags_changed(&mut st, 0), FlagsAction::Nothing));
    assert!(st.switcher.active);
}

#[test]
fn hover_and_click_clamp_to_last_item() {
    let mut st = CtlState::new();
    assert_eq!(hover(&mut st, 3), None);
    assert!(commit_index(&mut st, 0).is_none());
    open_apps(&mut st);
    assert_eq!(hover(&mut st, 0), Some(0));
    assert_eq!(hover(&mut st, 99), Some(2));
    let info = commit_index(&mut st, 7).expect("active");
    assert_eq!(info.index, 2);
    assert_eq!(info.item, Some(AppItem { pid: 30, name: "Notes".to_string() }));
    assert!(!st.switcher.active);
}

#[test]
fn cancel_resets_gesture() {
    let mut st = CtlState::new();
    open_apps(&mut st);
    cancel(&mut st);
    assert!(!st.switcher.active);
    assert!(st.switcher.items.is_empty());
    assert!(st.pids.is_empty());
}

#[test]
fn config_save_reset_and_read() {
    let mut st = CtlState::new();
    let err = save_config(&mut st, Combo::new(MOD_CONTROL, TAB), Combo::new(MOD_CONTROL, TAB)).unwrap_err();
    assert_eq!(err, "Le due combo non possono essere identiche.");
    assert_eq!(current_config(&st).switch_app.label, "⌃Tab");

    start_recording(&mut st, Action::SwitchApp);
    let saved = save_config(&mut st, Combo::new(MOD_OPTION, 12), Combo::new(MOD_CONTROL, SECTION)).unwrap();
    assert_eq!(saved.switch_app.label, "⌥Q");
    assert_eq!(current_config(&st), saved);
    assert_eq!(st.recording, None);
    assert_eq!(combo_for(&st.config, Action::SwitchApp).key_code, 12);

    let back = reset_config(&mut st);
    assert_eq!(back.switch_app.label, "⌃Tab");
    assert_eq!(back.switch_windows.label, "⌃§");
    assert_eq!(current_config(&st), back);

    let mut other = CtlState::new();
    init(&mut other, saved.clone());
    assert_eq!(current_config(&other), saved);
}

#[test]
fn show_payload_lists_items_with_ids_and_icons() {
    let mut st = CtlState::new();
    let mut apps = AppState::new();
    ensure_icon(&mut apps, 20, Some(&[0u8, 0, 0][..]));
    assert!(start(&mut st, Mode::Apps, MOD_CONTROL, false, vec![
        AppItem { pid: 810, name: "Finder".to_string() },
        AppItem { pid: 20, name: "Mail".to_string() },
    ]));
    let p = build_show_payload(&st, &apps);
    assert_eq!(p.mode, "apps");
    assert_eq!(p.selected, 1);
    assert_eq!(p.items.len(), 2);
    assert_eq!(p.items[0].id, "810-0");
    assert_eq!(p.items[0].title, "Finder");
    assert_eq!(p.items[0].app_name, "Finder");
    assert_eq!(p.items[0].icon_data_url, "");
    assert_eq!(p.items[1].id, "20-1");
    assert_eq!(p.items[1].icon_data_url, "data:image/png;base64,AAAA");
}

#[test]
fn window_items_reorder_vscode_titles_only() {
    let titles = vec!["main.rs — proj".to_string(), "Untitled-1".to_string()];
    let v = window_items(7, Some("com.microsoft.VSCode"), titles.clone());
    assert_eq!(v, vec![
        AppItem { pid: 7, name: "proj — main.rs".to_string() },
        AppItem { pid: 7, name: "Untitled-1".to_string() },
    ]);
    let w = window_items(7, Some("com.apple.Safari"), titles.clone());
    assert_eq!(w[0].name, "main.rs — proj");
    let x = window_items(7, None, titles);
    assert_eq!(x[0].name, "main.rs — proj");
}

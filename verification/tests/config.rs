use ctl_tab::config::{
    format_combo_label, is_armed, is_modifier_keycode, key_name, validate_combo, validate_pair,
    Combo, Config, MOD_COMMAND, MOD_CONTROL, MOD_OPTION, MOD_SHIFT, MODS_ALL,
};

#[test]
fn label_single_modifier() {
    assert_eq!(format_combo_label(MOD_CONTROL, 48), "⌃Tab");
    assert_eq!(format_combo_label(MOD_CONTROL, 10), "⌃§");
}

#[test]
fn label_multiple_modifiers_in_canonical_order() {
    // ⌃⌥⇧⌘ order regardless of bit order.
    assert_eq!(format_combo_label(MOD_CONTROL | MOD_SHIFT, 48), "⌃⇧Tab");
    assert_eq!(format_combo_label(MOD_COMMAND | MOD_OPTION, 12), "⌥⌘Q");
    assert_eq!(
        format_combo_label(MOD_CONTROL | MOD_OPTION | MOD_SHIFT | MOD_COMMAND, 49),
        "⌃⌥⇧⌘Space"
    );
}

#[test]
fn validate_rejects_key_only() {
    let c = Combo::new(0, 48);
    assert!(validate_combo(&c).is_err());
}

#[test]
fn validate_rejects_modifier_only_key() {
    // key_code 59 == left control (a modifier key)
    let c = Combo::new(MOD_CONTROL, 59);
    assert!(validate_combo(&c).is_err());
}

#[test]
fn validate_accepts_modifier_plus_key() {
    let c = Combo::new(MOD_CONTROL, 48);
    assert!(validate_combo(&c).is_ok());
}

#[test]
fn validate_pair_rejects_identical() {
    let a = Combo::new(MOD_CONTROL, 48);
    let b = Combo::new(MOD_CONTROL, 48);
    assert!(validate_pair(&a, &b).is_err());
}

#[test]
fn validate_pair_accepts_distinct() {
    let a = Combo::new(MOD_CONTROL, 48);
    let b = Combo::new(MOD_CONTROL, 10);
    assert!(validate_pair(&a, &b).is_ok());
}

#[test]
fn default_config_is_ctrl_tab_and_ctrl_section() {
    let cfg = Config::default();
    assert_eq!(cfg.switch_app.label, "⌃Tab");
    assert_eq!(cfg.switch_windows.label, "⌃§");
    assert_eq!(cfg.switch_app.key_code, 48);
    assert_eq!(cfg.switch_windows.key_code, 10);
}

#[test]
fn validation_messages_name_the_broken_rule() {
    assert_eq!(
        validate_combo(&Combo::new(0, 48)).unwrap_err(),
        "Serve almeno un modificatore (⌃⌥⇧⌘)."
    );
    assert_eq!(
        validate_combo(&Combo::new(MOD_SHIFT, 56)).unwrap_err(),
        "Serve un tasto non modificatore."
    );
    let a = Combo::new(MOD_CONTROL, 48);
    assert_eq!(
        validate_pair(&a, &a.clone()).unwrap_err(),
        "Le due combo non possono essere identiche."
    );
    // The first combo is checked before the second.
    assert_eq!(
        validate_pair(&Combo::new(0, 1), &Combo::new(MOD_CONTROL, 60)).unwrap_err(),
        "Serve almeno un modificatore (⌃⌥⇧⌘)."
    );
}

#[test]
fn modifier_bits_outside_the_four_do_not_count() {
    // Caps Lock (0x10000) is not one of ⌃⌥⇧⌘.
    assert!(validate_combo(&Combo::new(0x0001_0000, 48)).is_err());
    assert_eq!(MODS_ALL, 0x001e_0000);
}

#[test]
fn modifier_keycodes_are_54_to_63() {
    assert!(!is_modifier_keycode(53));
    assert!(is_modifier_keycode(54));
    assert!(is_modifier_keycode(63));
    assert!(!is_modifier_keycode(64));
}

#[test]
fn key_names_and_fallback() {
    assert_eq!(key_name(0), "A");
    assert_eq!(key_name(53), "Esc");
    assert_eq!(key_name(126), "↑");
    assert_eq!(key_name(52), "key52");
    assert_eq!(key_name(-7), "key-7");
    assert_eq!(key_name(i64::MIN), "key-9223372036854775808");
    assert_eq!(format_combo_label(0, 200), "key200");
}

#[test]
fn combo_new_labels_itself() {
    let c = Combo::new(MOD_OPTION | MOD_CONTROL, 17);
    assert_eq!(c.modifiers, MOD_OPTION | MOD_CONTROL);
    assert_eq!(c.key_code, 17);
    assert_eq!(c.label, "⌃⌥T");
}

#[test]
fn armed_ignores_shift_only() {
    assert!(is_armed(MOD_CONTROL, MOD_CONTROL));
    assert!(is_armed(MOD_CONTROL | MOD_SHIFT, MOD_CONTROL));
    assert!(!is_armed(MOD_CONTROL | MOD_OPTION, MOD_CONTROL));
    assert!(!is_armed(MOD_CONTROL | MOD_COMMAND, MOD_CONTROL));
    assert!(!is_armed(0, MOD_CONTROL));
}

//! Shortcut configuration: the combo model, validation and label formatting.

use vstd::prelude::*;

use crate::text::{append_signed_decimal, signed_decimal};

verus! {

// CGEventFlags modifier bits.
pub const MOD_CONTROL: u64 = 0x0004_0000;
pub const MOD_SHIFT: u64 = 0x0002_0000;
pub const MOD_OPTION: u64 = 0x0008_0000;
pub const MOD_COMMAND: u64 = 0x0010_0000;
pub const MODS_ALL: u64 = MOD_CONTROL | MOD_SHIFT | MOD_OPTION | MOD_COMMAND;

/// A configurable shortcut: the required modifier flags + the key code, plus a
/// human-readable label (e.g. "⌃Tab").
#[derive(Debug, PartialEq, Eq)]
pub struct Combo {
    pub modifiers: u64,
    pub key_code: i64,
    pub label: String,
}

impl Clone for Combo {
    fn clone(&self) -> (r: Self)
        ensures
            r == *self,
    {
        Combo { modifiers: self.modifiers, key_code: self.key_code, label: self.label.clone() }
    }
}

/// The fixed name of a key code, where the key has one.
pub open spec fn key_literal(kc: i64) -> Option<&'static str> {
    match kc {
        0 => Some("A"),
        1 => Some("S"),
        2 => Some("D"),
        3 => Some("F"),
        4 => Some("H"),
        5 => Some("G"),
        6 => Some("Z"),
        7 => Some("X"),
        8 => Some("C"),
        9 => Some("V"),
        11 => Some("B"),
        12 => Some("Q"),
        13 => Some("W"),
        14 => Some("E"),
        15 => Some("R"),
        16 => Some("Y"),
        17 => Some("T"),
        18 => Some("1"),
        19 => Some("2"),
        20 => Some("3"),
        21 => Some("4"),
        22 => Some("6"),
        23 => Some("5"),
        24 => Some("="),
        25 => Some("9"),
        26 => Some("7"),
        27 => Some("-"),
        28 => Some("8"),
        29 => Some("0"),
        30 => Some("]"),
        31 => Some("O"),
        32 => Some("U"),
        33 => Some("["),
        34 => Some("I"),
        35 => Some("P"),
        36 => Some("Return"),
        37 => Some("L"),
        38 => Some("J"),
        39 => Some("'"),
        40 => Some("K"),
        41 => Some(";"),
        42 => Some("\\"),
        43 => Some(","),
        44 => Some("/"),
        45 => Some("N"),
        46 => Some("M"),
        47 => Some("."),
        48 => Some("Tab"),
        49 => Some("Space"),
        50 => Some("`"),
        51 => Some("Delete"),
        53 => Some("Esc"),
        10 => Some("§"),
        123 => Some("←"),
        124 => Some("→"),
        125 => Some("↓"),
        126 => Some("↑"),
        _ => None,
    }
}

/// The human name of a key code: its fixed name, else `key` and the decimal code.
pub open spec fn key_name_text(kc: i64) -> Seq<char> {
    match key_literal(kc) {
        Some(s) => s@,
        None => "key"@ + signed_decimal(kc as int),
    }
}

/// The glyph of one modifier when its bit is set in `mods`, else nothing.
pub open spec fn glyph_if(mods: u64, bit: u64, glyph: &'static str) -> Seq<char> {
    if mods & bit != 0 {
        glyph@
    } else {
        Seq::<char>::empty()
    }
}

/// The label of a combo: the held modifiers in the order ⌃⌥⇧⌘, then the key name.
pub open spec fn combo_label(mods: u64, kc: i64) -> Seq<char> {
    glyph_if(mods, MOD_CONTROL, "⌃") + glyph_if(mods, MOD_OPTION, "⌥") + glyph_if(
        mods,
        MOD_SHIFT,
        "⇧",
    ) + glyph_if(mods, MOD_COMMAND, "⌘") + key_name_text(kc)
}

/// A combo is usable when it holds at least one modifier and its key is not a
/// modifier key itself.
pub open spec fn combo_valid(mods: u64, kc: i64) -> bool {
    mods & MODS_ALL != 0 && !(54 <= kc <= 63)
}

impl Combo {
    pub fn new(modifiers: u64, key_code: i64) -> (r: Self)
        ensures
            r.modifiers == modifiers,
            r.key_code == key_code,
            r.label@ == combo_label(modifiers, key_code),
    {
        Self { modifiers, key_code, label: format_combo_label(modifiers, key_code) }
    }
}

/// The two configurable actions.
#[derive(Debug, PartialEq, Eq)]
pub struct Config {
    pub switch_app: Combo,
    pub switch_windows: Combo,
}

impl Clone for Config {
    fn clone(&self) -> (r: Self)
        ensures
            r == *self,
    {
        Config { switch_app: self.switch_app.clone(), switch_windows: self.switch_windows.clone() }
    }
}

impl Config {
    /// The shipped shortcuts: ⌃Tab switches apps, ⌃§ (ISO section) switches windows.
    pub open spec fn is_default(self) -> bool {
        &&& self.switch_app.modifiers == MOD_CONTROL
        &&& self.switch_app.key_code == 48
        &&& self.switch_app.label@ == combo_label(MOD_CONTROL, 48)
        &&& self.switch_windows.modifiers == MOD_CONTROL
        &&& self.switch_windows.key_code == 10
        &&& self.switch_windows.label@ == combo_label(MOD_CONTROL, 10)
    }
}

impl Default for Config {
    fn default() -> (r: Self)
        ensures
            r.is_default(),
    {
        Self {
            switch_app: Combo::new(MOD_CONTROL, 48),  // ⌃Tab
            switch_windows: Combo::new(MOD_CONTROL, 10),  // ⌃§ (ISO section)
        }
    }
}

/// True if `kc` is itself a modifier key (so it can't be the combo's main key).
pub fn is_modifier_keycode(kc: i64) -> (r: bool)
    ensures
        r == (54 <= kc <= 63),
{
    54 <= kc && kc <= 63
}

fn known_key(kc: i64) -> (r: Option<&'static str>)
    ensures
        r == key_literal(kc),
{
    match kc {
        0 => Some("A"),
        1 => Some("S"),
        2 => Some("D"),
        3 => Some("F"),
        4 => Some("H"),
        5 => Some("G"),
        6 => Some("Z"),
        7 => Some("X"),
        8 => Some("C"),
        9 => Some("V"),
        11 => Some("B"),
        12 => Some("Q"),
        13 => Some("W"),
        14 => Some("E"),
        15 => Some("R"),
        16 => Some("Y"),
        17 => Some("T"),
        18 => Some("1"),
        19 => Some("2"),
        20 => Some("3"),
        21 => Some("4"),
        22 => Some("6"),
        23 => Some("5"),
        24 => Some("="),
        25 => Some("9"),
        26 => Some("7"),
        27 => Some("-"),
        28 => Some("8"),
        29 => Some("0"),
        30 => Some("]"),
        31 => Some("O"),
        32 => Some("U"),
        33 => Some("["),
        34 => Some("I"),
        35 => Some("P"),
        36 => Some("Return"),
        37 => Some("L"),
        38 => Some("J"),
        39 => Some("'"),
        40 => Some("K"),
        41 => Some(";"),
        42 => Some("\\"),
        43 => Some(","),
        44 => Some("/"),
        45 => Some("N"),
        46 => Some("M"),
        47 => Some("."),
        48 => Some("Tab"),
        49 => Some("Space"),
        50 => Some("`"),
        51 => Some("Delete"),
        53 => Some("Esc"),
        10 => Some("§"),
        123 => Some("←"),
        124 => Some("→"),
        125 => Some("↓"),
        126 => Some("↑"),
        _ => None,
    }
}

/// Human name for a macOS virtual key code (common keys; falls back to `key{n}`).
pub fn key_name(kc: i64) -> (r: String)
    ensures
        r@ == key_name_text(kc),
{
    match known_key(kc) {
        Some(s) => String::from_str(s),
        None => {
            let mut r = String::from_str("key");
            append_signed_decimal(&mut r, kc);
            r
        },
    }
}

/// Format a combo as e.g. "⌃⇧Tab". Modifier order: ⌃⌥⇧⌘.
pub fn format_combo_label(modifiers: u64, key_code: i64) -> (r: String)
    ensures
        r@ == combo_label(modifiers, key_code),
{
    let mut s = String::new();
    if modifiers & MOD_CONTROL != 0 {
        s.append("⌃");
    }
    if modifiers & MOD_OPTION != 0 {
        s.append("⌥");
    }
    if modifiers & MOD_SHIFT != 0 {
        s.append("⇧");
    }
    if modifiers & MOD_COMMAND != 0 {
        s.append("⌘");
    }
    let name = key_name(key_code);
    s.append(name.as_str());
    assert(s@ =~= combo_label(modifiers, key_code));
    s
}

/// The message for a combo that holds no modifier.
pub open spec fn missing_modifier_msg() -> Seq<char> {
    "Serve almeno un modificatore (⌃⌥⇧⌘)."@
}

/// The message for a combo whose key is a modifier key.
pub open spec fn modifier_key_msg() -> Seq<char> {
    "Serve un tasto non modificatore."@
}

/// The message for two actions bound to the same combo.
pub open spec fn identical_msg() -> Seq<char> {
    "Le due combo non possono essere identiche."@
}

/// The outcome of validating one combo: the first rule it breaks, if any.
pub open spec fn combo_check(mods: u64, kc: i64) -> Option<Seq<char>> {
    if mods & MODS_ALL == 0 {
        Some(missing_modifier_msg())
    } else if 54 <= kc <= 63 {
        Some(modifier_key_msg())
    } else {
        None
    }
}

/// The outcome of validating a pair: each combo in turn, then their distinctness.
pub open spec fn pair_check(app: Combo, win: Combo) -> Option<Seq<char>> {
    if combo_check(app.modifiers, app.key_code) is Some {
        combo_check(app.modifiers, app.key_code)
    } else if combo_check(win.modifiers, win.key_code) is Some {
        combo_check(win.modifiers, win.key_code)
    } else if app.modifiers == win.modifiers && app.key_code == win.key_code {
        Some(identical_msg())
    } else {
        None
    }
}

/// Validate one combo: needs ≥1 modifier and a non-modifier key.
pub fn validate_combo(c: &Combo) -> (r: Result<(), String>)
    ensures
        r is Ok <==> combo_valid(c.modifiers, c.key_code),
        r is Ok <==> combo_check(c.modifiers, c.key_code) is None,
        r matches Err(msg) ==> combo_check(c.modifiers, c.key_code) == Some(msg@),
{
    if c.modifiers & MODS_ALL == 0 {
        return Err(String::from_str("Serve almeno un modificatore (⌃⌥⇧⌘)."));
    }
    if is_modifier_keycode(c.key_code) {
        return Err(String::from_str("Serve un tasto non modificatore."));
    }
    Ok(())
}

/// Validate the pair: each valid, and the two must not be identical.
pub fn validate_pair(app: &Combo, win: &Combo) -> (r: Result<(), String>)
    ensures
        r is Ok <==> {
            &&& combo_valid(app.modifiers, app.key_code)
            &&& combo_valid(win.modifiers, win.key_code)
            &&& !(app.modifiers == win.modifiers && app.key_code == win.key_code)
        },
        r is Ok <==> pair_check(*app, *win) is None,
        r matches Err(msg) ==> pair_check(*app, *win) == Some(msg@),
{
    validate_combo(app)?;
    validate_combo(win)?;
    if app.modifiers == win.modifiers && app.key_code == win.key_code {
        return Err(String::from_str("Le due combo non possono essere identiche."));
    }
    Ok(())
}

/// Two actions bound to the same modifiers and key are always refused.
pub proof fn law_identical_pair_refused(app: Combo, win: Combo)
    requires
        app.modifiers == win.modifiers,
        app.key_code == win.key_code,
    ensures
        pair_check(app, win) is Some,
{
}

/// The shipped shortcuts pass validation.
pub proof fn law_default_config_valid(cfg: Config)
    requires
        cfg.is_default(),
    ensures
        pair_check(cfg.switch_app, cfg.switch_windows) is None,
{
    assert(0x0004_0000u64 & (0x0004_0000u64 | 0x0002_0000u64 | 0x0008_0000u64
        | 0x0010_0000u64) != 0) by (bit_vector);
}

/// The held modifiers arm a combo's required modifiers: equal once Shift is
/// ignored on both sides (so an extra Option or Command disqualifies).
pub open spec fn armed(mods: u64, required: u64) -> bool {
    mods & !MOD_SHIFT == required & !MOD_SHIFT
}

/// The macOS virtual key codes (Carbon `kVK_*`, ANSI layout) that have a name:
/// the letter, digit and punctuation keys 0x00–0x33, Escape, and the arrows.
pub open spec fn named_key(kc: i64) -> bool {
    ||| 0x00 <= kc <= 0x33
    ||| kc == 0x35
    ||| 0x7B <= kc <= 0x7E
}

/// Each named key code reads as the key it denotes on a Mac keyboard (by its
/// `kVK_*` code: 0x7B is the left arrow, 0x7C the right one, 0x7D down, 0x7E
/// up), and every other code reads as `key` and its decimal value.
pub proof fn law_key_names(kc: i64)
    ensures
        key_name_text(0x00) == "A"@,
        key_name_text(0x01) == "S"@,
        key_name_text(0x02) == "D"@,
        key_name_text(0x03) == "F"@,
        key_name_text(0x04) == "H"@,
        key_name_text(0x05) == "G"@,
        key_name_text(0x06) == "Z"@,
        key_name_text(0x07) == "X"@,
        key_name_text(0x08) == "C"@,
        key_name_text(0x09) == "V"@,
        key_name_text(0x0A) == "§"@,
        key_name_text(0x0B) == "B"@,
        key_name_text(0x0C) == "Q"@,
        key_name_text(0x0D) == "W"@,
        key_name_text(0x0E) == "E"@,
        key_name_text(0x0F) == "R"@,
        key_name_text(0x10) == "Y"@,
        key_name_text(0x11) == "T"@,
        key_name_text(0x12) == "1"@,
        key_name_text(0x13) == "2"@,
        key_name_text(0x14) == "3"@,
        key_name_text(0x15) == "4"@,
        key_name_text(0x16) == "6"@,
        key_name_text(0x17) == "5"@,
        key_name_text(0x18) == "="@,
        key_name_text(0x19) == "9"@,
        key_name_text(0x1A) == "7"@,
        key_name_text(0x1B) == "-"@,
        key_name_text(0x1C) == "8"@,
        key_name_text(0x1D) == "0"@,
        key_name_text(0x1E) == "]"@,
        key_name_text(0x1F) == "O"@,
        key_name_text(0x20) == "U"@,
        key_name_text(0x21) == "["@,
        key_name_text(0x22) == "I"@,
        key_name_text(0x23) == "P"@,
        key_name_text(0x24) == "Return"@,
        key_name_text(0x25) == "L"@,
        key_name_text(0x26) == "J"@,
        key_name_text(0x27) == "'"@,
        key_name_text(0x28) == "K"@,
        key_name_text(0x29) == ";"@,
        key_name_text(0x2A) == "\\"@,
        key_name_text(0x2B) == ","@,
        key_name_text(0x2C) == "/"@,
        key_name_text(0x2D) == "N"@,
        key_name_text(0x2E) == "M"@,
        key_name_text(0x2F) == "."@,
        key_name_text(0x30) == "Tab"@,
        key_name_text(0x31) == "Space"@,
        key_name_text(0x32) == "`"@,
        key_name_text(0x33) == "Delete"@,
        key_name_text(0x35) == "Esc"@,
        key_name_text(0x7B) == "←"@,
        key_name_text(0x7C) == "→"@,
        key_name_text(0x7D) == "↓"@,
        key_name_text(0x7E) == "↑"@,
        named_key(kc) ==> key_literal(kc) is Some,
        !named_key(kc) ==> key_name_text(kc) == "key"@ + signed_decimal(kc as int),
{
}

/// Held modifiers arm required ones exactly when the two agree once Shift is
/// set on both; so every modifier set arms itself, and adding or dropping
/// Shift never changes whether it arms.
pub proof fn law_armed_modulo_shift(mods: u64, required: u64)
    ensures
        armed(mods, required) == ((mods | MOD_SHIFT) == (required | MOD_SHIFT)),
        armed(required, required),
        armed(mods | MOD_SHIFT, required) == armed(mods, required),
        armed(mods, required) == armed(required, mods),
{
    assert(((mods & !0x0002_0000u64) == (required & !0x0002_0000u64)) == ((mods | 0x0002_0000u64)
        == (required | 0x0002_0000u64))) by (bit_vector);
    assert(((mods | 0x0002_0000u64) & !0x0002_0000u64) == (mods & !0x0002_0000u64)) by (
    bit_vector);
}

/// True if the held modifiers `mods` exactly arm `required`, Shift ignored.
pub fn is_armed(mods: u64, required: u64) -> (r: bool)
    ensures
        r == armed(mods, required),
{
    mods & !MOD_SHIFT == required & !MOD_SHIFT
}

} // verus!

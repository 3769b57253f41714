//! The gesture controller: one state value that the keyboard tap, the mouse
//! commands and the settings commands all drive. Each handler here updates the
//! state and returns what the native side must do next (show, select, hide,
//! activate, emit), so every decision of the gesture is made in this module.

use vstd::prelude::*;

use crate::apps::{cached_icon, icon_for, AppState};
use crate::config::{
    law_armed_modulo_shift, armed, combo_label, is_armed, is_modifier_keycode, format_combo_label, pair_check,
    validate_pair, Combo, Config, MODS_ALL, MOD_SHIFT,
};
use crate::events::{ShowPayload, SwitchItem};
use crate::switcher::{
    law_step_back_returns, mode_text, texts, wrapped_index, AppItem, Mode, Switcher,
};
use crate::text::{append_decimal, append_signed_decimal, decimal, signed_decimal};
use crate::windows::{is_vscode_bundle, reorder_vscode_title, reordered_title};

verus! {

/// Key code of Escape, which cancels an active gesture.
pub const KEY_ESCAPE: i64 = 53;

/// The two configurable actions.
#[derive(Clone, Copy, Debug, PartialEq, Eq, Structural)]
pub enum Action {
    SwitchApp,
    SwitchWindows,
}

/// The list an action cycles through.
pub open spec fn action_mode(a: Action) -> Mode {
    match a {
        Action::SwitchApp => Mode::Apps,
        Action::SwitchWindows => Mode::Windows,
    }
}

/// The name of an action in the settings protocol.
pub open spec fn action_key_text(a: Action) -> Seq<char> {
    match a {
        Action::SwitchApp => "app"@,
        Action::SwitchWindows => "windows"@,
    }
}

impl Action {
    pub fn mode(self) -> (r: Mode)
        ensures
            r == action_mode(self),
    {
        match self {
            Action::SwitchApp => Mode::Apps,
            Action::SwitchWindows => Mode::Windows,
        }
    }

    pub fn key(self) -> (r: &'static str)
        ensures
            r@ == action_key_text(self),
    {
        match self {
            Action::SwitchApp => "app",
            Action::SwitchWindows => "windows",
        }
    }
}

/// The action a settings request names: `windows`, or the app switch for any
/// other name.
pub fn parse_action(name: &str) -> (r: Action)
    ensures
        r == (if name@ == "windows"@ {
            Action::SwitchWindows
        } else {
            Action::SwitchApp
        }),
{
    if crate::windows::same_text(name, "windows") {
        Action::SwitchWindows
    } else {
        Action::SwitchApp
    }
}

/// The single source of truth of the gesture, the configuration and recording.
pub struct CtlState {
    pub switcher: Switcher,
    /// The pid owning each switcher item, in the same order as `switcher.items`.
    pub pids: Vec<i32>,
    pub config: Config,
    /// Which action is currently being recorded (if any).
    pub recording: Option<Action>,
    /// Modifier flags required by the active gesture (for release → commit).
    pub active_mods: u64,
    /// Previous Shift state, to detect rising edges (left navigation).
    pub prev_shift: bool,
}

impl CtlState {
    /// Items and pids line up, the selection is in range, and an open switcher
    /// always has something to show.
    pub open spec fn wf(self) -> bool {
        &&& self.pids@.len() == self.switcher.items@.len()
        &&& self.switcher.selection_in_range()
        &&& self.switcher.active ==> self.switcher.items@.len() > 0
    }

    pub fn new() -> (r: Self)
        ensures
            r.wf(),
            r.switcher.is_idle(),
            r.pids@.len() == 0,
            r.config.is_default(),
            r.recording is None,
            r.active_mods == 0,
            !r.prev_shift,
    {
        CtlState {
            switcher: Switcher::new(),
            pids: Vec::new(),
            config: Config::default(),
            recording: None,
            active_mods: 0,
            prev_shift: false,
        }
    }
}

/// `post` is `pre` with the gesture closed: switcher idle (mode kept), no
/// pids, no held modifiers; configuration, recording and Shift state kept.
pub open spec fn closed_from(pre: CtlState, post: CtlState) -> bool {
    &&& post.switcher.is_idle()
    &&& post.switcher.mode == pre.switcher.mode
    &&& post.pids@.len() == 0
    &&& post.active_mods == 0
    &&& post.config == pre.config
    &&& post.recording == pre.recording
    &&& post.prev_shift == pre.prev_shift
}

/// `post` is `pre` with only the selection moved to `selected`.
pub open spec fn moved_from(pre: CtlState, post: CtlState, selected: int) -> bool {
    &&& post.switcher.selected == selected
    &&& post.switcher.active == pre.switcher.active
    &&& post.switcher.mode == pre.switcher.mode
    &&& post.switcher.items@ == pre.switcher.items@
    &&& post.pids@ == pre.pids@
    &&& post.config == pre.config
    &&& post.recording == pre.recording
    &&& post.active_mods == pre.active_mods
    &&& post.prev_shift == pre.prev_shift
}

/// The selection one step `delta` away from the current one, wrapping.
pub open spec fn stepped(s: CtlState, delta: int) -> int {
    wrapped_index(s.switcher.selected as int, delta, s.switcher.items@.len())
}

/// Load config into the shared state at startup.
pub fn init(st: &mut CtlState, cfg: Config)
    ensures
        (*final(st) == CtlState { config: cfg, ..*old(st) }),
{
    st.config = cfg;
}

pub fn current_config(st: &CtlState) -> (r: Config)
    ensures
        r == st.config,
{
    st.config.clone()
}

/// The combo bound to `action`.
pub open spec fn combo_of(cfg: Config, action: Action) -> Combo {
    match action {
        Action::SwitchApp => cfg.switch_app,
        Action::SwitchWindows => cfg.switch_windows,
    }
}

pub fn combo_for(cfg: &Config, action: Action) -> (r: &Combo)
    ensures
        *r == combo_of(*cfg, action),
{
    match action {
        Action::SwitchApp => &cfg.switch_app,
        Action::SwitchWindows => &cfg.switch_windows,
    }
}

/// A trigger keyDown arms `combo`: its key, and held modifiers that exactly arm
/// its modifiers (Shift ignored), or match them exactly when the combo itself
/// holds Shift. A combo without modifiers never triggers.
pub open spec fn arms(combo: Combo, keycode: i64, mods: u64) -> bool {
    &&& keycode == combo.key_code
    &&& combo.modifiers != 0
    &&& if combo.modifiers & MOD_SHIFT != 0 {
        mods == combo.modifiers
    } else {
        armed(mods, combo.modifiers)
    }
}

/// The action a trigger keyDown arms, the app switch taking precedence.
pub open spec fn trigger_of(cfg: Config, keycode: i64, mods: u64) -> Option<Action> {
    if arms(cfg.switch_app, keycode, mods) {
        Some(Action::SwitchApp)
    } else if arms(cfg.switch_windows, keycode, mods) {
        Some(Action::SwitchWindows)
    } else {
        None
    }
}

fn combo_arms(combo: &Combo, keycode: i64, mods: u64) -> (r: bool)
    ensures
        r == arms(*combo, keycode, mods),
{
    if keycode != combo.key_code || combo.modifiers == 0 {
        return false;
    }
    if combo.modifiers & MOD_SHIFT != 0 {
        mods == combo.modifiers
    } else {
        is_armed(mods, combo.modifiers)
    }
}

/// Pressing a configured combo exactly (its key with its own modifiers) opens
/// its action, whatever those modifiers are; the app switch wins when both
/// actions share the combo.
pub proof fn law_configured_combo_triggers(cfg: Config)
    ensures
        cfg.switch_app.modifiers != 0 ==> trigger_of(
            cfg,
            cfg.switch_app.key_code,
            cfg.switch_app.modifiers,
        ) == Some(Action::SwitchApp),
        cfg.switch_windows.modifiers != 0 ==> trigger_of(
            cfg,
            cfg.switch_windows.key_code,
            cfg.switch_windows.modifiers,
        ) is Some,
{
    law_armed_modulo_shift(cfg.switch_app.modifiers, cfg.switch_app.modifiers);
    law_armed_modulo_shift(cfg.switch_windows.modifiers, cfg.switch_windows.modifiers);
}

/// Match a trigger keyDown (Tab / §) against the config — only when the held
/// modifiers exactly arm the action (Shift ignored; Option/Command disqualify).
/// The key always means "move right". A custom combo that itself includes Shift
/// keeps the exact-match behavior.
pub fn match_trigger(cfg: &Config, keycode: i64, mods: u64) -> (r: Option<Action>)
    ensures
        r == trigger_of(*cfg, keycode, mods),
{
    if combo_arms(&cfg.switch_app, keycode, mods) {
        Some(Action::SwitchApp)
    } else if combo_arms(&cfg.switch_windows, keycode, mods) {
        Some(Action::SwitchWindows)
    } else {
        None
    }
}

/// The first selection of a gesture over `len` items: the previous item (index
/// 1) when moving right, the last one when moving left.
pub open spec fn initial_selection(len: int, from_left: bool) -> int {
    if from_left {
        len - 1
    } else if len > 1 {
        1
    } else {
        0
    }
}

/// Open the switcher over `items` (already enumerated for `mode`), holding
/// `required_mods`. Returns false, changing nothing, when there is nothing to show.
pub fn start(
    st: &mut CtlState,
    mode: Mode,
    required_mods: u64,
    from_left: bool,
    items: Vec<AppItem>,
) -> (shown: bool)
    requires
        old(st).wf(),
        items@.len() <= isize::MAX,
    ensures
        final(st).wf(),
        shown == (items@.len() > 0),
        !shown ==> *final(st) == *old(st),
        shown ==> {
            &&& final(st).switcher.active
            &&& final(st).switcher.mode == mode
            &&& final(st).switcher.selected == initial_selection(items@.len() as int, from_left)
            &&& !from_left && items@.len() >= 2 ==> final(st).switcher.selected == 1
            &&& !from_left && items@.len() == 1 ==> final(st).switcher.selected == 0
            &&& from_left ==> final(st).switcher.selected == items@.len() - 1
            &&& texts(final(st).switcher.items@) == items@.map_values(|a: AppItem| a.name@)
            &&& final(st).pids@ == items@.map_values(|a: AppItem| a.pid)
            &&& final(st).active_mods == required_mods
            &&& final(st).config == old(st).config
            &&& final(st).recording == old(st).recording
            &&& final(st).prev_shift == old(st).prev_shift
        },
{
    let n = items.len();
    if n == 0 {
        return false;
    }
    let selected = if from_left {
        n - 1
    } else if n > 1 {
        1
    } else {
        0
    };
    let mut names: Vec<String> = Vec::new();
    let mut pids: Vec<i32> = Vec::new();
    for i in 0..n
        invariant
            n == items@.len(),
            names@.len() == i,
            pids@.len() == i,
            forall|j: int| 0 <= j < i ==> #[trigger] names@[j]@ == items@[j].name@,
            forall|j: int| 0 <= j < i ==> #[trigger] pids@[j] == items@[j].pid,
    {
        names.push(items[i].name.clone());
        pids.push(items[i].pid);
    }
    st.switcher.begin(mode, names, selected);
    st.pids = pids;
    st.active_mods = required_mods;
    assert(texts(st.switcher.items@) =~= items@.map_values(|a: AppItem| a.name@));
    assert(st.pids@ =~= items@.map_values(|a: AppItem| a.pid));
    true
}

/// Called once the overlay has rendered: whether to center and show it (only
/// while the gesture is still active).
pub fn present_overlay(st: &CtlState) -> (r: bool)
    ensures
        r == st.switcher.active,
{
    st.switcher.active
}

/// Move the selection by `delta`, wrapping; returns the new selection.
pub fn advance(st: &mut CtlState, delta: isize) -> (selected: usize)
    requires
        old(st).wf(),
        old(st).switcher.active ==> (old(st).switcher.selected as isize) + delta <= isize::MAX,
    ensures
        final(st).wf(),
        selected == final(st).switcher.selected,
        moved_from(
            *old(st),
            *final(st),
            if old(st).switcher.active {
                stepped(*old(st), delta as int)
            } else {
                old(st).switcher.selected as int
            },
        ),
{
    st.switcher.advance(delta);
    st.switcher.selected
}

/// What a confirmed selection asks of the native side.
#[derive(Debug)]
pub struct CommitInfo {
    pub mode: Mode,
    pub index: usize,
    /// The selected app, `None` when the switcher was not active.
    pub item: Option<AppItem>,
}

/// The outcome of confirming the selection of `pre`.
pub open spec fn commit_of(pre: CtlState, info: CommitInfo) -> bool {
    &&& info.mode == pre.switcher.mode
    &&& info.index == pre.switcher.selected
    &&& info.item == (if pre.switcher.active {
        Some(
            AppItem {
                pid: pre.pids@[pre.switcher.selected as int],
                name: pre.switcher.items@[pre.switcher.selected as int],
            },
        )
    } else {
        None
    })
}

/// `post` follows `pre` after a commit: closed when `pre` was active, else
/// only the held modifiers dropped.
pub open spec fn committed_from(pre: CtlState, post: CtlState) -> bool {
    if pre.switcher.active {
        closed_from(pre, post)
    } else {
        post == (CtlState { active_mods: 0, ..pre })
    }
}

fn commit(st: &mut CtlState) -> (info: CommitInfo)
    requires
        old(st).wf(),
    ensures
        final(st).wf(),
        commit_of(*old(st), info),
        committed_from(*old(st), *final(st)),
{
    st.active_mods = 0;
    let mode = st.switcher.mode;
    let index = st.switcher.selected;
    let pid = if st.switcher.active {
        st.pids[index]
    } else {
        0
    };
    let was_active = st.switcher.active;
    let name = st.switcher.commit();
    let item = match name {
        Some(n) => Some(AppItem { pid, name: n }),
        None => None,
    };
    if was_active {
        st.pids.clear();
    }
    CommitInfo { mode, index, item }
}

/// Abort the gesture without selecting.
pub fn cancel(st: &mut CtlState)
    requires
        old(st).wf(),
    ensures
        final(st).wf(),
        committed_from(*old(st), *final(st)),
{
    st.active_mods = 0;
    let was_active = st.switcher.active;
    st.switcher.cancel();
    if was_active {
        st.pids.clear();
    }
}

/// What the native side does with a keyDown.
#[derive(Debug)]
pub enum KeyDownAction {
    /// Not ours: pass the key on.
    Pass,
    /// Swallow the key and do nothing else (recording, no full combo yet).
    Swallow,
    /// A combo was recorded for `action`: emit it and swallow the key.
    Recorded { action: Action, modifiers: u64, key_code: i64, label: String },
    /// The gesture was cancelled: hide the overlay and swallow the key.
    Cancelled,
    /// Open the switcher: enumerate the items of `mode` and call `start`; the key
    /// is swallowed when the switcher opened.
    Open { mode: Mode, required_mods: u64 },
    /// The selection moved right to `selected`: emit it and swallow the key.
    Moved { selected: usize },
}

/// Handle a keyDown of `keycode` with event `flags`.
pub fn handle_key_down(st: &mut CtlState, keycode: i64, flags: u64) -> (r: KeyDownAction)
    requires
        old(st).wf(),
    ensures
        final(st).wf(),
        ({
            let pre = *old(st);
            let post = *final(st);
            let mods = flags & MODS_ALL;
            if pre.recording is Some {
                if mods != 0 && !(54 <= keycode <= 63) {
                    &&& r matches KeyDownAction::Recorded { action, modifiers, key_code, label }
                    &&& action == pre.recording->0
                    &&& modifiers == mods
                    &&& key_code == keycode
                    &&& label@ == combo_label(mods, keycode)
                    &&& post == CtlState { recording: None, ..pre }
                } else {
                    r is Swallow && post == pre
                }
            } else if pre.switcher.active && keycode == KEY_ESCAPE {
                r is Cancelled && closed_from(pre, post)
            } else {
                match trigger_of(pre.config, keycode, mods) {
                    None => r is Pass && post == pre,
                    Some(action) => if !pre.switcher.active {
                        &&& r == (KeyDownAction::Open {
                            mode: action_mode(action),
                            required_mods: combo_of(pre.config, action).modifiers,
                        })
                        &&& post == pre
                    } else {
                        &&& r == (KeyDownAction::Moved { selected: post.switcher.selected })
                        &&& moved_from(pre, post, stepped(pre, 1))
                    },
                }
            }
        }),
{
    let mods = flags & MODS_ALL;
    if let Some(action) = st.recording {
        if mods != 0 && !is_modifier_keycode(keycode) {
            let label = format_combo_label(mods, keycode);
            st.recording = None;
            return KeyDownAction::Recorded { action, modifiers: mods, key_code: keycode, label };
        }
        return KeyDownAction::Swallow;
    }
    let active = st.switcher.active;
    if active && keycode == KEY_ESCAPE {
        cancel(st);
        return KeyDownAction::Cancelled;
    }
    match match_trigger(&st.config, keycode, mods) {
        None => KeyDownAction::Pass,
        Some(action) => {
            if !active {
                let required_mods = combo_for(&st.config, action).modifiers;
                KeyDownAction::Open { mode: action.mode(), required_mods }
            } else {
                let selected = advance(st, 1);
                KeyDownAction::Moved { selected }
            }
        },
    }
}

/// What the native side does with a flagsChanged.
#[derive(Debug)]
pub enum FlagsAction {
    Nothing,
    /// The hold modifiers were released: hide and activate the committed item.
    Commit(CommitInfo),
    /// Shift went down: the selection moved left to `selected`; emit it.
    Moved { selected: usize },
}

/// Handle a flagsChanged with event `flags`.
pub fn handle_flags_changed(st: &mut CtlState, flags: u64) -> (r: FlagsAction)
    requires
        old(st).wf(),
    ensures
        final(st).wf(),
        ({
            let pre = *old(st);
            let post = *final(st);
            let shift_now = flags & MOD_SHIFT != 0;
            let mods = flags & MODS_ALL;
            let tracked_pre = CtlState { prev_shift: shift_now, ..pre };
            if pre.recording is Some || !pre.switcher.active {
                r is Nothing && post == tracked_pre
            } else if mods & pre.active_mods != pre.active_mods {
                &&& r matches FlagsAction::Commit(info)
                &&& commit_of(pre, info)
                &&& closed_from(tracked_pre, post)
            } else if shift_now && !pre.prev_shift && pre.active_mods & MOD_SHIFT == 0 && armed(
                mods,
                pre.active_mods,
            ) {
                &&& r == (FlagsAction::Moved { selected: post.switcher.selected })
                &&& moved_from(tracked_pre, post, stepped(pre, -1))
            } else {
                r is Nothing && post == tracked_pre
            }
        }),
{
    let shift_now = flags & MOD_SHIFT != 0;
    let mods = flags & MODS_ALL;
    let prev = st.prev_shift;
    st.prev_shift = shift_now;
    if st.recording.is_some() || !st.switcher.active {
        return FlagsAction::Nothing;
    }
    if (mods & st.active_mods) != st.active_mods {
        let info = commit(st);
        return FlagsAction::Commit(info);
    }
    let shift_rising = shift_now && !prev;
    if shift_rising && st.active_mods & MOD_SHIFT == 0 && is_armed(mods, st.active_mods) {
        let selected = advance(st, -1);
        return FlagsAction::Moved { selected };
    }
    FlagsAction::Nothing
}

/// The selection a pointer at `index` asks for: clamped to the last item.
pub open spec fn clamped(index: int, len: int) -> int {
    if index < len - 1 {
        index
    } else {
        len - 1
    }
}

/// A pointer inside the list selects exactly the item under it; one past the
/// end selects the last item.
pub proof fn law_pointer_selection(index: int, len: int)
    requires
        0 <= index,
        len > 0,
    ensures
        index < len ==> clamped(index, len) == index,
        index >= len ==> clamped(index, len) == len - 1,
        0 <= clamped(index, len) < len,
{
}

/// Opening while moving right selects the previously used item (index 1)
/// whatever the list length, a single item selects itself, and opening while
/// moving left selects the last item.
pub proof fn law_opening_selection(len: int, from_left: bool)
    requires
        len > 0,
    ensures
        !from_left && len >= 2 ==> initial_selection(len, from_left) == 1,
        len == 1 ==> initial_selection(len, from_left) == 0,
        from_left ==> initial_selection(len, from_left) == len - 1,
        0 <= initial_selection(len, from_left) < len,
{
}

/// Hover over item `index`: select it (clamped). `None`, changing nothing, when
/// the switcher is not showing anything.
pub fn hover(st: &mut CtlState, index: usize) -> (r: Option<usize>)
    requires
        old(st).wf(),
    ensures
        final(st).wf(),
        !old(st).switcher.active ==> r is None && *final(st) == *old(st),
        old(st).switcher.active && index < old(st).switcher.items@.len() ==> r == Some(index),
        old(st).switcher.active && index >= old(st).switcher.items@.len() ==> r == Some(
            (old(st).switcher.items@.len() - 1) as usize,
        ),
        old(st).switcher.active ==> {
            &&& r == Some(final(st).switcher.selected)
            &&& moved_from(
                *old(st),
                *final(st),
                clamped(index as int, old(st).switcher.items@.len() as int),
            )
        },
{
    if !st.switcher.active || st.switcher.items.len() == 0 {
        return None;
    }
    let max = st.switcher.items.len() - 1;
    st.switcher.selected = if index < max {
        index
    } else {
        max
    };
    Some(st.switcher.selected)
}

/// Click on item `index`: select it (clamped) and confirm. `None`, changing
/// nothing, when the switcher is not showing anything.
pub fn commit_index(st: &mut CtlState, index: usize) -> (r: Option<CommitInfo>)
    requires
        old(st).wf(),
    ensures
        final(st).wf(),
        !old(st).switcher.active ==> r is None && *final(st) == *old(st),
        old(st).switcher.active ==> {
            let sel = clamped(index as int, old(st).switcher.items@.len() as int);
            &&& r matches Some(info)
            &&& info.mode == old(st).switcher.mode
            &&& info.index == sel
            &&& index < old(st).switcher.items@.len() ==> info.index == index
            &&& index >= old(st).switcher.items@.len() ==> info.index
                == old(st).switcher.items@.len() - 1
            &&& info.item == Some(
                AppItem { pid: old(st).pids@[sel], name: old(st).switcher.items@[sel] },
            )
            &&& closed_from(*old(st), *final(st))
        },
{
    if !st.switcher.active || st.switcher.items.len() == 0 {
        return None;
    }
    let max = st.switcher.items.len() - 1;
    st.switcher.selected = if index < max {
        index
    } else {
        max
    };
    st.active_mods = 0;
    Some(commit(st))
}

/// Start recording a new combo for `action`.
pub fn start_recording(st: &mut CtlState, action: Action)
    ensures
        (*final(st) == CtlState { recording: Some(action), ..*old(st) }),
{
    st.recording = Some(action);
}

/// Validate and apply a new config. Returns the applied config on success;
/// the caller persists it.
pub fn save_config(st: &mut CtlState, app_combo: Combo, win_combo: Combo) -> (r: Result<
    Config,
    String,
>)
    ensures
        r is Ok <==> pair_check(app_combo, win_combo) is None,
        r matches Err(msg) ==> pair_check(app_combo, win_combo) == Some(msg@) && *final(st)
            == *old(st),
        r matches Ok(cfg) ==> {
            &&& cfg == (Config { switch_app: app_combo, switch_windows: win_combo })
            &&& *final(st) == (CtlState { config: cfg, recording: None, ..*old(st) })
        },
{
    validate_pair(&app_combo, &win_combo)?;
    let cfg = Config { switch_app: app_combo, switch_windows: win_combo };
    st.config = cfg.clone();
    st.recording = None;
    Ok(cfg)
}

/// Restore the default shortcuts. Returns the applied config; the caller persists it.
pub fn reset_config(st: &mut CtlState) -> (r: Config)
    ensures
        r.is_default(),
        *final(st) == (CtlState { config: r, recording: None, ..*old(st) }),
{
    let cfg = Config::default();
    st.config = cfg.clone();
    st.recording = None;
    cfg
}

/// The id of the `i`-th switcher item owned by `pid`: "{pid}-{i}".
pub open spec fn item_id(pid: i32, i: int) -> Seq<char> {
    signed_decimal(pid as int) + "-"@ + decimal(i as nat)
}

/// The icon shown for `pid`: its cached data URL, or empty text.
pub open spec fn shown_icon(apps: AppState, pid: i32) -> Seq<char> {
    match cached_icon(apps, pid) {
        Some(url) => url@,
        None => Seq::empty(),
    }
}

fn item_id_text(pid: i32, i: usize) -> (r: String)
    ensures
        r@ == item_id(pid, i as int),
{
    let mut s = String::new();
    append_signed_decimal(&mut s, pid as i64);
    s.append("-");
    append_decimal(&mut s, i as u64);
    s
}

/// The `switcher:show` payload of the current gesture: one entry per item, with
/// its id, title, app name and cached icon, plus the mode and the selection.
pub fn build_show_payload(st: &CtlState, apps: &AppState) -> (r: ShowPayload)
    requires
        st.wf(),
    ensures
        r.mode@ == mode_text(st.switcher.mode),
        r.selected == st.switcher.selected,
        r.items@.len() == st.switcher.items@.len(),
        forall|i: int|
            0 <= i < r.items@.len() ==> {
                &&& (#[trigger] r.items@[i]).id@ == item_id(st.pids@[i], i)
                &&& r.items@[i].title == st.switcher.items@[i]
                &&& r.items@[i].app_name == st.switcher.items@[i]
                &&& r.items@[i].icon_data_url@ == shown_icon(*apps, st.pids@[i])
            },
{
    let n = st.switcher.items.len();
    let mut items: Vec<SwitchItem> = Vec::new();
    for i in 0..n
        invariant
            n == st.switcher.items@.len(),
            st.wf(),
            items@.len() == i,
            forall|j: int|
                0 <= j < i ==> {
                    &&& (#[trigger] items@[j]).id@ == item_id(st.pids@[j], j)
                    &&& items@[j].title == st.switcher.items@[j]
                    &&& items@[j].app_name == st.switcher.items@[j]
                    &&& items@[j].icon_data_url@ == shown_icon(*apps, st.pids@[j])
                },
    {
        let pid = st.pids[i];
        let icon = match icon_for(apps, pid) {
            Some(url) => url,
            None => String::new(),
        };
        items.push(
            SwitchItem {
                id: item_id_text(pid, i),
                title: st.switcher.items[i].clone(),
                app_name: st.switcher.items[i].clone(),
                icon_data_url: icon,
            },
        );
    }
    let mode = String::from_str(st.switcher.mode.label());
    ShowPayload { mode, items, selected: st.switcher.selected }
}

/// The switcher entries for the windows of the frontmost app `pid`, whose
/// bundle identifier is `bundle_id`: one per window title, in order. VS Code
/// titles are reordered from "file — project" to "project — file".
pub fn window_items(pid: i32, bundle_id: Option<&str>, titles: Vec<String>) -> (r: Vec<AppItem>)
    ensures
        r@.len() == titles@.len(),
        forall|i: int|
            0 <= i < r@.len() ==> {
                &&& (#[trigger] r@[i]).pid == pid
                &&& r@[i].name@ == (if bundle_id matches Some(b) && (b@ == "com.microsoft.VSCode"@
                    || b@ == "com.microsoft.VSCodeInsiders"@) {
                    reordered_title(titles@[i]@)
                } else {
                    titles@[i]@
                })
            },
{
    let is_vscode = match bundle_id {
        Some(b) => is_vscode_bundle(b),
        None => false,
    };
    let n = titles.len();
    let mut out: Vec<AppItem> = Vec::new();
    for i in 0..n
        invariant
            n == titles@.len(),
            out@.len() == i,
            is_vscode == (bundle_id matches Some(b) && (b@ == "com.microsoft.VSCode"@ || b@
                == "com.microsoft.VSCodeInsiders"@)),
            forall|j: int|
                0 <= j < i ==> {
                    &&& (#[trigger] out@[j]).pid == pid
                    &&& out@[j].name@ == (if is_vscode {
                        reordered_title(titles@[j]@)
                    } else {
                        titles@[j]@
                    })
                },
    {
        let name = if is_vscode {
            reorder_vscode_title(titles[i].as_str())
        } else {
            titles[i].clone()
        };
        out.push(AppItem { pid, name });
    }
    out
}

/// Moving right with the trigger key and then left with Shift returns the
/// selection to where it was.
pub proof fn law_right_then_left_returns(s: CtlState)
    requires
        s.wf(),
        s.switcher.active,
    ensures
        wrapped_index(stepped(s, 1), -1, s.switcher.items@.len()) == s.switcher.selected,
{
    law_step_back_returns(s.switcher.selected as int, 1, s.switcher.items@.len());
}

} // verus!

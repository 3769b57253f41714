//! ctl-tab: the decision logic of a macOS Alt-Tab-style switcher.
//!
//! The gesture state machine, the shortcut configuration and its validation,
//! label formatting, MRU ordering of running apps, the icon cache and the
//! VS Code window-title reordering live here, each with its contract. The
//! native side (event tap, Accessibility calls, the overlay panel, disk I/O)
//! drives these functions and performs the effects they decide.

pub mod apps;
pub mod config;
pub mod controller;
pub mod diagnostics;
pub mod events;
pub mod hotkey;
pub mod switcher;
pub mod text;
pub mod windows;

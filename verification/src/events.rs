//! Payloads of the events that drive the overlay. Their JSON shape (camelCase
//! `appName` / `iconDataUrl`) is given by the serializing copies beside the
//! event emitter.

use vstd::prelude::*;

verus! {

/// One entry in the switcher.
#[derive(Debug)]
pub struct SwitchItem {
    pub id: String,
    pub title: String,
    pub app_name: String,
    pub icon_data_url: String,
}

/// `switcher:show` payload.
#[derive(Debug)]
pub struct ShowPayload {
    pub mode: String,
    pub items: Vec<SwitchItem>,
    pub selected: usize,
}

/// `switcher:select` payload.
#[derive(Debug)]
pub struct SelectPayload {
    pub selected: usize,
}

} // verus!

//! Running-app bookkeeping: the most-recently-used order, the icon cache and
//! the ordered list the app switcher shows.

use std::collections::HashMap;

use base64::Engine;
use vstd::prelude::*;

use crate::switcher::{
    eligible, filter_eligible, law_mru_head_first, order_by_mru, ordered_by_mru, other_than,
    promote_mru, AppItem, RawApp,
};

verus! {

broadcast use vstd::std_specs::hash::group_hash_axioms;

/// The digit of the standard base64 alphabet for a 6-bit value: `A`–`Z`,
/// `a`–`z`, `0`–`9`, `+`, `/`.
pub open spec fn b64_digit(v: int) -> char {
    if v < 26 {
        (65 + v) as char
    } else if v < 52 {
        (97 + (v - 26)) as char
    } else if v < 62 {
        (48 + (v - 52)) as char
    } else if v == 62 {
        '+'
    } else {
        '/'
    }
}

/// Standard base64 (RFC 4648 alphabet, `=` padding): each group of three bytes
/// becomes four digits of six bits each, most significant first; a final group
/// of one or two bytes is zero-filled and padded with `=` to four characters.
pub open spec fn base64_standard(b: Seq<u8>) -> Seq<char>
    decreases b.len(),
{
    if b.len() == 0 {
        Seq::empty()
    } else if b.len() == 1 {
        seq![b64_digit(b[0] as int / 4), b64_digit((b[0] as int % 4) * 16), '=', '=']
    } else if b.len() == 2 {
        seq![
            b64_digit(b[0] as int / 4),
            b64_digit((b[0] as int % 4) * 16 + b[1] as int / 16),
            b64_digit((b[1] as int % 16) * 4),
            '=',
        ]
    } else {
        seq![
            b64_digit(b[0] as int / 4),
            b64_digit((b[0] as int % 4) * 16 + b[1] as int / 16),
            b64_digit((b[1] as int % 16) * 4 + b[2] as int / 64),
            b64_digit(b[2] as int % 64),
        ] + base64_standard(b.subrange(3, b.len() as int))
    }
}

/// Calls `base64::Engine::encode` on `base64::engine::general_purpose::STANDARD`
/// (standard alphabet, padding on). Claimed: the result is `base64_standard` of
/// the input bytes. The call panics only when the encoded length overflows
/// `usize`, which an input of at most `isize::MAX` bytes cannot reach.
#[verifier::external_body]
fn encode_base64(bytes: &[u8]) -> (r: String)
    requires
        bytes@.len() <= isize::MAX,
    ensures
        r@ == base64_standard(bytes@),
{
    base64::engine::general_purpose::STANDARD.encode(bytes)
}

/// The data URL of a PNG image.
pub open spec fn png_url_text(png: Seq<u8>) -> Seq<char> {
    "data:image/png;base64,"@ + base64_standard(png)
}

/// Wrap PNG bytes in a `data:image/png;base64,` URL.
pub fn png_data_url(png: &[u8]) -> (r: String)
    requires
        png@.len() <= isize::MAX,
    ensures
        r@ == png_url_text(png@),
{
    let mut url = String::from_str("data:image/png;base64,");
    let b64 = encode_base64(png);
    url.append(b64.as_str());
    url
}

/// Process-wide app bookkeeping shared by the gesture and the activation observer.
pub struct AppState {
    /// Most-recently-used pid order (front = most recent).
    pub mru: Vec<i32>,
    /// pid → PNG data URL, generated lazily and cached.
    pub icon_cache: HashMap<i32, String>,
}

impl AppState {
    pub fn new() -> (r: Self)
        ensures
            r.mru@ == Seq::<i32>::empty(),
            r.icon_cache@ == Map::<i32, String>::empty(),
    {
        AppState { mru: Vec::new(), icon_cache: HashMap::new() }
    }
}

/// The cached icon of `pid`, if any.
pub open spec fn cached_icon(st: AppState, pid: i32) -> Option<String> {
    if st.icon_cache@.contains_key(pid) {
        Some(st.icon_cache@[pid])
    } else {
        None
    }
}

/// Cached icon data URL for a pid (if it was rendered before).
pub fn icon_for(st: &AppState, pid: i32) -> (r: Option<String>)
    ensures
        r == cached_icon(*st, pid),
{
    match st.icon_cache.get(&pid) {
        Some(url) => Some(url.clone()),
        None => None,
    }
}

/// Like `icon_for`, but caches the icon rendered from `png` when none is cached
/// yet. `png` is the app's icon as PNG bytes, `None` when it could not be
/// rendered; it is only read when the cache has no entry for `pid`.
pub fn ensure_icon(st: &mut AppState, pid: i32, png: Option<&[u8]>) -> (r: Option<String>)
    requires
        png matches Some(p) ==> p@.len() <= isize::MAX,
    ensures
        final(st).mru@ == old(st).mru@,
        old(st).icon_cache@.contains_key(pid) ==> {
            &&& r == Some(old(st).icon_cache@[pid])
            &&& final(st).icon_cache@ == old(st).icon_cache@
        },
        !old(st).icon_cache@.contains_key(pid) ==> match png {
            None => r is None && final(st).icon_cache@ == old(st).icon_cache@,
            Some(p) => r matches Some(url) && url@ == png_url_text(p@)
                && final(st).icon_cache@ == old(st).icon_cache@.insert(pid, url),
        },
{
    if let Some(url) = icon_for(st, pid) {
        return Some(url);
    }
    match png {
        None => None,
        Some(p) => {
            let url = png_data_url(p);
            st.icon_cache.insert(pid, url.clone());
            Some(url)
        },
    }
}

/// Record that `front` became the active app: it moves to the front of the MRU,
/// unless it is the switcher itself.
pub fn note_activation(st: &mut AppState, front: i32, own_pid: i32)
    ensures
        final(st).icon_cache@ == old(st).icon_cache@,
        final(st).mru@ == (if front != own_pid {
            seq![front] + old(st).mru@.filter(other_than(front))
        } else {
            old(st).mru@
        }),
{
    if front != own_pid {
        promote_mru(&mut st.mru, front);
    }
}

/// The switcher entry of an enumerated app.
pub open spec fn as_item(r: RawApp) -> AppItem {
    AppItem { pid: r.pid, name: r.name }
}

/// The apps the switcher lists, before ordering: eligible ones, enumeration order.
pub open spec fn eligible_items(raw: Seq<RawApp>, own_pid: i32) -> Seq<AppItem> {
    raw.filter(eligible(own_pid)).map_values(|r: RawApp| as_item(r))
}

/// The MRU after a list is built: the frontmost app, when it is listed, comes first.
pub open spec fn mru_after_build(
    mru: Seq<i32>,
    items: Seq<AppItem>,
    frontmost: Option<i32>,
) -> Seq<i32> {
    match frontmost {
        Some(front) => if exists|i: int| 0 <= i < items.len() && #[trigger] items[i].pid == front {
            seq![front] + mru.filter(other_than(front))
        } else {
            mru
        },
        None => mru,
    }
}

/// Build the MRU-ordered, filtered list of eligible apps from the enumerated
/// `raw` apps. Seeds the MRU so the frontmost app is first: index 0 is the
/// current app and index 1 the previous one.
pub fn build_ordered_apps(
    st: &mut AppState,
    raw: Vec<RawApp>,
    own_pid: i32,
    frontmost: Option<i32>,
) -> (r: Vec<AppItem>)
    ensures
        final(st).icon_cache@ == old(st).icon_cache@,
        final(st).mru@ == mru_after_build(old(st).mru@, eligible_items(raw@, own_pid), frontmost),
        r@ == ordered_by_mru(eligible_items(raw@, own_pid), final(st).mru@),
{
    let eligible_apps = filter_eligible(raw, own_pid);
    let ghost kept = eligible_apps@;
    let mut items: Vec<AppItem> = Vec::new();
    let n = eligible_apps.len();
    for i in 0..n
        invariant
            n == eligible_apps@.len(),
            eligible_apps@ == kept,
            items@ == kept.take(i as int).map_values(|r: RawApp| as_item(r)),
    {
        items.push(AppItem { pid: eligible_apps[i].pid, name: eligible_apps[i].name.clone() });
        assert(kept.take(i + 1).map_values(|r: RawApp| as_item(r)) =~= kept.take(
            i as int,
        ).map_values(|r: RawApp| as_item(r)).push(as_item(kept[i as int])));
    }
    assert(kept.take(n as int) =~= kept);
    assert(items@ == eligible_items(raw@, own_pid));
    if let Some(front) = frontmost {
        let mut listed = false;
        let m = items.len();
        for i in 0..m
            invariant
                m == items@.len(),
                listed <==> exists|j: int| 0 <= j < i && #[trigger] items@[j].pid == front,
        {
            if items[i].pid == front {
                listed = true;
            }
        }
        if listed {
            promote_mru(&mut st.mru, front);
        }
    }
    order_by_mru(items, &st.mru)
}

/// When the frontmost app is listed, the built list starts with it: index 0 is
/// the current app.
pub proof fn law_frontmost_listed_first(mru: Seq<i32>, items: Seq<AppItem>, front: i32)
    requires
        exists|i: int| 0 <= i < items.len() && #[trigger] items[i].pid == front,
    ensures
        ordered_by_mru(items, mru_after_build(mru, items, Some(front))).len() > 0,
        ordered_by_mru(items, mru_after_build(mru, items, Some(front)))[0].pid == front,
{
    let m = mru_after_build(mru, items, Some(front));
    assert(m == seq![front] + mru.filter(other_than(front)));
    assert(m[0] == front);
    law_mru_head_first(items, m);
}

/// An icon once cached is what `icon_for` reads back for that pid.
pub proof fn law_cached_icon_read_back(before: Map<i32, String>, after: AppState, pid: i32, url: String)
    requires
        after.icon_cache@ == before.insert(pid, url),
    ensures
        cached_icon(after, pid) == Some(url),
{
}

} // verus!

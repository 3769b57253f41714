//! Switcher state: the wrapping selection index and the in-memory gesture.

use vstd::arithmetic::div_mod::{
    lemma_add_mod_noop_right, lemma_mod_multiples_vanish, lemma_small_mod,
};
use vstd::prelude::*;

verus! {

/// The selection `delta` steps away from `index` in a list of `len` items,
/// wrapping around in both directions; 0 for an empty list.
pub open spec fn wrapped_index(index: int, delta: int, len: nat) -> int {
    if len == 0 {
        0
    } else {
        (index + delta) % (len as int)
    }
}

/// What `wrapping_advance` computes: `index` taken as a signed value, plus
/// `delta`, reduced (Euclidean remainder) by `len` taken as a signed value; 0
/// for an empty list. For any real list length (at most `isize::MAX`) this is
/// `wrapped_index`.
pub open spec fn wrap_step(index: usize, delta: isize, len: usize) -> int {
    if len == 0 {
        0
    } else {
        ((index as isize) as int + delta as int) % ((len as isize) as int)
    }
}

/// Advance `index` by `delta` over a list of length `len`, wrapping around in
/// both directions. `delta` is signed: +1 moves right (forward), -1 left (back).
/// Returns 0 for an empty list.
///
/// The signed sum `index + delta` must fit in an `isize`, and the remainder
/// must not overflow (`isize::MIN` by a length read as -1).
pub fn wrapping_advance(index: usize, delta: isize, len: usize) -> (r: usize)
    requires
        len > 0 ==> isize::MIN <= (index as isize) + delta <= isize::MAX,
        len > 0 ==> !((len as isize) == -1 && (index as isize) + delta == isize::MIN),
    ensures
        r == wrap_step(index, delta, len),
        len <= isize::MAX ==> r == wrapped_index(
            (index as isize) as int,
            delta as int,
            len as nat,
        ),
        0 < len <= isize::MAX ==> r < len,
{
    if len == 0 {
        return 0;
    }
    let n = len as isize;
    assert(n != 0) by (bit_vector)
        requires
            n == len as isize,
            len > 0,
    ;
    let a = index as isize + delta;
    match a.checked_rem_euclid(n) {
        Some(m) => m as usize,
        None => 0,
    }
}

/// Two steps compose: moving `a` and then `b` lands where moving `a + b` does.
pub proof fn law_steps_compose(index: int, a: int, b: int, len: nat)
    ensures
        wrapped_index(wrapped_index(index, a, len), b, len) == wrapped_index(index, a + b, len),
{
    if len > 0 {
        lemma_add_mod_noop_right(b, index + a, len as int);
        assert((b + (index + a)) == index + (a + b));
        assert(wrapped_index(index, a, len) + b == b + ((index + a) % (len as int)));
    }
}

/// Moving `delta` steps and then `delta` steps back returns to the start.
pub proof fn law_step_back_returns(index: int, delta: int, len: nat)
    requires
        0 <= index < len,
    ensures
        wrapped_index(wrapped_index(index, delta, len), -delta, len) == index,
{
    law_steps_compose(index, delta, -delta, len);
    lemma_small_mod(index as nat, len);
}

/// Deltas wrap modularly: adding whole laps of the list changes nothing.
pub proof fn law_whole_laps_vanish(index: int, delta: int, laps: int, len: nat)
    requires
        len > 0,
    ensures
        wrapped_index(index, delta + laps * len, len) == wrapped_index(index, delta, len),
{
    lemma_mod_multiples_vanish(laps, index + delta, len as int);
    assert(index + (delta + laps * len) == (len as int) * laps + (index + delta)) by (
    nonlinear_arith);
}

/// Which list the switcher is cycling through.
#[derive(Clone, Copy, Debug, PartialEq, Eq, Structural)]
pub enum Mode {
    Apps,
    Windows,
}

/// The name of a mode as the overlay knows it.
pub open spec fn mode_text(mode: Mode) -> Seq<char> {
    match mode {
        Mode::Apps => "apps"@,
        Mode::Windows => "windows"@,
    }
}

impl Mode {
    pub fn label(self) -> (r: &'static str)
        ensures
            r@ == mode_text(self),
    {
        match self {
            Mode::Apps => "apps",
            Mode::Windows => "windows",
        }
    }
}

/// The placeholder list a bare `start` cycles through: `item-0` .. `item-4`.
pub open spec fn placeholder_items() -> Seq<Seq<char>> {
    seq!["item-0"@, "item-1"@, "item-2"@, "item-3"@, "item-4"@]
}

/// The text of each entry of a list of strings.
pub open spec fn texts(items: Seq<String>) -> Seq<Seq<char>> {
    items.map_values(|s: String| s@)
}

/// In-memory switcher state driven by the event tap.
pub struct Switcher {
    pub active: bool,
    pub mode: Mode,
    pub selected: usize,
    pub items: Vec<String>,
}

impl Switcher {
    /// The idle state: nothing shown, nothing selected.
    pub open spec fn is_idle(self) -> bool {
        &&& !self.active
        &&& self.selected == 0
        &&& self.items@.len() == 0
    }

    /// The selection stays inside a non-empty list, and an empty list selects 0.
    pub open spec fn selection_in_range(self) -> bool {
        &&& self.items@.len() <= isize::MAX
        &&& self.items@.len() > 0 ==> self.selected < self.items@.len()
        &&& self.items@.len() == 0 ==> self.selected == 0
    }

    /// The state the switcher's operations keep: an active switcher selects an
    /// item of its list, an idle one selects 0 over an empty list, and the list
    /// never holds more than `isize::MAX` entries.
    pub open spec fn consistent(self) -> bool {
        &&& self.items@.len() <= isize::MAX
        &&& self.active ==> self.selected < self.items@.len()
        &&& !self.active ==> self.selected == 0 && self.items@.len() == 0
    }

    pub fn new() -> (r: Self)
        ensures
            r.is_idle(),
            r.consistent(),
            r.mode == Mode::Apps,
    {
        Self { active: false, mode: Mode::Apps, selected: 0, items: Vec::new() }
    }

    /// Begin a gesture: populate the placeholder list and select the current item (0).
    pub fn start(&mut self, mode: Mode)
        ensures
            final(self).active,
            final(self).mode == mode,
            final(self).selected == 0,
            texts(final(self).items@) == placeholder_items(),
            final(self).consistent(),
    {
        self.active = true;
        self.mode = mode;
        self.selected = 0;
        let mut items: Vec<String> = Vec::new();
        items.push(String::from_str("item-0"));
        items.push(String::from_str("item-1"));
        items.push(String::from_str("item-2"));
        items.push(String::from_str("item-3"));
        items.push(String::from_str("item-4"));
        self.items = items;
        assert(texts(self.items@) =~= placeholder_items());
    }

    /// Begin a gesture over a real list, with `selected` as the initial selection.
    pub fn begin(&mut self, mode: Mode, items: Vec<String>, selected: usize)
        requires
            selected < items@.len(),
        ensures
            final(self).active,
            final(self).mode == mode,
            final(self).selected == selected,
            final(self).items@ == items@,
            items@.len() <= isize::MAX ==> final(self).consistent(),
    {
        self.active = true;
        self.mode = mode;
        self.selected = selected;
        self.items = items;
    }

    /// Move the selection by `delta` (+1 right / -1 left), wrapping. No-op if idle.
    pub fn advance(&mut self, delta: isize)
        requires
            old(self).active && old(self).items@.len() > 0 ==> isize::MIN <= (
            old(self).selected as isize) + delta <= isize::MAX,
            old(self).active && old(self).items@.len() > 0 ==> !((old(self).items@.len() as usize
                as isize) == -1 && (old(self).selected as isize) + delta == isize::MIN),
        ensures
            final(self).active == old(self).active,
            final(self).mode == old(self).mode,
            final(self).items@ == old(self).items@,
            final(self).selected == (if old(self).active {
                wrap_step(old(self).selected, delta, old(self).items@.len() as usize)
            } else {
                old(self).selected as int
            }),
            old(self).consistent() ==> final(self).consistent(),
    {
        if !self.active {
            return;
        }
        self.selected = wrapping_advance(self.selected, delta, self.items.len());
    }

    /// Confirm the current selection and reset. No-op (returning `None`) if idle.
    /// Returns the confirmed item, or an empty string if the selection points
    /// past the list.
    pub fn commit(&mut self) -> (r: Option<String>)
        ensures
            old(self).consistent() ==> final(self).consistent(),
            !old(self).active ==> r is None && *final(self) == *old(self),
            old(self).active ==> {
                &&& final(self).is_idle()
                &&& final(self).mode == old(self).mode
                &&& old(self).selected < old(self).items@.len() ==> r == Some(
                    old(self).items@[old(self).selected as int],
                )
                &&& r matches Some(item) && item@ == (if old(self).selected < old(
                    self,
                ).items@.len() {
                    old(self).items@[old(self).selected as int]@
                } else {
                    Seq::<char>::empty()
                })
            },
    {
        if !self.active {
            return None;
        }
        let item = if self.selected < self.items.len() {
            self.items[self.selected].clone()
        } else {
            String::new()
        };
        self.reset();
        Some(item)
    }

    /// Abort without selecting and reset. No-op if idle.
    pub fn cancel(&mut self)
        ensures
            old(self).consistent() ==> final(self).consistent(),
            !old(self).active ==> *final(self) == *old(self),
            old(self).active ==> final(self).is_idle() && final(self).mode == old(self).mode,
    {
        if !self.active {
            return;
        }
        self.reset();
    }

    fn reset(&mut self)
        ensures
            final(self).is_idle(),
            final(self).mode == old(self).mode,
    {
        self.active = false;
        self.selected = 0;
        self.items.clear();
    }
}

/// A consistent switcher keeps its selection inside its list.
pub proof fn law_consistent_selection_in_range(s: Switcher)
    requires
        s.consistent(),
    ensures
        s.selection_in_range(),
{
}

impl Default for Switcher {
    fn default() -> (r: Self)
        ensures
            r.is_idle(),
            r.consistent(),
            r.mode == Mode::Apps,
    {
        Self::new()
    }
}

/// A running app as enumerated, before filtering.
#[derive(Debug, PartialEq, Eq)]
pub struct RawApp {
    pub pid: i32,
    pub name: String,
    /// The app has the regular activation policy (it shows in the Dock).
    pub regular: bool,
}

impl Clone for RawApp {
    fn clone(&self) -> (r: Self)
        ensures
            r == *self,
    {
        RawApp { pid: self.pid, name: self.name.clone(), regular: self.regular }
    }
}

/// One entry of the switcher list: the owning process and the displayed name.
#[derive(Debug, PartialEq, Eq)]
pub struct AppItem {
    pub pid: i32,
    pub name: String,
}

impl Clone for AppItem {
    fn clone(&self) -> (r: Self)
        ensures
            r == *self,
    {
        AppItem { pid: self.pid, name: self.name.clone() }
    }
}

/// A listed app is a regular app other than the switcher itself.
pub open spec fn eligible(own_pid: i32) -> spec_fn(RawApp) -> bool {
    |r: RawApp| r.regular && r.pid != own_pid
}

/// Every pid but `pid`.
pub open spec fn other_than(pid: i32) -> spec_fn(i32) -> bool {
    |x: i32| x != pid
}

/// Filtering the first `i + 1` elements extends the filter of the first `i`.
pub proof fn lemma_filter_take_step<A>(s: Seq<A>, pred: spec_fn(A) -> bool, i: int)
    requires
        0 <= i < s.len(),
    ensures
        s.take(i + 1).filter(pred) == (if pred(s[i]) {
            s.take(i).filter(pred).push(s[i])
        } else {
            s.take(i).filter(pred)
        }),
{
    reveal(Seq::filter);
    assert(s.take(i + 1).drop_last() =~= s.take(i));
}

/// Keep the apps the switcher lists: regular apps other than itself, in
/// enumeration order.
pub fn filter_eligible(raw: Vec<RawApp>, own_pid: i32) -> (r: Vec<RawApp>)
    ensures
        r@ == raw@.filter(eligible(own_pid)),
{
    let mut out: Vec<RawApp> = Vec::new();
    let n = raw.len();
    for i in 0..n
        invariant
            n == raw@.len(),
            out@ == raw@.take(i as int).filter(eligible(own_pid)),
    {
        proof {
            lemma_filter_take_step(raw@, eligible(own_pid), i as int);
        }
        if raw[i].regular && raw[i].pid != own_pid {
            out.push(raw[i].clone());
        }
    }
    assert(raw@.take(n as int) =~= raw@);
    out
}

/// Move `pid` to the front of the most-recently-used list, dropping its older
/// occurrences.
pub fn promote_mru(mru: &mut Vec<i32>, pid: i32)
    ensures
        final(mru)@ == seq![pid] + old(mru)@.filter(other_than(pid)),
{
    let mut out: Vec<i32> = Vec::new();
    out.push(pid);
    let n = mru.len();
    for i in 0..n
        invariant
            n == mru@.len(),
            mru@ == old(mru)@,
            out@ == seq![pid] + mru@.take(i as int).filter(other_than(pid)),
    {
        proof {
            lemma_filter_take_step(mru@, other_than(pid), i as int);
        }
        if mru[i] != pid {
            out.push(mru[i]);
        }
    }
    assert(mru@.take(n as int) =~= mru@);
    *mru = out;
}

/// The position of `pid` in `mru` at or after `k`: its first occurrence, or
/// the length of `mru` when absent.
pub open spec fn rank_from(mru: Seq<i32>, pid: i32, k: int) -> int
    decreases mru.len() - k,
{
    if k < 0 || k >= mru.len() {
        mru.len() as int
    } else if mru[k] == pid {
        k
    } else {
        rank_from(mru, pid, k + 1)
    }
}

/// The recency rank of `pid`: its first position in `mru`, or `mru.len()`
/// for a pid that has never been active.
pub open spec fn mru_rank(mru: Seq<i32>, pid: i32) -> int {
    rank_from(mru, pid, 0)
}

/// The items whose pid has recency rank `r`.
pub open spec fn ranked(mru: Seq<i32>, r: int) -> spec_fn(AppItem) -> bool {
    |a: AppItem| mru_rank(mru, a.pid) == r
}

/// The items of ranks `0 .. r`, rank by rank, each rank in enumeration order.
pub open spec fn ranked_upto(items: Seq<AppItem>, mru: Seq<i32>, r: int) -> Seq<AppItem>
    decreases r,
{
    if r <= 0 {
        Seq::empty()
    } else {
        ranked_upto(items, mru, r - 1) + items.filter(ranked(mru, r - 1))
    }
}

/// Items ordered by recency: grouped by the position of their pid in `mru`,
/// never-active pids last, enumeration order kept inside each group.
pub open spec fn ordered_by_mru(items: Seq<AppItem>, mru: Seq<i32>) -> Seq<AppItem> {
    ranked_upto(items, mru, mru.len() as int + 1)
}

fn rank_of(mru: &Vec<i32>, pid: i32) -> (r: usize)
    ensures
        r == mru_rank(mru@, pid),
{
    let n = mru.len();
    let mut k: usize = 0;
    while k < n
        invariant
            n == mru@.len(),
            k <= n,
            rank_from(mru@, pid, 0) == rank_from(mru@, pid, k as int),
        decreases n - k,
    {
        if mru[k] == pid {
            return k;
        }
        k = k + 1;
    }
    k
}

fn append_ranked(
    out: &mut Vec<AppItem>,
    items: &Vec<AppItem>,
    ranks: &Vec<usize>,
    mru: Ghost<Seq<i32>>,
    r: usize,
)
    requires
        ranks@.len() == items@.len(),
        forall|i: int|
            0 <= i < items@.len() ==> ranks@[i] == mru_rank(mru@, #[trigger] items@[i].pid),
    ensures
        final(out)@ == old(out)@ + items@.filter(ranked(mru@, r as int)),
{
    let n = items.len();
    let ghost start = out@;
    for i in 0..n
        invariant
            n == items@.len(),
            ranks@.len() == items@.len(),
            forall|j: int|
                0 <= j < items@.len() ==> ranks@[j] == mru_rank(mru@, #[trigger] items@[j].pid),
            out@ == start + items@.take(i as int).filter(ranked(mru@, r as int)),
    {
        proof {
            lemma_filter_take_step(items@, ranked(mru@, r as int), i as int);
        }
        if ranks[i] == r {
            out.push(items[i].clone());
        }
    }
    assert(items@.take(n as int) =~= items@);
}

/// Order items by recency of use (see `ordered_by_mru`).
pub fn order_by_mru(items: Vec<AppItem>, mru: &Vec<i32>) -> (r: Vec<AppItem>)
    ensures
        r@ == ordered_by_mru(items@, mru@),
{
    let n = items.len();
    let mut ranks: Vec<usize> = Vec::new();
    for i in 0..n
        invariant
            n == items@.len(),
            ranks@.len() == i,
            forall|j: int| 0 <= j < i ==> ranks@[j] == mru_rank(mru@, #[trigger] items@[j].pid),
    {
        ranks.push(rank_of(mru, items[i].pid));
    }
    let m = mru.len();
    let mut out: Vec<AppItem> = Vec::new();
    for r in 0..m
        invariant
            m == mru@.len(),
            ranks@.len() == items@.len(),
            forall|j: int|
                0 <= j < items@.len() ==> ranks@[j] == mru_rank(mru@, #[trigger] items@[j].pid),
            out@ == ranked_upto(items@, mru@, r as int),
    {
        append_ranked(&mut out, &items, &ranks, Ghost(mru@), r);
    }
    append_ranked(&mut out, &items, &ranks, Ghost(mru@), m);
    out
}

/// No pid occurs twice.
pub open spec fn no_duplicates(s: Seq<i32>) -> bool {
    forall|i: int, j: int| 0 <= i < j < s.len() ==> s[i] != s[j]
}

proof fn lemma_filter_no_duplicates(s: Seq<i32>, pred: spec_fn(i32) -> bool)
    requires
        no_duplicates(s),
    ensures
        no_duplicates(s.filter(pred)),
    decreases s.len(),
{
    reveal(Seq::filter);
    if s.len() > 0 {
        let rest = s.drop_last();
        assert(no_duplicates(rest));
        lemma_filter_no_duplicates(rest, pred);
        let sub = rest.filter(pred);
        if pred(s.last()) {
            if sub.contains(s.last()) {
                rest.lemma_filter_contains_rev(pred, s.last());
                let k = choose|k: int| 0 <= k < rest.len() && rest[k] == s.last();
                assert(s[k] == s[s.len() - 1]);
            }
            assert forall|i: int, j: int| 0 <= i < j < sub.push(s.last()).len() implies sub.push(
                s.last(),
            )[i] != sub.push(s.last())[j] by {
                if j == sub.len() {
                    assert(sub.contains(sub[i]));
                }
            }
        }
    }
}

/// Promoting a pid puts it first, keeps every other pid, adds no other, and
/// keeps the MRU free of duplicates.
pub proof fn law_promote_front(mru: Seq<i32>, pid: i32)
    requires
        no_duplicates(mru),
    ensures
        ({
            let p = seq![pid] + mru.filter(other_than(pid));
            &&& p[0] == pid
            &&& no_duplicates(p)
            &&& forall|x: i32| p.contains(x) <==> (x == pid || mru.contains(x))
        }),
{
    let f = mru.filter(other_than(pid));
    let p = seq![pid] + f;
    lemma_filter_no_duplicates(mru, other_than(pid));
    assert forall|i: int, j: int| 0 <= i < j < p.len() implies p[i] != p[j] by {
        if i == 0 {
            mru.lemma_filter_pred(other_than(pid), j - 1);
        } else {
            assert(p[i] == f[i - 1] && p[j] == f[j - 1]);
        }
    }
    assert forall|x: i32| p.contains(x) <==> (x == pid || mru.contains(x)) by {
        if p.contains(x) && x != pid {
            let k = choose|k: int| 0 <= k < p.len() && p[k] == x;
            assert(f.contains(x)) by {
                assert(f[k - 1] == x);
            }
            mru.lemma_filter_contains_rev(other_than(pid), x);
        }
        if x != pid && mru.contains(x) {
            let k = choose|k: int| 0 <= k < mru.len() && mru[k] == x;
            mru.lemma_filter_contains(other_than(pid), k);
            let m = choose|m: int| 0 <= m < f.len() && f[m] == x;
            assert(p[m + 1] == x);
        }
        if x == pid {
            assert(p[0] == x);
        }
    }
}

/// A rank lies between its starting point and the MRU length, and a rank
/// inside the MRU points at the pid.
pub proof fn lemma_rank_bounds(mru: Seq<i32>, pid: i32, k: int)
    requires
        0 <= k <= mru.len(),
    ensures
        k <= rank_from(mru, pid, k) <= mru.len(),
        rank_from(mru, pid, k) < mru.len() ==> mru[rank_from(mru, pid, k)] == pid,
    decreases mru.len() - k,
{
    if k < mru.len() && mru[k] != pid {
        lemma_rank_bounds(mru, pid, k + 1);
    }
}

proof fn lemma_ranked_prefix(items: Seq<AppItem>, mru: Seq<i32>, r: int)
    requires
        r >= 1,
    ensures
        ranked_upto(items, mru, r).len() >= ranked_upto(items, mru, 1).len(),
        forall|i: int|
            0 <= i < ranked_upto(items, mru, 1).len() ==> ranked_upto(items, mru, r)[i]
                == ranked_upto(items, mru, 1)[i],
    decreases r,
{
    if r > 1 {
        lemma_ranked_prefix(items, mru, r - 1);
    }
}

/// The app whose pid heads the MRU and which is listed comes first in the
/// recency order.
pub proof fn law_mru_head_first(items: Seq<AppItem>, mru: Seq<i32>)
    requires
        mru.len() > 0,
        exists|i: int| 0 <= i < items.len() && #[trigger] items[i].pid == mru[0],
    ensures
        ordered_by_mru(items, mru).len() > 0,
        ordered_by_mru(items, mru)[0].pid == mru[0],
{
    let i = choose|i: int| 0 <= i < items.len() && #[trigger] items[i].pid == mru[0];
    let head = ranked(mru, 0);
    assert(mru_rank(mru, items[i].pid) == 0);
    items.lemma_filter_contains(head, i);
    let first = items.filter(head);
    assert(ranked_upto(items, mru, 0) == Seq::<AppItem>::empty());
    assert(ranked_upto(items, mru, 1) =~= first);
    lemma_ranked_prefix(items, mru, mru.len() as int + 1);
    items.lemma_filter_pred(head, 0);
    assert(mru_rank(mru, first[0].pid) == 0);
    lemma_rank_bounds(mru, first[0].pid, 0);
}

proof fn lemma_ranked_upto_push(items: Seq<AppItem>, x: AppItem, mru: Seq<i32>, r: int)
    requires
        0 <= mru_rank(mru, x.pid),
    ensures
        ranked_upto(items.push(x), mru, r).to_multiset() =~= (if mru_rank(mru, x.pid) < r {
            ranked_upto(items, mru, r).to_multiset().insert(x)
        } else {
            ranked_upto(items, mru, r).to_multiset()
        }),
    decreases r,
{
    broadcast use vstd::multiset::group_multiset_axioms;
    broadcast use vstd::seq_lib::group_to_multiset_ensures;

    if r > 0 {
        lemma_ranked_upto_push(items, x, mru, r - 1);
        let f = ranked(mru, r - 1);
        items.lemma_filter_push(x, f);
        vstd::seq_lib::lemma_multiset_commutative(
            ranked_upto(items.push(x), mru, r - 1),
            items.push(x).filter(f),
        );
        vstd::seq_lib::lemma_multiset_commutative(ranked_upto(items, mru, r - 1), items.filter(f));
    }
}

/// Ordering by recency only reorders: the result holds exactly the items, each
/// as often as before.
pub proof fn law_mru_order_is_permutation(items: Seq<AppItem>, mru: Seq<i32>)
    ensures
        ordered_by_mru(items, mru).to_multiset() =~= items.to_multiset(),
    decreases items.len(),
{
    broadcast use vstd::multiset::group_multiset_axioms;
    broadcast use vstd::seq_lib::group_to_multiset_ensures;

    if items.len() == 0 {
        assert(ranked_upto(items, mru, mru.len() as int + 1) =~= Seq::<AppItem>::empty()) by {
            lemma_ranked_upto_empty(items, mru, mru.len() as int + 1);
        }
    } else {
        let rest = items.drop_last();
        let x = items.last();
        assert(rest.push(x) =~= items);
        lemma_rank_bounds(mru, x.pid, 0);
        law_mru_order_is_permutation(rest, mru);
        lemma_ranked_upto_push(rest, x, mru, mru.len() as int + 1);
    }
}

proof fn lemma_ranked_upto_empty(items: Seq<AppItem>, mru: Seq<i32>, r: int)
    requires
        items.len() == 0,
    ensures
        ranked_upto(items, mru, r) =~= Seq::<AppItem>::empty(),
    decreases r,
{
    reveal(Seq::filter);
    if r > 0 {
        lemma_ranked_upto_empty(items, mru, r - 1);
    }
}

/// A pid's rank is at most any position where it occurs.
proof fn lemma_rank_at_most_occurrence(mru: Seq<i32>, pid: i32, j: int, k: int)
    requires
        0 <= j <= k < mru.len(),
        mru[k] == pid,
    ensures
        rank_from(mru, pid, j) <= k,
    decreases k - j,
{
    if mru[j] != pid {
        lemma_rank_at_most_occurrence(mru, pid, j + 1, k);
    }
}

/// The items of ranks `0 .. r` come in non-decreasing rank, each of rank below `r`.
proof fn lemma_ranked_upto_sorted(items: Seq<AppItem>, mru: Seq<i32>, r: int)
    ensures
        forall|a: int|
            0 <= a < ranked_upto(items, mru, r).len() ==> 0 <= mru_rank(
                mru,
                #[trigger] ranked_upto(items, mru, r)[a].pid,
            ) < r,
        forall|a: int, b: int|
            0 <= a < b < ranked_upto(items, mru, r).len() ==> mru_rank(
                mru,
                #[trigger] ranked_upto(items, mru, r)[a].pid,
            ) <= mru_rank(mru, #[trigger] ranked_upto(items, mru, r)[b].pid),
    decreases r,
{
    if r > 0 {
        lemma_ranked_upto_sorted(items, mru, r - 1);
        let p = ranked_upto(items, mru, r - 1);
        let f = items.filter(ranked(mru, r - 1));
        let res = ranked_upto(items, mru, r);
        assert(res == p + f);
        assert forall|i: int| 0 <= i < f.len() implies mru_rank(mru, #[trigger] f[i].pid) == r
            - 1 by {
            items.lemma_filter_pred(ranked(mru, r - 1), i);
        }
        assert forall|a: int| 0 <= a < res.len() implies 0 <= mru_rank(
            mru,
            #[trigger] res[a].pid,
        ) < r by {
            if a < p.len() {
                assert(res[a] == p[a]);
            } else {
                assert(res[a] == f[a - p.len()]);
            }
        }
        assert forall|a: int, b: int| 0 <= a < b < res.len() implies mru_rank(
            mru,
            #[trigger] res[a].pid,
        ) <= mru_rank(mru, #[trigger] res[b].pid) by {
            if b < p.len() {
                assert(res[a] == p[a] && res[b] == p[b]);
            } else if a < p.len() {
                assert(res[a] == p[a] && res[b] == f[b - p.len()]);
            } else {
                assert(res[a] == f[a - p.len()] && res[b] == f[b - p.len()]);
            }
        }
    }
}

/// The recency order puts more recently used apps first: whenever an item
/// comes before another in the result and the later item's pid occurs at
/// position `k` of the MRU, the earlier item's pid occurs in the MRU at or
/// before `k`. In particular an app never used comes after every app that was.
pub proof fn law_mru_order_follows_recency(items: Seq<AppItem>, mru: Seq<i32>, a: int, b: int, k: int)
    requires
        0 <= a < b < ordered_by_mru(items, mru).len(),
        0 <= k < mru.len(),
        mru[k] == ordered_by_mru(items, mru)[b].pid,
    ensures
        exists|j: int| 0 <= j <= k && mru[j] == ordered_by_mru(items, mru)[a].pid,
{
    let res = ordered_by_mru(items, mru);
    lemma_ranked_upto_sorted(items, mru, mru.len() as int + 1);
    let pa = res[a].pid;
    let pb = res[b].pid;
    assert(mru_rank(mru, pa) <= mru_rank(mru, pb));
    lemma_rank_at_most_occurrence(mru, pb, 0, k);
    lemma_rank_bounds(mru, pa, 0);
    let j = mru_rank(mru, pa);
    assert(0 <= j <= k && mru[j] == pa);
}

/// Filtering twice keeps what both predicates keep.
proof fn lemma_filter_filter<A>(s: Seq<A>, f: spec_fn(A) -> bool, g: spec_fn(A) -> bool)
    ensures
        s.filter(f).filter(g) == s.filter(|x: A| f(x) && g(x)),
    decreases s.len(),
{
    reveal(Seq::filter);
    if s.len() > 0 {
        lemma_filter_filter(s.drop_last(), f, g);
        let sub = s.drop_last().filter(f);
        if f(s.last()) {
            assert(sub.push(s.last()).drop_last() =~= sub);
        }
    }
}

/// A predicate that holds nowhere keeps nothing.
proof fn lemma_filter_nothing<A>(s: Seq<A>, f: spec_fn(A) -> bool)
    requires
        forall|x: A| !#[trigger] f(x),
    ensures
        s.filter(f) == Seq::<A>::empty(),
    decreases s.len(),
{
    reveal(Seq::filter);
    if s.len() > 0 {
        lemma_filter_nothing(s.drop_last(), f);
    }
}

/// Items selected by `g`, all of recency rank `r0`, come out of the ranks
/// below `r` in enumeration order, and only once `r0` is one of those ranks.
proof fn lemma_ranked_upto_filter(
    items: Seq<AppItem>,
    mru: Seq<i32>,
    r: int,
    g: spec_fn(AppItem) -> bool,
    r0: int,
)
    requires
        0 <= r0,
        forall|x: AppItem| #[trigger] g(x) ==> mru_rank(mru, x.pid) == r0,
    ensures
        ranked_upto(items, mru, r).filter(g) == (if r0 < r {
            items.filter(g)
        } else {
            Seq::<AppItem>::empty()
        }),
    decreases r,
{
    if r <= 0 {
        reveal(Seq::filter);
        assert(ranked_upto(items, mru, r) =~= Seq::<AppItem>::empty());
        assert(Seq::<AppItem>::empty().filter(g) =~= Seq::<AppItem>::empty());
    } else {
        lemma_ranked_upto_filter(items, mru, r - 1, g, r0);
        let p = ranked_upto(items, mru, r - 1);
        let f = ranked(mru, r - 1);
        Seq::filter_distributes_over_add(p, items.filter(f), g);
        lemma_filter_filter(items, f, g);
        let both = |x: AppItem| f(x) && g(x);
        if r0 == r - 1 {
            assert(both =~= g);
        } else {
            lemma_filter_nothing(items, both);
        }
    }
}

/// The items of one app come out in enumeration order: ordering by recency
/// never reorders the entries of a single pid.
pub proof fn law_mru_order_keeps_entries_of_a_pid_in_order(
    items: Seq<AppItem>,
    mru: Seq<i32>,
    pid: i32,
)
    ensures
        ordered_by_mru(items, mru).filter(|x: AppItem| x.pid == pid) == items.filter(
            |x: AppItem| x.pid == pid,
        ),
{
    lemma_rank_bounds(mru, pid, 0);
    lemma_ranked_upto_filter(
        items,
        mru,
        mru.len() as int + 1,
        |x: AppItem| x.pid == pid,
        mru_rank(mru, pid),
    );
}

/// Apps never used come last, in enumeration order: picking them out of the
/// result gives them in the order they were enumerated.
pub proof fn law_mru_order_keeps_never_used_in_order(items: Seq<AppItem>, mru: Seq<i32>)
    ensures
        ordered_by_mru(items, mru).filter(|x: AppItem| !mru.contains(x.pid)) == items.filter(
            |x: AppItem| !mru.contains(x.pid),
        ),
{
    assert forall|x: AppItem| !mru.contains(x.pid) implies mru_rank(mru, x.pid) == mru.len() by {
        lemma_rank_bounds(mru, x.pid, 0);
        if mru_rank(mru, x.pid) < mru.len() {
            assert(mru[mru_rank(mru, x.pid)] == x.pid);
        }
    }
    lemma_ranked_upto_filter(
        items,
        mru,
        mru.len() as int + 1,
        |x: AppItem| !mru.contains(x.pid),
        mru.len() as int,
    );
}

} // verus!

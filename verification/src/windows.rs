//! Window-list rules: which Accessibility windows are listed, VS Code detection
//! and the reordering of VS Code window titles.

use vstd::prelude::*;

verus! {

/// Same text, char by char.
pub fn same_text(a: &str, b: &str) -> (r: bool)
    ensures
        r == (a@ == b@),
{
    let n = a.unicode_len();
    let m = b.unicode_len();
    if n != m {
        return false;
    }
    let mut k: usize = 0;
    while k < n
        invariant
            n == a@.len(),
            m == b@.len(),
            n == m,
            k <= n,
            forall|i: int| 0 <= i < k ==> a@[i] == b@[i],
        decreases n - k,
    {
        if a.get_char(k) != b.get_char(k) {
            return false;
        }
        k = k + 1;
    }
    assert(a@ =~= b@);
    true
}

/// Bundle identifiers of VS Code (stable + Insiders).
pub fn is_vscode_bundle(bundle_id: &str) -> (r: bool)
    ensures
        r == (bundle_id@ == "com.microsoft.VSCode"@ || bundle_id@
            == "com.microsoft.VSCodeInsiders"@),
{
    same_text(bundle_id, "com.microsoft.VSCode") || same_text(
        bundle_id,
        "com.microsoft.VSCodeInsiders",
    )
}

/// VS Code's window-title segment separator: an em dash between spaces.
pub open spec fn title_sep() -> Seq<char> {
    seq![' ', '—', ' ']
}

/// The separator starts at position `k` of `s`.
pub open spec fn sep_at(s: Seq<char>, k: int) -> bool {
    &&& 0 <= k
    &&& k + 3 <= s.len()
    &&& s[k] == ' '
    &&& s[k + 1] == '—'
    &&& s[k + 2] == ' '
}

/// The first separator of `s` starting at or after `from`, or `s.len()` if none.
pub open spec fn next_sep(s: Seq<char>, from: int) -> int
    decreases s.len() - from,
{
    if from < 0 || from + 3 > s.len() {
        s.len() as int
    } else if sep_at(s, from) {
        from
    } else {
        next_sep(s, from + 1)
    }
}

/// A title with its first two " — " segments swapped; a title with fewer than
/// two segments is unchanged. Segments are split at non-overlapping separators
/// from the left, as `str::split` does.
pub open spec fn reordered_title(t: Seq<char>) -> Seq<char> {
    let i = next_sep(t, 0);
    if i >= t.len() {
        t
    } else {
        let j = next_sep(t, i + 3);
        t.subrange(i + 3, j) + title_sep() + t.subrange(0, i) + t.subrange(j, t.len() as int)
    }
}

/// `next_sep` finds a real separator at or after `from`, or reports none.
pub proof fn lemma_next_sep(s: Seq<char>, from: int)
    requires
        0 <= from <= s.len(),
    ensures
        from <= next_sep(s, from) <= s.len(),
        next_sep(s, from) < s.len() ==> sep_at(s, next_sep(s, from)),
        forall|k: int| from <= k < next_sep(s, from) ==> !sep_at(s, k),
    decreases s.len() - from,
{
    if from + 3 <= s.len() && !sep_at(s, from) {
        lemma_next_sep(s, from + 1);
    }
}

proof fn lemma_next_sep_at(s: Seq<char>, from: int, k: int)
    requires
        0 <= from <= k,
        sep_at(s, k),
        forall|p: int| from <= p < k ==> !sep_at(s, p),
    ensures
        next_sep(s, from) == k,
    decreases k - from,
{
    if from < k {
        lemma_next_sep_at(s, from + 1, k);
    }
}

proof fn lemma_next_sep_none(s: Seq<char>, from: int)
    requires
        0 <= from,
        forall|p: int| from <= p && p + 3 <= s.len() ==> !sep_at(s, p),
    ensures
        next_sep(s, from) == s.len(),
    decreases s.len() - from,
{
    if from + 3 <= s.len() {
        lemma_next_sep_none(s, from + 1);
    }
}

/// The second segment of the title ends with " —", so that it would run into
/// the separator placed after it.
pub open spec fn second_segment_ends_in_dash(t: Seq<char>) -> bool {
    let i = next_sep(t, 0);
    let j = next_sep(t, i + 3);
    &&& i < t.len()
    &&& j - (i + 3) >= 2
    &&& t[j - 2] == ' '
    &&& t[j - 1] == '—'
}

/// Reordering a title twice gives it back, unless its second segment ends
/// with " —" (which would fuse with the separator placed after it).
pub proof fn law_reorder_twice_restores(t: Seq<char>)
    requires
        !second_segment_ends_in_dash(t),
    ensures
        reordered_title(reordered_title(t)) == t,
{
    lemma_next_sep(t, 0);
    let i = next_sep(t, 0);
    if i < t.len() {
        lemma_next_sep(t, i + 3);
        let j = next_sep(t, i + 3);
        let a = t.subrange(0, i);
        let b = t.subrange(i + 3, j);
        let rest = t.subrange(j, t.len() as int);
        let r = b + title_sep() + a + rest;
        assert(reordered_title(t) == r);
        let lb = b.len() as int;
        let la = a.len() as int;
        assert(forall|k: int| 0 <= k < lb ==> r[k] == #[trigger] t[i + 3 + k]);
        assert(r[lb] == ' ' && r[lb + 1] == '—' && r[lb + 2] == ' ');
        assert(forall|k: int| 0 <= k < la ==> r[lb + 3 + k] == #[trigger] t[k]);
        assert(forall|k: int| 0 <= k < rest.len() ==> r[lb + 3 + la + k] == #[trigger] t[j + k]);
        assert forall|p: int| 0 <= p < lb implies !sep_at(r, p) by {
            if p + 3 <= lb {
                assert(!sep_at(t, i + 3 + p));
                assert(r[p] == t[i + 3 + p]);
                assert(r[p + 1] == t[i + 3 + (p + 1)]);
                assert(r[p + 2] == t[i + 3 + (p + 2)]);
            } else if p == lb - 2 {
                assert(r[p] == t[i + 3 + p]);
                assert(r[p + 1] == t[i + 3 + (p + 1)]);
                assert(t[j - 2] == t[i + 3 + p]);
            }
        }
        lemma_next_sep_at(r, 0, lb);
        if j < t.len() {
            assert forall|p: int| lb + 3 <= p < lb + 3 + la implies !sep_at(r, p) by {
                let q = p - lb - 3;
                assert(!sep_at(t, q));
                assert forall|m: int| 0 <= m < 3 implies #[trigger] r[p + m] == t[q + m] by {
                    if q + m < i {
                        assert(r[lb + 3 + (q + m)] == t[q + m]);
                    } else {
                        let d = q + m - i;
                        assert(r[lb + 3 + la + d] == t[j + d]);
                    }
                }
            }
            assert(r[lb + 3 + la + 0] == t[j + 0]);
            assert(r[lb + 3 + la + 1] == t[j + 1]);
            assert(r[lb + 3 + la + 2] == t[j + 2]);
            lemma_next_sep_at(r, lb + 3, lb + 3 + la);
        } else {
            assert forall|p: int| lb + 3 <= p && p + 3 <= r.len() implies !sep_at(r, p) by {
                let q = p - lb - 3;
                assert(!sep_at(t, q));
                assert(r[lb + 3 + q] == t[q]);
                assert(r[lb + 3 + (q + 1)] == t[q + 1]);
                assert(r[lb + 3 + (q + 2)] == t[q + 2]);
            }
            lemma_next_sep_none(r, lb + 3);
        }
        assert(reordered_title(r) =~= t);
    }
}

fn find_sep(t: &str, from: usize, n: usize) -> (r: usize)
    requires
        n == t@.len(),
        from <= n,
    ensures
        r == next_sep(t@, from as int),
{
    let mut k = from;
    while k < n && n - k >= 3
        invariant
            n == t@.len(),
            from <= k <= n,
            next_sep(t@, from as int) == next_sep(t@, k as int),
        decreases n - k,
    {
        if t.get_char(k) == ' ' && t.get_char(k + 1) == '—' && t.get_char(k + 2) == ' ' {
            return k;
        }
        k = k + 1;
    }
    n
}

/// Reorder a VS Code window title from "file — project" to "project — file"
/// (swap the first two " — " segments).
///
/// VS Code's AX window title is "file — project" (the app name is not part of
/// it), so 2 segments is the normal case. A title with fewer than 2 segments
/// (no folder open, or a custom title) is returned unchanged.
pub fn reorder_vscode_title(title: &str) -> (r: String)
    ensures
        r@ == reordered_title(title@),
{
    let n = title.unicode_len();
    let i = find_sep(title, 0, n);
    proof {
        lemma_next_sep(title@, 0);
    }
    if i == n {
        return String::from_str(title);
    }
    let j = find_sep(title, i + 3, n);
    proof {
        lemma_next_sep(title@, i + 3);
        reveal_strlit(" — ");
    }
    let mut out = String::from_str(title.substring_char(i + 3, j));
    out.append(" — ");
    out.append(title.substring_char(0, i));
    out.append(title.substring_char(j, n));
    assert(" — "@ =~= title_sep());
    out
}

/// The Unicode `White_Space` property (the whitespace of `str::trim` and
/// `char::is_whitespace`): tab through carriage return, space, next line,
/// no-break space, Ogham space mark, the spaces U+2000 to U+200A, the line and
/// paragraph separators, narrow no-break space, medium mathematical space and
/// ideographic space.
pub open spec fn white_space(c: char) -> bool {
    let v = c as int;
    ||| 0x9 <= v <= 0xd
    ||| v == 0x20
    ||| v == 0x85
    ||| v == 0xa0
    ||| v == 0x1680
    ||| 0x2000 <= v <= 0x200a
    ||| v == 0x2028
    ||| v == 0x2029
    ||| v == 0x202f
    ||| v == 0x205f
    ||| v == 0x3000
}

/// True when `c` is Unicode whitespace.
pub fn is_white(c: char) -> (r: bool)
    ensures
        r == white_space(c),
{
    let v = c as u32;
    (0x9 <= v && v <= 0xd) || v == 0x20 || v == 0x85 || v == 0xa0 || v == 0x1680 || (0x2000
        <= v && v <= 0x200a) || v == 0x2028 || v == 0x2029 || v == 0x202f || v == 0x205f || v
        == 0x3000
}

/// The text is empty once surrounding whitespace is trimmed: every char is whitespace.
pub open spec fn blank(s: Seq<char>) -> bool {
    forall|i: int| 0 <= i < s.len() ==> white_space(#[trigger] s[i])
}

/// True when `s` trims to nothing.
pub fn is_blank(s: &str) -> (r: bool)
    ensures
        r == blank(s@),
{
    let n = s.unicode_len();
    let mut k: usize = 0;
    while k < n
        invariant
            n == s@.len(),
            k <= n,
            forall|i: int| 0 <= i < k ==> white_space(#[trigger] s@[i]),
        decreases n - k,
    {
        if !is_white(s.get_char(k)) {
            return false;
        }
        k = k + 1;
    }
    true
}

/// A window is listed when it is a standard window (role `AXWindow`) with a
/// title that is not blank.
pub fn is_listed_window(role: Option<&str>, title: &str) -> (r: bool)
    ensures
        r == (role matches Some(ro) && ro@ == "AXWindow"@ && !blank(title@)),
{
    match role {
        Some(ro) => same_text(ro, "AXWindow") && !is_blank(title),
        None => false,
    }
}

} // verus!

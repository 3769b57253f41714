//! Whether verbose diagnostic logging is on.

use vstd::prelude::*;

verus! {

/// Verbose logging is requested by a non-empty value of the debug variable
/// other than "0".
pub fn debug_requested(value: Option<&str>) -> (r: bool)
    ensures
        r == (value matches Some(v) && v@.len() > 0 && v@ != "0"@),
{
    match value {
        Some(v) => v.unicode_len() > 0 && !crate::windows::same_text(v, "0"),
        None => false,
    }
}

} // verus!

//! The schedule of the wait for the Accessibility grant before the event tap
//! can be installed.

use vstd::prelude::*;

verus! {

/// How many times the grant is checked before giving up (about 30 minutes).
pub const TAP_POLL_ATTEMPTS: u32 = 1200;

/// The pause before each check, in milliseconds.
pub const TAP_POLL_INTERVAL_MS: u64 = 1500;

/// Whether the wait goes on after `attempts` checks: until the tap is
/// installed, at most `TAP_POLL_ATTEMPTS` checks.
pub fn keep_waiting_for_tap(attempts: u32, installed: bool) -> (r: bool)
    ensures
        r == (!installed && attempts < TAP_POLL_ATTEMPTS),
{
    !installed && attempts < TAP_POLL_ATTEMPTS
}

} // verus!

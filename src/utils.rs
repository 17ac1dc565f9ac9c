//! Producers that only count cycles, for tests and workarounds.

use vstd::prelude::*;

use crate::progress::Progress;

verus! {

/// One cycle of a producer that waits for `N` cycles.
///
/// `count` is the number of cycles seen before this one. The result is
/// `0 / 1` while more than `N` cycles have been seen, `1 / 1` before.
pub fn dummy_system_wait_frames<const N: u32>(count: &mut u32) -> (r: Progress)
    requires
        *old(count) < u32::MAX,
    ensures
        *final(count) == *old(count) + 1,
        r == (Progress { done: if *old(count) <= N { 1 } else { 0 }, total: 1 }),
{
    *count = *count + 1;
    Progress::from(*count - 1 <= N)
}

/// One cycle of a producer that counts `N` cycles as units of work.
///
/// `count` is the number of cycles seen before this one, and stops growing
/// past `N + 1`. The result is the number of cycles counted out of `N`.
pub fn dummy_system_count_frames<const N: u32>(count: &mut u32) -> (r: Progress)
    requires
        *old(count) <= N ==> *old(count) < u32::MAX,
    ensures
        *final(count) == if *old(count) <= N {
            *old(count) + 1
        } else {
            *old(count) as int
        },
        r == (Progress { done: (*final(count) - 1) as u32, total: N }),
{
    if *count <= N {
        *count = *count + 1;
    }
    Progress { done: *count - 1, total: N }
}

} // verus!

//! The `skb:kfree_skb` tracepoint program: one counter per drop reason.

use vstd::prelude::*;

verus! {

/// Offset of the drop reason in the `skb:kfree_skb` tracepoint record.
pub const REASON_OFFSET: usize = 36;

/// Capacity of the drop counter map: one entry per known drop reason.
pub const DROP_COUNTS_MAX_ENTRIES: u32 = 131;

/// The counter of a drop reason after one more drop: incremented (wrapping)
/// when present, 1 when the reason is seen for the first time.
pub fn next_drop_count(current: Option<u64>) -> (count: u64)
    ensures
        count == match current {
            Some(c) => if c == u64::MAX {
                0
            } else {
                (c + 1) as u64
            },
            None => 1,
        },
{
    match current {
        Some(c) => c.wrapping_add(1),
        None => 1,
    }
}

} // verus!

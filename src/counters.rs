use vstd::prelude::*;

verus! {

/// The increment that brings a monotonic counter standing at `current` to a
/// `reported` total, counting modulo 2^64 so that a total that wrapped
/// around still moves the counter forward.
pub fn counter_increment(reported: u64, current: u64) -> (r: u64)
    ensures
        r as int == (reported as int - current as int) % 0x1_0000_0000_0000_0000,
        (current as int + r as int) % 0x1_0000_0000_0000_0000 == reported as int,
{
    reported.wrapping_sub(current)
}

} // verus!

//! Clock readings as milliseconds since the Unix epoch.
use vstd::prelude::*;

verus! {

/// The current time in milliseconds since the Unix epoch, from a clock
/// reading of `secs` whole seconds and `subsec_nanos` nanoseconds past it
/// (partial milliseconds are dropped).
pub fn now_millis(secs: u64, subsec_nanos: u32) -> (r: u128)
    ensures
        r == secs as int * 1000 + subsec_nanos as int / 1_000_000,
{
    secs as u128 * 1000 + (subsec_nanos / 1_000_000) as u128
}

} // verus!

//! Shared-region queries.
//!
//! Memory barriers and running raw machine code are calls into the framework and
//! stay with the platform glue.

use vstd::prelude::*;

verus! {

/// Whether `address` lies in the shared region (the system libraries that every
/// process maps at the same place); `shared_region_check(address)` answers a
/// nonzero value when it does.
pub fn is_shared_region<F>(address: u64, shared_region_check: F) -> (r: bool) where
    F: FnOnce(u64) -> i32,
    requires
        call_requires(shared_region_check, (address,)),
    ensures
        exists|answer: i32|
            #[trigger] call_ensures(shared_region_check, (address,), answer) && r == (answer != 0),
{
    let answer = shared_region_check(address);
    answer != 0
}

} // verus!

//! Objective-C classes.

use vstd::prelude::*;

verus! {

/// Look up a class by its name.
///
/// Class lookup belongs to the Objective-C runtime, which these bindings do not
/// reach: the answer is always the null class.
pub fn get(name: usize) -> (r: usize)
    ensures
        r == 0,
{
    0
}

} // verus!

//! Objective-C selectors.

use vstd::prelude::*;

verus! {

/// Register a selector from its name.
///
/// Selector registration belongs to the Objective-C runtime, which these
/// bindings do not reach: the answer is always the null selector.
pub fn register(name: usize) -> (r: usize)
    ensures
        r == 0,
{
    0
}

} // verus!

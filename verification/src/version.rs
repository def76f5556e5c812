//! Version information of the crate.

use vstd::prelude::*;

verus! {

/// The crate's version.
pub const VERSION: &'static str = "0.2.0";

/// The crate's name.
pub const NAME: &'static str = "ellekit";

} // verus!

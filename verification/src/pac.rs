//! Pointer Authentication Code (PAC) availability.
//!
//! PAC is the ARM64e feature that signs pointers against tampering. Signing and
//! stripping pointers are calls into the framework and stay with the platform glue.

use vstd::prelude::*;

verus! {

/// Whether PAC is available on a target: only an AArch64 target that has the
/// pointer-authentication (`paca`) feature offers it.
///
/// `is_aarch64` and `has_paca` describe the build target (its architecture and
/// whether the `paca` target feature is enabled).
pub fn is_pac_available(is_aarch64: bool, has_paca: bool) -> (r: bool)
    ensures
        r == (is_aarch64 && has_paca),
{
    is_aarch64 && has_paca
}

} // verus!

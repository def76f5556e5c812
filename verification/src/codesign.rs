//! Code-signing status of a process.

use vstd::prelude::*;
use crate::error::{Error, Result};
use crate::sys::{CS_ADHOC, CS_OPS_STATUS, CS_PLATFORM_BINARY, CS_SIGNED, CS_VALID};

verus! {

/// Size in bytes of the status word that `csops` fills.
pub const STATUS_WORD_SIZE: usize = 4;

/// Process id by which `csops` designates the calling process.
pub const CURRENT_PROCESS: i32 = 0;

/// Code-signing status flags of a process.
#[derive(Debug, Clone, Copy, PartialEq, Eq, Structural)]
pub struct CodeSignStatus {
    /// Raw status flags.
    pub raw: u32,
}

/// Whether any bit of `flag` is set in `raw`.
pub open spec fn has_flag(raw: u32, flag: u32) -> bool {
    raw & flag != 0
}

impl CodeSignStatus {
    /// Whether the code signature is valid.
    pub fn is_valid(&self) -> (r: bool)
        ensures
            r == has_flag(self.raw, CS_VALID),
    {
        self.raw & CS_VALID != 0
    }

    /// Whether the signature is ad hoc (no certificate).
    pub fn is_adhoc(&self) -> (r: bool)
        ensures
            r == has_flag(self.raw, CS_ADHOC),
    {
        self.raw & CS_ADHOC != 0
    }

    /// Whether the binary is signed.
    pub fn is_signed(&self) -> (r: bool)
        ensures
            r == has_flag(self.raw, CS_SIGNED),
    {
        self.raw & CS_SIGNED != 0
    }

    /// Whether this is a platform binary (signed by Apple).
    pub fn is_platform_binary(&self) -> (r: bool)
        ensures
            r == has_flag(self.raw, CS_PLATFORM_BINARY),
    {
        self.raw & CS_PLATFORM_BINARY != 0
    }
}

/// What a status query returns once `csops` answered its return code `ret` and the
/// status word `status`.
pub open spec fn status_outcome(r: Result<CodeSignStatus>, ret: i32, status: u32) -> bool {
    if ret != 0 {
        r == Err::<CodeSignStatus, Error>(Error::Other("csops failed"))
    } else {
        r == Ok::<CodeSignStatus, Error>(CodeSignStatus { raw: status })
    }
}

/// A status query reports exactly what `csops` answered: a nonzero return code is
/// the failure "csops failed", and on success the status holds the status word as
/// it was filled, with no bit added or removed.
pub proof fn lemma_status_outcome_keeps_word(r: Result<CodeSignStatus>, ret: i32, status: u32)
    requires
        status_outcome(r, ret, status),
    ensures
        (r is Ok) == (ret == 0),
        r matches Ok(s) ==> s.raw == status,
        r matches Err(e) ==> e == Error::Other("csops failed"),
{
}

/// Code-signing status of process `pid` (0 for the calling process):
/// `csops(pid, CS_OPS_STATUS, STATUS_WORD_SIZE)` answers its return code and the
/// status word it filled.
pub fn get_codesign_status_for_pid<F>(pid: i32, csops: F) -> (r: Result<CodeSignStatus>) where
    F: FnOnce(i32, u32, usize) -> (i32, u32),
    requires
        call_requires(csops, (pid, CS_OPS_STATUS, STATUS_WORD_SIZE)),
    ensures
        exists|answer: (i32, u32)|
            #[trigger] call_ensures(csops, (pid, CS_OPS_STATUS, STATUS_WORD_SIZE), answer)
                && status_outcome(r, answer.0, answer.1),
        r matches Ok(status) ==> call_ensures(csops, (pid, CS_OPS_STATUS, STATUS_WORD_SIZE), (0i32, status.raw)),
{
    let (ret, status) = csops(pid, CS_OPS_STATUS, STATUS_WORD_SIZE);
    if ret != 0 {
        return Err(Error::Other("csops failed"));
    }
    Ok(CodeSignStatus { raw: status })
}

/// Code-signing status of the calling process.
pub fn get_codesign_status<F>(csops: F) -> (r: Result<CodeSignStatus>) where
    F: FnOnce(i32, u32, usize) -> (i32, u32),
    requires
        call_requires(csops, (CURRENT_PROCESS, CS_OPS_STATUS, STATUS_WORD_SIZE)),
    ensures
        exists|answer: (i32, u32)|
            #[trigger] call_ensures(csops, (CURRENT_PROCESS, CS_OPS_STATUS, STATUS_WORD_SIZE), answer)
                && status_outcome(r, answer.0, answer.1),
        r matches Ok(status) ==> call_ensures(
            csops,
            (CURRENT_PROCESS, CS_OPS_STATUS, STATUS_WORD_SIZE),
            (0i32, status.raw),
        ),
{
    get_codesign_status_for_pid(CURRENT_PROCESS, csops)
}

/// The flag queries each test their own bit: bit 0 for validity, bit 1 for an ad hoc
/// signature, bit 26 for a platform binary and bit 29 for a signed binary.
pub proof fn lemma_flag_bits(raw: u32)
    ensures
        has_flag(raw, CS_VALID) == ((raw >> 0u32) & 1 == 1),
        has_flag(raw, CS_ADHOC) == ((raw >> 1u32) & 1 == 1),
        has_flag(raw, CS_PLATFORM_BINARY) == ((raw >> 26u32) & 1 == 1),
        has_flag(raw, CS_SIGNED) == ((raw >> 29u32) & 1 == 1),
{
    assert(((raw & 0x1u32) != 0) == ((raw >> 0u32) & 1 == 1)) by (bit_vector);
    assert(((raw & 0x2u32) != 0) == ((raw >> 1u32) & 1 == 1)) by (bit_vector);
    assert(((raw & 0x4000000u32) != 0) == ((raw >> 26u32) & 1 == 1)) by (bit_vector);
    assert(((raw & 0x20000000u32) != 0) == ((raw >> 29u32) & 1 == 1)) by (bit_vector);
}

} // verus!

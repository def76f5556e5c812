//! Plain-value model of the ElleKit C API types and constants.
//!
//! Pointer fields are addresses (`usize`, `0` is null).

use vstd::prelude::*;

verus! {

/// Error codes of the libhooker API, in declaration order (`LIBHOOKER_OK` is 0).
#[derive(Debug, Clone, Copy, PartialEq, Eq, Structural)]
pub enum LIBHOOKER_ERR {
    LIBHOOKER_OK,
    LIBHOOKER_ERR_SELECTOR_NOT_FOUND,
    LIBHOOKER_ERR_SHORT_FUNC,
    LIBHOOKER_ERR_BAD_INSN_AT_START,
    LIBHOOKER_ERR_VM,
    LIBHOOKER_ERR_NO_SYMBOL,
}

impl LIBHOOKER_ERR {
    /// The C value of the code.
    pub open spec fn spec_code(self) -> i32 {
        match self {
            LIBHOOKER_ERR::LIBHOOKER_OK => 0,
            LIBHOOKER_ERR::LIBHOOKER_ERR_SELECTOR_NOT_FOUND => 1,
            LIBHOOKER_ERR::LIBHOOKER_ERR_SHORT_FUNC => 2,
            LIBHOOKER_ERR::LIBHOOKER_ERR_BAD_INSN_AT_START => 3,
            LIBHOOKER_ERR::LIBHOOKER_ERR_VM => 4,
            LIBHOOKER_ERR::LIBHOOKER_ERR_NO_SYMBOL => 5,
        }
    }

    /// The C value of the code.
    pub fn code(self) -> (c: i32)
        ensures
            c == self.spec_code(),
    {
        match self {
            LIBHOOKER_ERR::LIBHOOKER_OK => 0,
            LIBHOOKER_ERR::LIBHOOKER_ERR_SELECTOR_NOT_FOUND => 1,
            LIBHOOKER_ERR::LIBHOOKER_ERR_SHORT_FUNC => 2,
            LIBHOOKER_ERR::LIBHOOKER_ERR_BAD_INSN_AT_START => 3,
            LIBHOOKER_ERR::LIBHOOKER_ERR_VM => 4,
            LIBHOOKER_ERR::LIBHOOKER_ERR_NO_SYMBOL => 5,
        }
    }
}

/// Hook options.
#[derive(Debug, Clone, Copy, PartialEq, Eq, Structural)]
pub enum LHOptions {
    LHOptionsNone,
    LHOptionsSetJumpReg,
}

impl LHOptions {
    /// The C value of the option (`LHOptionsNone` is 0, `LHOptionsSetJumpReg` is 1).
    pub fn code(self) -> (c: i32)
        ensures
            c == (if self is LHOptionsNone { 0i32 } else { 1i32 }),
    {
        match self {
            LHOptions::LHOptionsNone => 0,
            LHOptions::LHOptionsSetJumpReg => 1,
        }
    }
}

/// Function hook descriptor handed to `LHHookFunctions`.
#[derive(Debug, Clone, Copy, PartialEq, Eq, Structural)]
pub struct LHFunctionHook {
    /// Address of the function to hook.
    pub function: usize,
    /// Address of the replacement function.
    pub replacement: usize,
    /// Address where the original function pointer is stored.
    pub oldptr: usize,
    /// Address of the optional hook options.
    pub options: usize,
}

impl Default for LHFunctionHook {
    fn default() -> (r: Self)
        ensures
            r.function == 0 && r.replacement == 0 && r.oldptr == 0 && r.options == 0,
    {
        LHFunctionHook { function: 0, replacement: 0, oldptr: 0, options: 0 }
    }
}

/// Function hook options.
#[derive(Debug, Clone, Copy, PartialEq, Eq, Structural)]
pub struct LHFunctionHookOptions {
    pub options: LHOptions,
    pub jmp_reg: i32,
}

impl Default for LHFunctionHookOptions {
    fn default() -> (r: Self)
        ensures
            r.options is LHOptionsNone && r.jmp_reg == 0,
    {
        LHFunctionHookOptions { options: LHOptions::LHOptionsNone, jmp_reg: 0 }
    }
}

/// Memory patch descriptor handed to `LHPatchMemory`.
#[derive(Debug, Clone, Copy, PartialEq, Eq, Structural)]
pub struct LHMemoryPatch {
    /// Address to patch.
    pub destination: usize,
    /// Address of the bytes to write.
    pub data: usize,
    /// Number of bytes to write.
    pub size: usize,
    /// Address of the optional patch options.
    pub options: usize,
}

impl Default for LHMemoryPatch {
    fn default() -> (r: Self)
        ensures
            r.destination == 0 && r.data == 0 && r.size == 0 && r.options == 0,
    {
        LHMemoryPatch { destination: 0, data: 0, size: 0, options: 0 }
    }
}

/// A code-signing byte range.
#[derive(Debug, Clone, Copy, PartialEq, Eq, Structural)]
pub struct CSRange {
    pub location: u64,
    pub length: u64,
}

impl Default for CSRange {
    fn default() -> (r: Self)
        ensures
            r.location == 0 && r.length == 0,
    {
        CSRange { location: 0, length: 0 }
    }
}

pub const CS_VALID: u32 = 0x0000001;
pub const CS_ADHOC: u32 = 0x0000002;
pub const CS_GET_TASK_ALLOW: u32 = 0x0000004;
pub const CS_INSTALLER: u32 = 0x0000008;
pub const CS_INVALID_ALLOWED: u32 = 0x00000020;
pub const CS_HARD: u32 = 0x0000100;
pub const CS_KILL: u32 = 0x0000200;
pub const CS_CHECK_EXPIRATION: u32 = 0x0000400;
pub const CS_RESTRICT: u32 = 0x0000800;
pub const CS_ENFORCEMENT: u32 = 0x0001000;
pub const CS_REQUIRE_LV: u32 = 0x0002000;
pub const CS_ENTITLEMENTS_VALIDATED: u32 = 0x0004000;
pub const CS_ALLOWED_MACHO: u32 = 0x00ffffe;
pub const CS_EXEC_SET_HARD: u32 = 0x0100000;
pub const CS_EXEC_SET_KILL: u32 = 0x0200000;
pub const CS_EXEC_SET_ENFORCEMENT: u32 = 0x0400000;
pub const CS_EXEC_SET_INSTALLER: u32 = 0x0800000;
pub const CS_KILLED: u32 = 0x1000000;
pub const CS_DYLD_PLATFORM: u32 = 0x2000000;
pub const CS_PLATFORM_BINARY: u32 = 0x4000000;
pub const CS_PLATFORM_PATH: u32 = 0x8000000;
pub const CS_DEBUGGED: u32 = 0x10000000;
pub const CS_SIGNED: u32 = 0x20000000;
pub const CS_DEV_CODE: u32 = 0x40000000;

/// `csops` operation: read the status flags.
pub const CS_OPS_STATUS: u32 = 0;
pub const CS_OPS_MARKINVALID: u32 = 1;
pub const CS_OPS_MARKHARD: u32 = 2;
pub const CS_OPS_MARKKILL: u32 = 3;
pub const CS_OPS_PIDPATH: u32 = 4;
pub const CS_OPS_CDHASH: u32 = 5;

} // verus!

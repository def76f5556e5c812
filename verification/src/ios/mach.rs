//! Mach kernel types and constants.

use vstd::prelude::*;

verus! {

pub type natural_t = u32;
pub type integer_t = i32;
pub type boolean_t = i32;
pub type kern_return_t = i32;
pub type mach_port_t = u32;
pub type mach_port_name_t = u32;
pub type task_t = u32;
pub type thread_act_t = u32;
pub type vm_map_t = u32;
pub type vm_address_t = usize;
pub type vm_offset_t = usize;
pub type vm_size_t = usize;
pub type mach_vm_address_t = u64;
pub type mach_vm_offset_t = u64;
pub type mach_vm_size_t = u64;
pub type vm_prot_t = i32;
pub type vm_inherit_t = u32;
pub type vm_behavior_t = i32;
pub type mach_msg_type_number_t = u32;
pub type thread_state_flavor_t = i32;

// Memory protection.
pub const VM_PROT_NONE: i32 = 0x00;
pub const VM_PROT_READ: i32 = 0x01;
pub const VM_PROT_WRITE: i32 = 0x02;
pub const VM_PROT_EXECUTE: i32 = 0x04;
pub const VM_PROT_DEFAULT: i32 = 0x03;
pub const VM_PROT_ALL: i32 = 0x07;

// VM inheritance.
pub const VM_INHERIT_SHARE: u32 = 0;
pub const VM_INHERIT_COPY: u32 = 1;
pub const VM_INHERIT_NONE: u32 = 2;

// Kernel return values.
pub const KERN_SUCCESS: i32 = 0;
pub const KERN_INVALID_ADDRESS: i32 = 1;
pub const KERN_PROTECTION_FAILURE: i32 = 2;
pub const KERN_NO_SPACE: i32 = 3;
pub const KERN_INVALID_ARGUMENT: i32 = 4;
pub const KERN_FAILURE: i32 = 5;
pub const KERN_RESOURCE_SHORTAGE: i32 = 6;
pub const KERN_NOT_RECEIVER: i32 = 7;
pub const KERN_NO_ACCESS: i32 = 8;
pub const KERN_MEMORY_FAILURE: i32 = 9;
pub const KERN_MEMORY_ERROR: i32 = 10;

// VM allocation flags.
pub const VM_FLAGS_FIXED: i32 = 0x0000;
pub const VM_FLAGS_ANYWHERE: i32 = 0x0001;
pub const VM_FLAGS_PURGABLE: i32 = 0x0002;
pub const VM_FLAGS_RANDOM_ADDR: i32 = 0x0008;
pub const VM_FLAGS_OVERWRITE: i32 = 0x4000;

// Mach-O magic numbers.
pub const MH_MAGIC: u32 = 0xfeedface;
pub const MH_MAGIC_64: u32 = 0xfeedfacf;
pub const MH_CIGAM: u32 = 0xcefaedfe;
pub const MH_CIGAM_64: u32 = 0xcffaedfe;

// CPU types.
pub const CPU_TYPE_ARM: i32 = 12;
pub const CPU_TYPE_ARM64: i32 = 0x0100000c;
pub const CPU_TYPE_ARM64_32: i32 = 0x0200000c;

/// Flavor of the ARM64 thread state.
pub const ARM_THREAD_STATE64: i32 = 6;
/// Size of the ARM64 thread state, in 32-bit words.
pub const ARM_THREAD_STATE64_COUNT: u32 = 68;

/// Mach-O header (32-bit).
pub struct mach_header {
    pub magic: u32,
    pub cputype: i32,
    pub cpusubtype: i32,
    pub filetype: u32,
    pub ncmds: u32,
    pub sizeofcmds: u32,
    pub flags: u32,
}

/// Mach-O header (64-bit).
pub struct mach_header_64 {
    pub magic: u32,
    pub cputype: i32,
    pub cpusubtype: i32,
    pub filetype: u32,
    pub ncmds: u32,
    pub sizeofcmds: u32,
    pub flags: u32,
    pub reserved: u32,
}

/// Basic information on a VM region.
pub struct vm_region_basic_info_64 {
    pub protection: i32,
    pub max_protection: i32,
    pub inheritance: u32,
    pub shared: i32,
    pub reserved: i32,
    pub offset: u64,
    pub behavior: i32,
    pub user_wired_count: u32,
}

/// ARM64 thread state: general registers, frame pointer, link register, stack
/// pointer, program counter and status register.
pub struct arm_thread_state64_t {
    pub x: [u64; 29],
    pub fp: u64,
    pub lr: u64,
    pub sp: u64,
    pub pc: u64,
    pub cpsr: u32,
    pub pad: u32,
}

} // verus!

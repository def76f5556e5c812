//! Memory patching, allocation and protection.
//!
//! Each operation receives the foreign call it needs as a closure; its contract
//! states which arguments the call receives and what the operation returns for
//! every answer of the call.

use vstd::prelude::*;
use crate::error::{Error, Result};
use crate::sys::LHMemoryPatch;

verus! {

/// Mach return code of a successful call.
pub const KERN_SUCCESS: i32 = 0;

/// VM protection flags.
pub const VM_PROT_NONE: i32 = 0x00;
pub const VM_PROT_READ: i32 = 0x01;
pub const VM_PROT_WRITE: i32 = 0x02;
pub const VM_PROT_EXECUTE: i32 = 0x04;

/// The port name by which the Mach VM calls designate the calling task
/// (the value of `-1i32` read as `u32`).
pub const TASK_SELF: u32 = 0xFFFF_FFFF;

/// `mach_vm_allocate` flag: place the allocation anywhere.
pub const VM_FLAGS_ANYWHERE: i32 = 0x0001;

/// Largest number of patches in one batch.
pub const MAX_BATCH_PATCHES: usize = 32;

/// A memory patch: write `size` bytes from address `data` to address `destination`.
#[derive(Debug, Clone, Copy, PartialEq, Eq, Structural)]
pub struct MemoryPatch {
    pub destination: usize,
    pub data: usize,
    pub size: usize,
}

/// What an operation that only reports success returns once its Mach call answered `kr`.
pub open spec fn kern_outcome(r: Result<()>, kr: i32) -> bool {
    if kr == KERN_SUCCESS {
        r == Ok::<(), Error>(())
    } else {
        r == Err::<(), Error>(Error::VirtualMemoryError)
    }
}

/// Patch the memory at `destination` with `data`; `ms_hook_memory(destination, data)`
/// writes the bytes and answers whether it succeeded.
pub fn patch_memory<F>(destination: usize, data: &[u8], ms_hook_memory: F) -> (r: Result<()>) where
    F: FnOnce(usize, &[u8]) -> bool,
    requires
        destination != 0 ==> call_requires(ms_hook_memory, (destination, data)),
    ensures
        destination == 0 ==> r == Err::<(), Error>(Error::NullPointer),
        destination != 0 ==> match r {
            Ok(()) => call_ensures(ms_hook_memory, (destination, data), true),
            Err(e) => e == Error::VirtualMemoryError && call_ensures(
                ms_hook_memory,
                (destination, data),
                false,
            ),
        },
{
    if destination == 0 {
        return Err(Error::NullPointer);
    }
    let success = ms_hook_memory(destination, data);
    if success {
        Ok(())
    } else {
        Err(Error::VirtualMemoryError)
    }
}

/// The descriptor table that `patch_memory_batch` hands to `LHPatchMemory`: one
/// descriptor per patch, in order, then default descriptors up to `MAX_BATCH_PATCHES`.
pub open spec fn patch_table(patches: Seq<MemoryPatch>) -> Seq<LHMemoryPatch> {
    Seq::new(
        MAX_BATCH_PATCHES as nat,
        |i: int|
            if i < patches.len() {
                LHMemoryPatch {
                    destination: patches[i].destination,
                    data: patches[i].data,
                    size: patches[i].size,
                    options: 0,
                }
            } else {
                LHMemoryPatch { destination: 0, data: 0, size: 0, options: 0 }
            },
    )
}

/// The table handed to `LHPatchMemory` always has `MAX_BATCH_PATCHES` entries;
/// entry `i` of a patch carries that patch's destination, data and size with no
/// options, and every entry past the patches is all zero.
pub proof fn lemma_patch_table_carries_patches(patches: Seq<MemoryPatch>)
    ensures
        patch_table(patches).len() == MAX_BATCH_PATCHES,
        forall|i: int|
            0 <= i < patches.len() && i < MAX_BATCH_PATCHES ==> (#[trigger] patch_table(patches)[i]).destination
                == patches[i].destination && patch_table(patches)[i].data == patches[i].data
                && patch_table(patches)[i].size == patches[i].size && patch_table(patches)[i].options == 0,
        forall|i: int|
            patches.len() <= i < MAX_BATCH_PATCHES ==> (#[trigger] patch_table(patches)[i]).destination
                == 0 && patch_table(patches)[i].data == 0 && patch_table(patches)[i].size == 0
                && patch_table(patches)[i].options == 0,
{
}

/// Apply several patches at once. No patch is a success with nothing to do;
/// more than `MAX_BATCH_PATCHES` patches are refused. Otherwise
/// `lh_patch_memory(table, count)` applies them and answers 0 on success.
pub fn patch_memory_batch<F>(patches: &[MemoryPatch], lh_patch_memory: F) -> (r: Result<()>) where
    F: FnOnce(&[LHMemoryPatch], i32) -> i32,
    requires
        0 < patches@.len() <= MAX_BATCH_PATCHES ==> forall|table: &[LHMemoryPatch]|
            table@ == patch_table(patches@) ==> #[trigger] call_requires(
                lh_patch_memory,
                (table, patches@.len() as i32),
            ),
    ensures
        patches@.len() == 0 ==> r == Ok::<(), Error>(()),
        patches@.len() > MAX_BATCH_PATCHES ==> r == Err::<(), Error>(
            Error::Other("Too many patches in batch (max 32)"),
        ),
        0 < patches@.len() <= MAX_BATCH_PATCHES ==> exists|table: &[LHMemoryPatch], code: i32|
            #![trigger call_ensures(lh_patch_memory, (table, patches@.len() as i32), code)]
            {
                &&& table@ == patch_table(patches@)
                &&& table@.len() == MAX_BATCH_PATCHES
                &&& forall|i: int|
                    0 <= i < patches@.len() ==> (#[trigger] table@[i]).destination
                        == patches@[i].destination && table@[i].data == patches@[i].data
                        && table@[i].size == patches@[i].size && table@[i].options == 0
                &&& call_ensures(lh_patch_memory, (table, patches@.len() as i32), code)
                &&& code == 0 ==> r == Ok::<(), Error>(())
                &&& code != 0 ==> r == Err::<(), Error>(Error::VirtualMemoryError)
            },
{
    let count = patches.len();
    if count == 0 {
        return Ok(());
    }
    if count > MAX_BATCH_PATCHES {
        return Err(Error::Other("Too many patches in batch (max 32)"));
    }
    let mut table: Vec<LHMemoryPatch> = Vec::new();
    let mut i: usize = 0;
    while i < MAX_BATCH_PATCHES
        invariant
            count == patches@.len(),
            i <= MAX_BATCH_PATCHES,
            table@.len() == i,
            forall|j: int| 0 <= j < i ==> table@[j] == #[trigger] patch_table(patches@)[j],
        decreases MAX_BATCH_PATCHES - i,
    {
        if i < count {
            let patch = patches[i];
            table.push(
                LHMemoryPatch {
                    destination: patch.destination,
                    data: patch.data,
                    size: patch.size,
                    options: 0,
                },
            );
        } else {
            table.push(LHMemoryPatch { destination: 0, data: 0, size: 0, options: 0 });
        }
        i = i + 1;
    }
    assert(table@ =~= patch_table(patches@));
    let code = lh_patch_memory(table.as_slice(), count as i32);
    if code == 0 {
        Ok(())
    } else {
        Err(Error::VirtualMemoryError)
    }
}

/// Allocate `size` bytes of virtual memory anywhere in the calling task;
/// `mach_vm_allocate(task, address, size, flags)` answers its return code and the
/// address it chose.
pub fn allocate_memory<F>(size: usize, mach_vm_allocate: F) -> (r: Result<usize>) where
    F: FnOnce(u32, u64, u64, i32) -> (i32, u64),
    requires
        call_requires(mach_vm_allocate, (TASK_SELF, 0u64, size as u64, VM_FLAGS_ANYWHERE)),
    ensures
        exists|answer: (i32, u64)|
            #[trigger] call_ensures(
                mach_vm_allocate,
                (TASK_SELF, 0u64, size as u64, VM_FLAGS_ANYWHERE),
                answer,
            ) && (answer.0 == KERN_SUCCESS ==> r == Ok::<usize, Error>(answer.1 as usize)) && (
            answer.0 != KERN_SUCCESS ==> r == Err::<usize, Error>(Error::VirtualMemoryError)),
{
    let answer = mach_vm_allocate(TASK_SELF, 0u64, size as u64, VM_FLAGS_ANYWHERE);
    if answer.0 == KERN_SUCCESS {
        Ok(answer.1 as usize)
    } else {
        Err(Error::VirtualMemoryError)
    }
}

/// Set the current protection of `size` bytes at `address` to `protection`;
/// `mach_vm_protect(task, address, size, set_maximum, protection)` answers its return code.
pub fn protect_memory<F>(address: usize, size: usize, protection: i32, mach_vm_protect: F) -> (r:
    Result<()>) where F: FnOnce(u32, u64, u64, i32, i32) -> i32
    requires
        call_requires(mach_vm_protect, (TASK_SELF, address as u64, size as u64, 0i32, protection)),
    ensures
        exists|kr: i32|
            #[trigger] call_ensures(
                mach_vm_protect,
                (TASK_SELF, address as u64, size as u64, 0i32, protection),
                kr,
            ) && kern_outcome(r, kr),
{
    let kr = mach_vm_protect(TASK_SELF, address as u64, size as u64, 0i32, protection);
    if kr == KERN_SUCCESS {
        Ok(())
    } else {
        Err(Error::VirtualMemoryError)
    }
}

/// Write `data` to the memory at `address`; `mach_vm_write(task, address, data, count)`
/// receives the byte count as a `u32` and answers its return code.
pub fn write_memory<F>(address: usize, data: &[u8], mach_vm_write: F) -> (r: Result<()>) where
    F: FnOnce(u32, u64, &[u8], u32) -> i32,
    requires
        call_requires(mach_vm_write, (TASK_SELF, address as u64, data, data@.len() as u32)),
    ensures
        exists|kr: i32|
            #[trigger] call_ensures(
                mach_vm_write,
                (TASK_SELF, address as u64, data, data@.len() as u32),
                kr,
            ) && kern_outcome(r, kr),
{
    let count = data.len() as u32;
    let kr = mach_vm_write(TASK_SELF, address as u64, data, count);
    if kr == KERN_SUCCESS {
        Ok(())
    } else {
        Err(Error::VirtualMemoryError)
    }
}

} // verus!

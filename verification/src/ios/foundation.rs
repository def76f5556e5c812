//! Foundation integer types and constants. (The floating-point geometry types
//! stay with the platform glue.)

use vstd::prelude::*;

verus! {

pub type NSInteger = i64;
pub type NSUInteger = u32;

/// A range: a location and a length.
#[derive(Debug, Clone, Copy, PartialEq, Eq, Structural)]
pub struct NSRange {
    pub location: u32,
    pub length: u32,
}

impl NSRange {
    /// The range at `location` of `length` elements.
    pub fn new(location: u32, length: u32) -> (r: Self)
        ensures
            r.location == location && r.length == length,
    {
        NSRange { location, length }
    }
}

pub const NSOrderedAscending: i64 = -1;
pub const NSOrderedSame: i64 = 0;
pub const NSOrderedDescending: i64 = 1;

pub const NSASCIIStringEncoding: u32 = 1;
pub const NSUTF8StringEncoding: u32 = 4;
pub const NSUTF16StringEncoding: u32 = 10;
pub const NSUTF32StringEncoding: u32 = 0x8c000100;

/// Block descriptor header.
pub struct Block_descriptor_1 {
    pub reserved: u32,
    pub size: u32,
}

/// Block literal: class, flags, invoke function and descriptor (addresses).
pub struct Block_literal_1 {
    pub isa: usize,
    pub flags: i32,
    pub reserved: i32,
    pub invoke: usize,
    pub descriptor: usize,
}

} // verus!

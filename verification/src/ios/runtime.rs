//! Objective-C runtime types. Object, class, selector and method references are
//! addresses (`0` is null); the structures below are the runtime's opaque records.

use vstd::prelude::*;

verus! {

/// An object reference.
pub type id = usize;
/// A class reference.
pub type Class = usize;
/// A method reference.
pub type Method = usize;
/// An instance-variable reference.
pub type Ivar = usize;
/// A category reference.
pub type Category = usize;
/// A property reference.
pub type objc_property_t = usize;
/// A selector reference.
pub type SEL = usize;
/// A method implementation.
pub type IMP = usize;

/// Association policies.
pub const OBJC_ASSOCIATION_ASSIGN: u32 = 0;
pub const OBJC_ASSOCIATION_RETAIN_NONATOMIC: u32 = 1;
pub const OBJC_ASSOCIATION_COPY_NONATOMIC: u32 = 3;
pub const OBJC_ASSOCIATION_RETAIN: u32 = 0o1401;
pub const OBJC_ASSOCIATION_COPY: u32 = 0o1403;

/// Opaque class record.
pub struct objc_class {
    _private: [u8; 0],
}

/// Opaque object record.
pub struct objc_object {
    _private: [u8; 0],
}

/// Opaque method record.
pub struct objc_method {
    _private: [u8; 0],
}

/// Opaque instance-variable record.
pub struct objc_ivar {
    _private: [u8; 0],
}

/// Opaque category record.
pub struct objc_category {
    _private: [u8; 0],
}

/// Opaque property record.
pub struct objc_property {
    _private: [u8; 0],
}

/// Opaque selector record.
pub struct objc_selector {
    _private: [u8; 0],
}

/// Opaque protocol record.
pub struct Protocol {
    _private: [u8; 0],
}

/// Description of a method: its selector and the address of its type encoding.
pub struct objc_method_description {
    pub name: usize,
    pub types: usize,
}

/// A property attribute: addresses of its name and value strings.
pub struct objc_property_attribute_t {
    pub name: usize,
    pub value: usize,
}

/// Receiver and superclass of a message sent to `super`.
pub struct objc_super {
    pub receiver: usize,
    pub super_class: usize,
}

} // verus!

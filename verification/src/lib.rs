//! Safe, verified bindings to the ElleKit hooking framework.
//!
//! ElleKit hooks C functions and Objective-C methods on iOS and macOS
//! (ARM64 and ARM64e with pointer authentication). This crate holds the
//! decision logic of the bindings: argument checks, request construction,
//! interpretation of what the framework answers, and error mapping.
//!
//! Every call into the C framework is handed in by the caller as a closure
//! (the platform glue performs the actual foreign call). Addresses are carried
//! as `usize` values, `0` standing for the null pointer, so each function is
//! verified for every answer the framework may give.

#![allow(non_camel_case_types)]
#![allow(non_upper_case_globals)]

pub mod codesign;
pub mod cpu;
pub mod error;
pub mod hook;
pub mod image;
pub mod ios;
pub mod memory;
pub mod objc;
pub mod pac;
pub mod sys;
pub mod util;
pub mod version;

pub use error::{Error, Result};
pub use hook::{FunctionHook, FunctionHookBatch};
pub use image::Image;

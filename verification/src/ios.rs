//! Plain-value model of the iOS system types and constants that the bindings use:
//! Mach kernel values, Objective-C runtime types, and Foundation and UIKit values.

pub mod mach;
pub mod runtime;
pub mod foundation;
pub mod uikit;

//! Objective-C method, class and instance-variable hooking.
//!
//! Classes, selectors, method implementations and names are carried as
//! addresses (`0` is null). Each operation receives the foreign call it needs
//! as a closure; its contract states which arguments the call receives and what
//! the operation returns for every answer of the call.

use vstd::prelude::*;
use crate::error::{Error, Result};

pub mod selector;
pub mod class;

verus! {

/// A handle to a hooked Objective-C message: it keeps the unhooked implementation.
#[derive(Debug)]
pub struct MessageHook {
    original: usize,
}

impl View for MessageHook {
    type V = usize;

    /// Address of the original method implementation.
    closed spec fn view(&self) -> usize {
        self.original
    }
}

/// What a message hook returns once the hook call answered `original`.
pub open spec fn message_outcome(r: Result<MessageHook>, original: usize) -> bool {
    if original == 0 {
        r == Err::<MessageHook, Error>(Error::Other("Message hook failed"))
    } else {
        r matches Ok(h) && h@ == original
    }
}

impl MessageHook {
    /// A message hook always holds the non-null unhooked implementation.
    #[verifier::type_invariant]
    closed spec fn holds_original(self) -> bool {
        self.original != 0
    }

    /// Hook the method `selector` of `class` with `replacement` through the
    /// Substrate API; `ms_hook_message_ex(class, selector, replacement)` answers
    /// the unhooked implementation.
    pub fn hook_message_ex<F>(class: usize, selector: usize, replacement: usize, ms_hook_message_ex: F) -> (r:
        Result<Self>) where F: FnOnce(usize, usize, usize) -> usize
        requires
            class != 0 && selector != 0 && replacement != 0 ==> call_requires(
                ms_hook_message_ex,
                (class, selector, replacement),
            ),
        ensures
            class == 0 || selector == 0 || replacement == 0 ==> r == Err::<Self, Error>(
                Error::NullPointer,
            ),
            class != 0 && selector != 0 && replacement != 0 ==> exists|original: usize|
                #[trigger] call_ensures(ms_hook_message_ex, (class, selector, replacement), original)
                    && message_outcome(r, original),
    {
        if class == 0 || selector == 0 || replacement == 0 {
            return Err(Error::NullPointer);
        }
        let original = ms_hook_message_ex(class, selector, replacement);
        if original == 0 {
            return Err(Error::Other("Message hook failed"));
        }
        Ok(MessageHook { original })
    }

    /// Hook the method `selector` of `class` with `replacement` through the
    /// libhooker API; `lb_hook_message(class, selector, replacement)` answers the
    /// unhooked implementation.
    pub fn hook_message<F>(class: usize, selector: usize, replacement: usize, lb_hook_message: F) -> (r:
        Result<Self>) where F: FnOnce(usize, usize, usize) -> usize
        requires
            class != 0 && selector != 0 && replacement != 0 ==> call_requires(
                lb_hook_message,
                (class, selector, replacement),
            ),
        ensures
            class == 0 || selector == 0 || replacement == 0 ==> r == Err::<Self, Error>(
                Error::NullPointer,
            ),
            class != 0 && selector != 0 && replacement != 0 ==> exists|original: usize|
                #[trigger] call_ensures(lb_hook_message, (class, selector, replacement), original)
                    && message_outcome(r, original),
    {
        if class == 0 || selector == 0 || replacement == 0 {
            return Err(Error::NullPointer);
        }
        let original = lb_hook_message(class, selector, replacement);
        if original == 0 {
            return Err(Error::Other("Message hook failed"));
        }
        Ok(MessageHook { original })
    }

    /// The original method implementation.
    pub fn original(&self) -> (r: usize)
        ensures
            r == self@,
            r != 0,
    {
        proof {
            use_type_invariant(self);
        }
        self.original
    }
}

/// Hook a whole class pair: the methods of `hook_class` replace those of
/// `target_class`, `base_class` being the original base class;
/// `ms_hook_class_pair(target_class, hook_class, base_class)` performs it.
pub fn hook_class_pair<F>(target_class: usize, hook_class: usize, base_class: usize, ms_hook_class_pair: F) -> (r:
    Result<()>) where F: FnOnce(usize, usize, usize)
    requires
        target_class != 0 && hook_class != 0 && base_class != 0 ==> call_requires(
            ms_hook_class_pair,
            (target_class, hook_class, base_class),
        ),
    ensures
        target_class == 0 || hook_class == 0 || base_class == 0 ==> r == Err::<(), Error>(
            Error::NullPointer,
        ),
        target_class != 0 && hook_class != 0 && base_class != 0 ==> r == Ok::<(), Error>(())
            && call_ensures(ms_hook_class_pair, (target_class, hook_class, base_class), ()),
{
    if target_class == 0 || hook_class == 0 || base_class == 0 {
        return Err(Error::NullPointer);
    }
    ms_hook_class_pair(target_class, hook_class, base_class);
    Ok(())
}

/// Locate the instance variable `name` of `class`; `ms_hook_ivar(class, name)`
/// answers the address of its offset.
pub fn hook_ivar<F>(class: usize, name: usize, ms_hook_ivar: F) -> (r: Result<usize>) where
    F: FnOnce(usize, usize) -> usize,
    requires
        class != 0 && name != 0 ==> call_requires(ms_hook_ivar, (class, name)),
    ensures
        class == 0 || name == 0 ==> r == Err::<usize, Error>(Error::NullPointer),
        class != 0 && name != 0 ==> exists|ivar: usize|
            #[trigger] call_ensures(ms_hook_ivar, (class, name), ivar) && (ivar == 0 ==> r == Err::<
                usize,
                Error,
            >(Error::Other("Instance variable not found"))) && (ivar != 0 ==> r == Ok::<usize, Error>(
                ivar,
            )),
{
    if class == 0 || name == 0 {
        return Err(Error::NullPointer);
    }
    let ivar = ms_hook_ivar(class, name);
    if ivar == 0 {
        return Err(Error::Other("Instance variable not found"));
    }
    Ok(ivar)
}

} // verus!

//! Human-readable messages for errors.

use vstd::prelude::*;
use vstd::string::StringSliceAdditionalSpecFns;
use vstd::utf8::valid_utf8;
use crate::error::{code_of_error, Error};
use crate::sys::LIBHOOKER_ERR;

verus! {

/// `core::str::from_utf8`, keeping the string on success.
///
/// Trusted: `from_utf8` succeeds exactly when the bytes are valid UTF-8 (as
/// `vstd::utf8::valid_utf8` defines it), and the string it then answers is made
/// of those very bytes.
#[verifier::external_body]
fn utf8_str(bytes: &'static [u8]) -> (r: Option<&'static str>)
    ensures
        r is Some <==> valid_utf8(bytes@),
        r matches Some(s) ==> s.spec_bytes() == bytes@,
{
    core::str::from_utf8(bytes).ok()
}

/// The message that `error_string` returns once `LHStrError` answered `reply`
/// (the bytes of its C string, or `None` for a null string).
pub open spec fn lh_message(reply: Option<&'static [u8]>, m: &'static str) -> bool {
    match reply {
        None => m@ == "Unknown error"@,
        Some(bytes) => if valid_utf8(bytes@) {
            m.spec_bytes() == bytes@
        } else {
            m@ == "Invalid UTF-8 in error message"@
        },
    }
}

/// Whether the error is one of libhooker's own failures, whose message libhooker gives.
pub open spec fn is_libhooker_failure(e: Error) -> bool {
    ||| e is SelectorNotFound
    ||| e is FunctionTooShort
    ||| e is BadInstructionAtStart
    ||| e is VirtualMemoryError
    ||| e is SymbolNotFound
}

/// The message libhooker gives for an error code. `lh_str_error(err)` answers the
/// bytes of `LHStrError`'s C string, or `None` when it answered a null string.
pub fn error_string<F>(err: LIBHOOKER_ERR, lh_str_error: F) -> (m: &'static str) where
    F: FnOnce(LIBHOOKER_ERR) -> Option<&'static [u8]>,
    requires
        call_requires(lh_str_error, (err,)),
    ensures
        exists|reply: Option<&'static [u8]>|
            #[trigger] call_ensures(lh_str_error, (err,), reply) && lh_message(reply, m),
{
    let reply = lh_str_error(err);
    match reply {
        None => "Unknown error",
        Some(bytes) => match utf8_str(bytes) {
            Some(s) => s,
            None => "Invalid UTF-8 in error message",
        },
    }
}

/// A human-readable message for an error: libhooker's own message for its
/// failures, the message of an `Other` error, and a fixed text otherwise.
pub fn error_message<F>(err: &Error, lh_str_error: F) -> (m: &'static str) where
    F: FnOnce(LIBHOOKER_ERR) -> Option<&'static [u8]>,
    requires
        is_libhooker_failure(*err) ==> call_requires(lh_str_error, (code_of_error(*err),)),
    ensures
        is_libhooker_failure(*err) ==> exists|reply: Option<&'static [u8]>|
            #[trigger] call_ensures(lh_str_error, (code_of_error(*err),), reply) && lh_message(
                reply,
                m,
            ),
        err matches Error::Other(msg) ==> m == msg,
        *err is NullPointer ==> m@ == "Null pointer provided"@,
        *err is Success || *err is InvalidUtf8 ==> m@ == "unknown error"@,
{
    match err {
        Error::SelectorNotFound
        | Error::FunctionTooShort
        | Error::BadInstructionAtStart
        | Error::VirtualMemoryError
        | Error::SymbolNotFound => {
            let code = err.to_libhooker_err();
            error_string(code, lh_str_error)
        },
        Error::Other(msg) => msg,
        Error::NullPointer => "Null pointer provided",
        _ => "unknown error",
    }
}

} // verus!

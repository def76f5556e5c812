//! Error type of the ElleKit bindings and its correspondence with libhooker codes.

use vstd::prelude::*;
use crate::sys::LIBHOOKER_ERR;

verus! {

/// Errors that the ElleKit operations report.
#[derive(Debug, Clone, Copy, PartialEq, Eq)]
pub enum Error {
    /// The operation completed successfully (not normally reported as an error).
    Success,
    /// Objective-C selector not found.
    SelectorNotFound,
    /// Function too short to hook safely.
    FunctionTooShort,
    /// Bad instruction at start of function.
    BadInstructionAtStart,
    /// Virtual memory operation failed.
    VirtualMemoryError,
    /// Symbol not found in image.
    SymbolNotFound,
    /// Null pointer provided where a valid pointer is expected.
    NullPointer,
    /// Invalid UTF-8 in a string.
    InvalidUtf8,
    /// Any other error, with its message.
    Other(&'static str),
}

/// Result of the ElleKit operations.
pub type Result<T> = core::result::Result<T, Error>;

/// Former name of [`Error`].
pub type ElleKitError = Error;

/// The error that corresponds to a libhooker code.
pub open spec fn error_of_code(err: LIBHOOKER_ERR) -> Error {
    match err {
        LIBHOOKER_ERR::LIBHOOKER_OK => Error::Success,
        LIBHOOKER_ERR::LIBHOOKER_ERR_SELECTOR_NOT_FOUND => Error::SelectorNotFound,
        LIBHOOKER_ERR::LIBHOOKER_ERR_SHORT_FUNC => Error::FunctionTooShort,
        LIBHOOKER_ERR::LIBHOOKER_ERR_BAD_INSN_AT_START => Error::BadInstructionAtStart,
        LIBHOOKER_ERR::LIBHOOKER_ERR_VM => Error::VirtualMemoryError,
        LIBHOOKER_ERR::LIBHOOKER_ERR_NO_SYMBOL => Error::SymbolNotFound,
    }
}

/// The libhooker code of an error; errors that libhooker does not know map to `LIBHOOKER_OK`.
pub open spec fn code_of_error(e: Error) -> LIBHOOKER_ERR {
    match e {
        Error::Success => LIBHOOKER_ERR::LIBHOOKER_OK,
        Error::SelectorNotFound => LIBHOOKER_ERR::LIBHOOKER_ERR_SELECTOR_NOT_FOUND,
        Error::FunctionTooShort => LIBHOOKER_ERR::LIBHOOKER_ERR_SHORT_FUNC,
        Error::BadInstructionAtStart => LIBHOOKER_ERR::LIBHOOKER_ERR_BAD_INSN_AT_START,
        Error::VirtualMemoryError => LIBHOOKER_ERR::LIBHOOKER_ERR_VM,
        Error::SymbolNotFound => LIBHOOKER_ERR::LIBHOOKER_ERR_NO_SYMBOL,
        _ => LIBHOOKER_ERR::LIBHOOKER_OK,
    }
}

/// Whether libhooker has a code of its own for the error (`Success` included).
pub open spec fn has_libhooker_code(e: Error) -> bool {
    ||| e is Success
    ||| e is SelectorNotFound
    ||| e is FunctionTooShort
    ||| e is BadInstructionAtStart
    ||| e is VirtualMemoryError
    ||| e is SymbolNotFound
}

/// The text by which an error displays itself.
pub open spec fn display_text(e: Error) -> Seq<char> {
    match e {
        Error::Success => "operation completed successfully"@,
        Error::SelectorNotFound => "Objective-C selector not found"@,
        Error::FunctionTooShort => "function too short to hook safely"@,
        Error::BadInstructionAtStart => "bad instruction at start of function"@,
        Error::VirtualMemoryError => "virtual memory operation failed"@,
        Error::SymbolNotFound => "symbol not found in image"@,
        Error::NullPointer => "null pointer provided"@,
        Error::InvalidUtf8 => "invalid UTF-8 in string"@,
        Error::Other(msg) => msg@,
    }
}

impl Error {
    /// Convert from a libhooker error code.
    pub fn from_libhooker_err(err: LIBHOOKER_ERR) -> (e: Self)
        ensures
            e == error_of_code(err),
            (e is Success) == (err.spec_code() == 0),
            (e is SelectorNotFound) == (err.spec_code() == 1),
            (e is FunctionTooShort) == (err.spec_code() == 2),
            (e is BadInstructionAtStart) == (err.spec_code() == 3),
            (e is VirtualMemoryError) == (err.spec_code() == 4),
            (e is SymbolNotFound) == (err.spec_code() == 5),
    {
        match err {
            LIBHOOKER_ERR::LIBHOOKER_OK => Error::Success,
            LIBHOOKER_ERR::LIBHOOKER_ERR_SELECTOR_NOT_FOUND => Error::SelectorNotFound,
            LIBHOOKER_ERR::LIBHOOKER_ERR_SHORT_FUNC => Error::FunctionTooShort,
            LIBHOOKER_ERR::LIBHOOKER_ERR_BAD_INSN_AT_START => Error::BadInstructionAtStart,
            LIBHOOKER_ERR::LIBHOOKER_ERR_VM => Error::VirtualMemoryError,
            LIBHOOKER_ERR::LIBHOOKER_ERR_NO_SYMBOL => Error::SymbolNotFound,
        }
    }

    /// Convert to a libhooker error code (`LIBHOOKER_OK` for errors libhooker does not know).
    pub fn to_libhooker_err(self) -> (c: LIBHOOKER_ERR)
        ensures
            c == code_of_error(self),
            c.spec_code() == (if self is SelectorNotFound {
                1i32
            } else if self is FunctionTooShort {
                2i32
            } else if self is BadInstructionAtStart {
                3i32
            } else if self is VirtualMemoryError {
                4i32
            } else if self is SymbolNotFound {
                5i32
            } else {
                0i32
            }),
    {
        match self {
            Error::Success => LIBHOOKER_ERR::LIBHOOKER_OK,
            Error::SelectorNotFound => LIBHOOKER_ERR::LIBHOOKER_ERR_SELECTOR_NOT_FOUND,
            Error::FunctionTooShort => LIBHOOKER_ERR::LIBHOOKER_ERR_SHORT_FUNC,
            Error::BadInstructionAtStart => LIBHOOKER_ERR::LIBHOOKER_ERR_BAD_INSN_AT_START,
            Error::VirtualMemoryError => LIBHOOKER_ERR::LIBHOOKER_ERR_VM,
            Error::SymbolNotFound => LIBHOOKER_ERR::LIBHOOKER_ERR_NO_SYMBOL,
            _ => LIBHOOKER_ERR::LIBHOOKER_OK,
        }
    }

    /// The text by which the error displays itself.
    pub fn message(&self) -> (m: &'static str)
        ensures
            m@ == display_text(*self),
    {
        match self {
            Error::Success => "operation completed successfully",
            Error::SelectorNotFound => "Objective-C selector not found",
            Error::FunctionTooShort => "function too short to hook safely",
            Error::BadInstructionAtStart => "bad instruction at start of function",
            Error::VirtualMemoryError => "virtual memory operation failed",
            Error::SymbolNotFound => "symbol not found in image",
            Error::NullPointer => "null pointer provided",
            Error::InvalidUtf8 => "invalid UTF-8 in string",
            Error::Other(msg) => msg,
        }
    }
}

/// Converting a libhooker code to an error and back gives the same code.
pub proof fn lemma_code_round_trip(err: LIBHOOKER_ERR)
    ensures
        code_of_error(error_of_code(err)) == err,
{
}

/// Converting an error that libhooker knows to its code and back gives the same error;
/// every other error converts to `LIBHOOKER_OK`.
pub proof fn lemma_error_round_trip(e: Error)
    ensures
        has_libhooker_code(e) ==> error_of_code(code_of_error(e)) == e,
        !has_libhooker_code(e) ==> code_of_error(e) == LIBHOOKER_ERR::LIBHOOKER_OK,
{
}

/// Each libhooker code converts to the error of the same meaning, read from the
/// code's C value: 0 is success, 1 a missing selector, 2 a function too short to
/// hook, 3 a bad first instruction, 4 a virtual-memory failure, 5 a missing symbol.
pub proof fn lemma_error_of_code_meaning(err: LIBHOOKER_ERR)
    ensures
        (error_of_code(err) is Success) == (err.spec_code() == 0),
        (error_of_code(err) is SelectorNotFound) == (err.spec_code() == 1),
        (error_of_code(err) is FunctionTooShort) == (err.spec_code() == 2),
        (error_of_code(err) is BadInstructionAtStart) == (err.spec_code() == 3),
        (error_of_code(err) is VirtualMemoryError) == (err.spec_code() == 4),
        (error_of_code(err) is SymbolNotFound) == (err.spec_code() == 5),
{
}

/// Each error converts to the libhooker code of the same meaning (by its C value),
/// and an error that libhooker has no code for converts to 0 (success).
pub proof fn lemma_code_of_error_meaning(e: Error)
    ensures
        e is SelectorNotFound ==> code_of_error(e).spec_code() == 1,
        e is FunctionTooShort ==> code_of_error(e).spec_code() == 2,
        e is BadInstructionAtStart ==> code_of_error(e).spec_code() == 3,
        e is VirtualMemoryError ==> code_of_error(e).spec_code() == 4,
        e is SymbolNotFound ==> code_of_error(e).spec_code() == 5,
        e is Success || e is NullPointer || e is InvalidUtf8 || e is Other ==> code_of_error(
            e,
        ).spec_code() == 0,
{
}

/// Distinct libhooker codes convert to distinct errors.
pub proof fn lemma_error_of_code_injective(a: LIBHOOKER_ERR, b: LIBHOOKER_ERR)
    ensures
        error_of_code(a) == error_of_code(b) ==> a == b,
{
}

} // verus!

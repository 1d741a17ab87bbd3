//! Kernel error codes.

use vstd::prelude::*;

verus! {

/// An error of the kernel. Every kernel interface reports it as a nonzero `i32`.
#[derive(Clone, Copy, Debug, PartialEq, Eq, Structural)]
pub enum LkError {
    Generic,
    NotFound,
    NoMemory,
    AlreadyStarted,
    InvalidArgs,
    NotEnoughBuffer,
    TimedOut,
    AlreadyExists,
    NotAllowed,
    NotSupported,
    BadState,
    BadLen,
    OutOfRange,
    NotConfigured,
    /// A code without a name of its own here.
    Unknown(i32),
}

/// The status code of a call that succeeded.
pub const NO_ERROR: i32 = 0;

impl LkError {
    /// The code that the kernel uses for this error.
    pub open spec fn code_spec(self) -> int {
        match self {
            LkError::Generic => -1,
            LkError::NotFound => -2,
            LkError::NoMemory => -5,
            LkError::AlreadyStarted => -6,
            LkError::InvalidArgs => -8,
            LkError::NotEnoughBuffer => -9,
            LkError::TimedOut => -13,
            LkError::AlreadyExists => -14,
            LkError::NotAllowed => -17,
            LkError::NotSupported => -24,
            LkError::BadState => -31,
            LkError::BadLen => -32,
            LkError::OutOfRange => -37,
            LkError::NotConfigured => -38,
            LkError::Unknown(code) => code as int,
        }
    }

    /// Whether `code` belongs to an error that has a name.
    pub open spec fn is_named_code(code: i32) -> bool {
        ||| code == -1
        ||| code == -2
        ||| code == -5
        ||| code == -6
        ||| code == -8
        ||| code == -9
        ||| code == -13
        ||| code == -14
        ||| code == -17
        ||| code == -24
        ||| code == -31
        ||| code == -32
        ||| code == -37
        ||| code == -38
    }

    /// The error that the kernel means by a nonzero `code`.
    pub open spec fn of_code(code: i32) -> LkError {
        if code == -1 {
            LkError::Generic
        } else if code == -2 {
            LkError::NotFound
        } else if code == -5 {
            LkError::NoMemory
        } else if code == -6 {
            LkError::AlreadyStarted
        } else if code == -8 {
            LkError::InvalidArgs
        } else if code == -9 {
            LkError::NotEnoughBuffer
        } else if code == -13 {
            LkError::TimedOut
        } else if code == -14 {
            LkError::AlreadyExists
        } else if code == -17 {
            LkError::NotAllowed
        } else if code == -24 {
            LkError::NotSupported
        } else if code == -31 {
            LkError::BadState
        } else if code == -32 {
            LkError::BadLen
        } else if code == -37 {
            LkError::OutOfRange
        } else if code == -38 {
            LkError::NotConfigured
        } else {
            LkError::Unknown(code)
        }
    }

    /// The code that the kernel uses for this error.
    pub fn code(self) -> (code: i32)
        ensures
            code == self.code_spec(),
    {
        match self {
            LkError::Generic => -1,
            LkError::NotFound => -2,
            LkError::NoMemory => -5,
            LkError::AlreadyStarted => -6,
            LkError::InvalidArgs => -8,
            LkError::NotEnoughBuffer => -9,
            LkError::TimedOut => -13,
            LkError::AlreadyExists => -14,
            LkError::NotAllowed => -17,
            LkError::NotSupported => -24,
            LkError::BadState => -31,
            LkError::BadLen => -32,
            LkError::OutOfRange => -37,
            LkError::NotConfigured => -38,
            LkError::Unknown(code) => code,
        }
    }

    /// Turns the return value of a kernel call into a `Result`: zero is success, anything else is
    /// the error with that code.
    pub fn from_lk(ret: i32) -> (result: Result<(), LkError>)
        ensures
            ret == NO_ERROR ==> result == Ok::<(), LkError>(()),
            ret != NO_ERROR ==> result == Err::<(), LkError>(LkError::of_code(ret)),
    {
        match ret {
            0 => Ok(()),
            -1 => Err(LkError::Generic),
            -2 => Err(LkError::NotFound),
            -5 => Err(LkError::NoMemory),
            -6 => Err(LkError::AlreadyStarted),
            -8 => Err(LkError::InvalidArgs),
            -9 => Err(LkError::NotEnoughBuffer),
            -13 => Err(LkError::TimedOut),
            -14 => Err(LkError::AlreadyExists),
            -17 => Err(LkError::NotAllowed),
            -24 => Err(LkError::NotSupported),
            -31 => Err(LkError::BadState),
            -32 => Err(LkError::BadLen),
            -37 => Err(LkError::OutOfRange),
            -38 => Err(LkError::NotConfigured),
            _ => Err(LkError::Unknown(ret)),
        }
    }
}

/// The status code that reports `result` to the kernel.
pub open spec fn status_code_of(result: Result<(), LkError>) -> int {
    match result {
        Ok(()) => 0,
        Err(e) => e.code_spec(),
    }
}

/// The status code that reports `result` to the kernel, for a thread that ends with it.
pub fn status_code(result: Result<(), LkError>) -> (code: i32)
    ensures
        code == status_code_of(result),
{
    match result {
        Ok(()) => NO_ERROR,
        Err(e) => e.code(),
    }
}

/// Reading an error back from its code gives the error, as long as `Unknown` is kept for codes
/// without a name.
pub proof fn law_error_code_round_trip(error: LkError)
    requires
        error matches LkError::Unknown(code) ==> !LkError::is_named_code(code),
    ensures
        LkError::of_code(error.code_spec() as i32) == error,
{
}

/// Every code is the code of the error that it is read as.
pub proof fn law_code_error_round_trip(code: i32)
    ensures
        LkError::of_code(code).code_spec() == code,
{
}

} // verus!

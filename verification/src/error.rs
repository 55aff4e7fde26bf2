//! Status codes of the runtime and the error kinds they stand for.

use vstd::prelude::*;

verus! {

/// The status code with which the runtime reports success.
pub const STATUS_SUCCESS: u32 = 0;

/// The status code with which the runtime reports that memory ran out.
pub const STATUS_OUT_OF_MEMORY: u32 = 0x0001_0000;

/// The status code with which the runtime reports an index or a range
/// outside the current bounds.
pub const STATUS_INVALID_VALUE: u32 = 0x0001_0001;

/// Why an operation on a container failed.
#[derive(Clone, Copy, Debug, PartialEq, Eq, Structural)]
pub enum Error {
    /// Capacity growth could not be satisfied.
    AllocationFailure,
    /// An index or a range lies outside the current bounds.
    InvalidArgument,
    /// Any other status of the runtime, carried as it came.
    RuntimeError(u32),
}

/// The result of a fallible operation.
pub type Result<T> = core::result::Result<T, Error>;

/// The error kind that a failing status code stands for.
pub open spec fn error_of_status(code: u32) -> Error {
    if code == STATUS_OUT_OF_MEMORY {
        Error::AllocationFailure
    } else if code == STATUS_INVALID_VALUE {
        Error::InvalidArgument
    } else {
        Error::RuntimeError(code)
    }
}

/// The status code that reports an error kind.
pub open spec fn status_of_error(e: Error) -> u32 {
    match e {
        Error::AllocationFailure => STATUS_OUT_OF_MEMORY,
        Error::InvalidArgument => STATUS_INVALID_VALUE,
        Error::RuntimeError(code) => code,
    }
}

/// What a status code means as a result.
pub open spec fn result_of_status(code: u32) -> Result<()> {
    if code == STATUS_SUCCESS {
        Ok(())
    } else {
        Err(error_of_status(code))
    }
}

impl Error {
    /// Names the error kind of a failing status code.
    pub fn from_status(code: u32) -> (e: Error)
        ensures
            e == error_of_status(code),
    {
        if code == STATUS_OUT_OF_MEMORY {
            Error::AllocationFailure
        } else if code == STATUS_INVALID_VALUE {
            Error::InvalidArgument
        } else {
            Error::RuntimeError(code)
        }
    }

    /// The status code that reports this error kind.
    pub fn status(&self) -> (code: u32)
        ensures
            code == status_of_error(*self),
    {
        match self {
            Error::AllocationFailure => STATUS_OUT_OF_MEMORY,
            Error::InvalidArgument => STATUS_INVALID_VALUE,
            Error::RuntimeError(code) => *code,
        }
    }
}

/// Turns a status code of the runtime into a result: success for the
/// success code, and otherwise the error kind of the code.
pub fn errcode_to_result(code: u32) -> (r: Result<()>)
    ensures
        r == result_of_status(code),
{
    if code == STATUS_SUCCESS {
        Ok(())
    } else {
        Err(Error::from_status(code))
    }
}

/// A failing status code is found again in the error it became.
pub proof fn law_status_round_trip(code: u32)
    requires
        code != STATUS_SUCCESS,
    ensures
        status_of_error(error_of_status(code)) == code,
{
}

} // verus!

//! Errors reported by the allocator's control interface.
use vstd::prelude::*;

verus! {

/// `EPERM`: a void value was read or written, or a read-only value written.
pub const EPERM: i32 = 1;

/// `ENOENT`: the key or path names no node of the namespace.
pub const ENOENT: i32 = 2;

/// `EAGAIN`: the allocator could not allocate memory to serve the request.
pub const EAGAIN: i32 = 11;

/// `EFAULT`: an interface with side effects failed.
pub const EFAULT: i32 = 14;

/// `EINVAL`: a value of the wrong size was passed or asked for.
pub const EINVAL: i32 = 22;

/// A recoverable failure of a control call, as the native layer reports it.
#[derive(Clone, Copy, Debug, PartialEq, Eq, Structural)]
pub enum Error {
    /// The value is void or read-only.
    PermissionDenied,
    /// No node of the namespace has this key or path.
    NotFound,
    /// The allocator ran out of memory while serving the call.
    TryAgain,
    /// A call with side effects failed.
    Fault,
    /// The key is malformed, or a value has the wrong size.
    InvalidArgument,
    /// Any other non-zero code.
    Other(i32),
}

/// The error that a non-zero return code stands for.
pub open spec fn error_of(code: i32) -> Error {
    if code == EPERM {
        Error::PermissionDenied
    } else if code == ENOENT {
        Error::NotFound
    } else if code == EAGAIN {
        Error::TryAgain
    } else if code == EFAULT {
        Error::Fault
    } else if code == EINVAL {
        Error::InvalidArgument
    } else {
        Error::Other(code)
    }
}

/// The return code that an error stands for.
pub open spec fn code_of(e: Error) -> i32 {
    match e {
        Error::PermissionDenied => EPERM,
        Error::NotFound => ENOENT,
        Error::TryAgain => EAGAIN,
        Error::Fault => EFAULT,
        Error::InvalidArgument => EINVAL,
        Error::Other(c) => c,
    }
}

/// What a control call's return code means: zero is success.
pub open spec fn result_of(code: i32) -> Result<(), Error> {
    if code == 0 {
        Ok(())
    } else {
        Err(error_of(code))
    }
}

impl Error {
    /// The error for a non-zero return code.
    pub fn from_code(code: i32) -> (r: Error)
        requires
            code != 0,
        ensures
            r == error_of(code),
    {
        if code == EPERM {
            Error::PermissionDenied
        } else if code == ENOENT {
            Error::NotFound
        } else if code == EAGAIN {
            Error::TryAgain
        } else if code == EFAULT {
            Error::Fault
        } else if code == EINVAL {
            Error::InvalidArgument
        } else {
            Error::Other(code)
        }
    }

    /// The return code of the native call that failed.
    pub fn code(&self) -> (r: i32)
        ensures
            r == code_of(*self),
    {
        match self {
            Error::PermissionDenied => EPERM,
            Error::NotFound => ENOENT,
            Error::TryAgain => EAGAIN,
            Error::Fault => EFAULT,
            Error::InvalidArgument => EINVAL,
            Error::Other(c) => *c,
        }
    }
}

/// Turns a control call's return code into a `Result`.
pub fn cvt(ret: i32) -> (r: Result<(), Error>)
    ensures
        r == result_of(ret),
        r is Ok <==> ret == 0,
{
    if ret == 0 {
        Ok(())
    } else {
        Err(Error::from_code(ret))
    }
}

/// A failed call's code is recovered from the error it was turned into.
pub proof fn lemma_code_round_trip(code: i32)
    requires
        code != 0,
    ensures
        code_of(error_of(code)) == code,
        result_of(code) == Err::<(), Error>(error_of(code)),
{
}

} // verus!

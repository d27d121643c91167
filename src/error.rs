//! The errors that the library reports.
use vstd::prelude::*;

verus! {

/// Linux's number for an interrupted system call.
pub const EINTR: i32 = 4;

/// Linux's number for "try again", which is also its "would block".
pub const EAGAIN: i32 = 11;

/// Linux's number for an I/O error.
pub const EIO: i32 = 5;

/// Linux's number for an invalid argument.
pub const EINVAL: i32 = 22;

/// What an operation of this library reports when it fails.
#[derive(PartialEq, Eq, Structural, Clone, Copy, Debug)]
pub enum Error {
    /// A system call failed with this raw OS error number.
    Os(i32),
    /// A signal was asked for a process whose status was already reaped:
    /// its pid may belong to another process by now.
    AlreadyReaped,
    /// An argument, a working directory or an environment entry held a NUL byte.
    NulByte,
    /// A write stored fewer bytes than it was handed.
    ShortWrite,
    /// The child wrote something to the control pipe that is no failure record.
    ControlProtocol,
}

impl Error {
    /// The error number that a child writes to the control pipe for this
    /// error: a system call's own number, `EIO` for a short write, `EINVAL`
    /// for the rest.
    pub fn child_errno(&self) -> (r: i32)
        ensures
            r == (match *self {
                Error::Os(code) => code,
                Error::ShortWrite => EIO,
                _ => EINVAL,
            }),
    {
        match *self {
            Error::Os(code) => code,
            Error::ShortWrite => EIO,
            _ => EINVAL,
        }
    }

    /// The raw OS error number, where the error came from a system call.
    pub fn raw_os_error(&self) -> (r: Option<i32>)
        ensures
            r == (match *self {
                Error::Os(code) => Some(code),
                _ => None,
            }),
    {
        match *self {
            Error::Os(code) => Some(code),
            _ => None,
        }
    }
}

} // verus!

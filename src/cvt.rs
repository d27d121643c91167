//! Turning the `-1` of a failed system call into an error.
use vstd::prelude::*;

use crate::error::{Error, EINTR};

verus! {

/// Integer results of system calls, where `-1` reports a failure.
pub trait IsMinusOne: Sized {
    spec fn minus_one(&self) -> bool;

    fn is_minus_one(&self) -> (r: bool)
        ensures
            r == self.minus_one(),
    ;
}

impl IsMinusOne for i8 {
    open spec fn minus_one(&self) -> bool {
        *self == -1
    }

    fn is_minus_one(&self) -> (r: bool) {
        *self == -1
    }
}

impl IsMinusOne for i16 {
    open spec fn minus_one(&self) -> bool {
        *self == -1
    }

    fn is_minus_one(&self) -> (r: bool) {
        *self == -1
    }
}

impl IsMinusOne for i32 {
    open spec fn minus_one(&self) -> bool {
        *self == -1
    }

    fn is_minus_one(&self) -> (r: bool) {
        *self == -1
    }
}

impl IsMinusOne for i64 {
    open spec fn minus_one(&self) -> bool {
        *self == -1
    }

    fn is_minus_one(&self) -> (r: bool) {
        *self == -1
    }
}

impl IsMinusOne for isize {
    open spec fn minus_one(&self) -> bool {
        *self == -1
    }

    fn is_minus_one(&self) -> (r: bool) {
        *self == -1
    }
}

/// Relies on nix::errno::errno: the calling thread's current `errno`.
#[verifier::external_body]
fn last_os_error() -> (r: i32) {
    nix::errno::errno()
}

/// Turns the `-1` of a failed system call into the error that `errno` holds,
/// and hands any other value back unchanged.
pub fn cvt<T: IsMinusOne>(t: T) -> (r: Result<T, Error>)
    ensures
        t.minus_one() <==> r is Err,
        !t.minus_one() ==> r == Ok::<T, Error>(t),
        r matches Err(e) ==> e is Os,
{
    if t.is_minus_one() {
        Err(Error::Os(last_os_error()))
    } else {
        Ok(t)
    }
}

/// `Ok` for the 0 of a call that reports its error number as its result,
/// the error for any other value.
pub fn cvt_nz(error: i32) -> (r: Result<(), Error>)
    ensures
        error == 0 <==> r is Ok,
        error != 0 ==> r == Err::<(), Error>(Error::Os(error)),
{
    if error == 0 {
        Ok(())
    } else {
        Err(Error::Os(error))
    }
}

/// Calls `f` as `cvt` would, and calls it again for as long as it fails with
/// an interrupted call; after `u64::MAX` interrupted calls in a row it gives
/// up and reports the interruption.
pub fn cvt_r<T: IsMinusOne, F: Fn() -> T>(f: F) -> (r: Result<T, Error>)
    requires
        f.requires(()),
    ensures
        r matches Ok(v) ==> f.ensures((), v) && !v.minus_one(),
        (forall|v: T| f.ensures((), v) ==> !v.minus_one()) ==> r is Ok,
        r matches Err(e) ==> e is Os,
{
    let mut tries: u64 = u64::MAX;
    loop
        invariant
            f.requires(()),
        decreases tries,
    {
        let v = f();
        match cvt(v) {
            Err(Error::Os(code)) if code == EINTR && tries > 0 => {
                tries = tries - 1;
            },
            other => {
                return other;
            },
        }
    }
}

} // verus!

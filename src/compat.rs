use vstd::prelude::*;
use crate::error::{Error, os_error_spec};
use crate::platform::Os;

verus! {

/// Integer results of system calls, where `-1` is the failure sentinel.
pub trait IsMinusOne: Sized {
    spec fn minus_one(&self) -> bool;

    fn is_minus_one(&self) -> (r: bool)
        ensures
            r == self.minus_one(),
    ;
}

impl IsMinusOne for i8 {
    open spec fn minus_one(&self) -> bool {
        *self == -1
    }

    fn is_minus_one(&self) -> (r: bool) {
        *self == -1
    }
}

impl IsMinusOne for i16 {
    open spec fn minus_one(&self) -> bool {
        *self == -1
    }

    fn is_minus_one(&self) -> (r: bool) {
        *self == -1
    }
}

impl IsMinusOne for i32 {
    open spec fn minus_one(&self) -> bool {
        *self == -1
    }

    fn is_minus_one(&self) -> (r: bool) {
        *self == -1
    }
}

impl IsMinusOne for i64 {
    open spec fn minus_one(&self) -> bool {
        *self == -1
    }

    fn is_minus_one(&self) -> (r: bool) {
        *self == -1
    }
}

impl IsMinusOne for isize {
    open spec fn minus_one(&self) -> bool {
        *self == -1
    }

    fn is_minus_one(&self) -> (r: bool) {
        *self == -1
    }
}

/// Turns the return value of a system call into a result: the sentinel `-1`
/// becomes the error that `errno` (read right after the call) describes,
/// any other value is handed back.
pub fn cvt<T: IsMinusOne>(t: T, errno: i32, os: Os) -> (r: Result<T, Error>)
    ensures
        t.minus_one() ==> r == Err::<T, Error>(os_error_spec(errno, os)),
        !t.minus_one() ==> r == Ok::<T, Error>(t),
{
    if t.is_minus_one() {
        Err(Error::from_os(errno, os))
    } else {
        Ok(t)
    }
}

/// Access to the native value that a library type wraps.
pub trait AsInner<Inner: ?Sized> {
    fn as_inner(&self) -> &Inner;
}

/// Construction of a library type from the native value it wraps.
pub trait FromInner<Inner>: Sized {
    fn from_inner(inner: Inner) -> Self;
}

/// Giving up a library type for the native value it wraps.
pub trait IntoInner<Inner>: Sized {
    fn into_inner(self) -> Inner;
}

} // verus!

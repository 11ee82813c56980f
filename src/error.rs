use vstd::prelude::*;
use crate::platform::Os;

verus! {

/// The coarse category of a failure.
#[derive(Clone, Copy, Debug, PartialEq, Eq, Structural)]
pub enum ErrorKind {
    PermissionDenied,
    WouldBlock,
    TimedOut,
    Interrupted,
    InvalidInput,
    InvalidData,
    Other,
}

/// A failure: its category, and the native error code where the operating
/// system reported one.
#[derive(Clone, Copy, Debug, PartialEq, Eq, Structural)]
pub struct Error {
    pub kind: ErrorKind,
    pub code: Option<i32>,
}

/// The category of a native `errno` value on the given operating system.
pub open spec fn kind_of_code(code: i32, os: Os) -> ErrorKind {
    let bsd = os != Os::Linux;
    if code == 1 || code == 13 {
        ErrorKind::PermissionDenied
    } else if code == 4 {
        ErrorKind::Interrupted
    } else if code == 22 {
        ErrorKind::InvalidInput
    } else if code == (if bsd { 35i32 } else { 11i32 }) {
        ErrorKind::WouldBlock
    } else if code == (if bsd { 60i32 } else { 110i32 }) {
        ErrorKind::TimedOut
    } else {
        ErrorKind::Other
    }
}

/// The error that a failed system call reports through `errno`.
pub open spec fn os_error_spec(code: i32, os: Os) -> Error {
    Error { kind: kind_of_code(code, os), code: Some(code) }
}

impl Error {
    /// Classifies a native error code: `EPERM`/`EACCES`, `EINTR`, `EINVAL`,
    /// `EAGAIN` and `ETIMEDOUT` have categories of their own.
    pub fn from_os(code: i32, os: Os) -> (r: Error)
        ensures
            r == os_error_spec(code, os),
    {
        let bsd = match os {
            Os::Linux => false,
            _ => true,
        };
        let again: i32 = if bsd { 35 } else { 11 };
        let timed_out: i32 = if bsd { 60 } else { 110 };
        let kind = if code == 1 || code == 13 {
            ErrorKind::PermissionDenied
        } else if code == 4 {
            ErrorKind::Interrupted
        } else if code == 22 {
            ErrorKind::InvalidInput
        } else if code == again {
            ErrorKind::WouldBlock
        } else if code == timed_out {
            ErrorKind::TimedOut
        } else {
            ErrorKind::Other
        };
        Error { kind, code: Some(code) }
    }

    /// An error for an argument that the library rejects before any system
    /// call is made.
    pub fn invalid_input() -> (r: Error)
        ensures
            r == (Error { kind: ErrorKind::InvalidInput, code: None }),
    {
        Error { kind: ErrorKind::InvalidInput, code: None }
    }

    /// An error for a value handed back by the system that the library cannot
    /// read.
    pub fn invalid_data() -> (r: Error)
        ensures
            r == (Error { kind: ErrorKind::InvalidData, code: None }),
    {
        Error { kind: ErrorKind::InvalidData, code: None }
    }

    pub fn kind(&self) -> (r: ErrorKind)
        ensures
            r == self.kind,
    {
        self.kind
    }

    pub fn raw_os_error(&self) -> (r: Option<i32>)
        ensures
            r == self.code,
    {
        self.code
    }
}

} // verus!

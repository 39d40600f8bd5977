//! The one kind of failure: an operation of the operating system failed.

use vstd::prelude::*;
use crate::platform::{einval, invalid_argument};

verus! {

/// An error reported by the operating system, held by its native number.
///
/// `code` is `None` only for an error that carries no number.
#[derive(Clone, Copy, Debug, PartialEq, Eq, Structural)]
pub struct OsError {
    pub code: Option<i32>,
}

impl OsError {
    /// Whether this error says that the kernel does not know the command or
    /// argument it was given.
    pub open spec fn spec_is_unsupported(&self) -> bool {
        self.code == Some(invalid_argument())
    }

    /// The error with the given native number.
    pub fn from_raw_os_error(code: i32) -> (error: OsError)
        ensures
            error == (OsError { code: Some(code) }),
    {
        OsError { code: Some(code) }
    }

    /// The native number of this error.
    pub fn raw_os_error(&self) -> (code: Option<i32>)
        ensures
            code == self.code,
    {
        self.code
    }

    /// The error that the operating system reported last on this thread.
    /// Which one that is depends on what the thread did before.
    fn last_os_error() -> (error: OsError) {
        let raw = std::io::Error::last_os_error();
        OsError { code: raw.raw_os_error() }
    }

    /// Whether this error says that the kernel does not know the command or
    /// argument it was given, as opposed to failing on a known one.
    #[verifier::when_used_as_spec(spec_is_unsupported)]
    pub fn is_unsupported(&self) -> (unsupported: bool)
        ensures
            unsupported == self.spec_is_unsupported(),
    {
        match self.code {
            Some(code) => code == einval(),
            None => false,
        }
    }
}

/// Turns the return value of a kernel call into a `Result`: `-1` is the
/// failure marker and gives the error that the operating system reported
/// last; every other value is handed on unchanged.
pub fn check_ret(ret: i32) -> (reply: Result<i32, OsError>)
    ensures
        ret != -1 ==> reply == Ok::<i32, OsError>(ret),
        ret == -1 ==> reply is Err,
{
    if ret == -1 {
        Err(OsError::last_os_error())
    } else {
        Ok(ret)
    }
}

} // verus!

//! What the library takes from the platform: two constants of `libc` and the
//! error that the operating system reported last. Nothing in this file is
//! proved; each contract is stated from the platform's own definitions.

use vstd::prelude::*;

verus! {

/// The descriptor flag that suppresses inheritance across exec, as a number.
pub open spec fn close_on_exec_bit() -> i32 {
    1
}

/// The error number by which the kernel rejects a command or argument that
/// it does not know.
pub open spec fn invalid_argument() -> i32 {
    22
}

/// Reads `libc::FD_CLOEXEC`. On every Unix target of `libc` but Redox the
/// constant is defined as `0x1`; the contract claims that value.
#[verifier::external_body]
pub(crate) fn fd_cloexec() -> (bit: i32)
    ensures
        bit == close_on_exec_bit(),
{
    libc::FD_CLOEXEC
}

/// Reads `libc::EINVAL`. On Linux, Android, macOS and the BSDs the constant
/// is defined as `22`; the contract claims that value.
#[verifier::external_body]
pub(crate) fn einval() -> (code: i32)
    ensures
        code == invalid_argument(),
{
    libc::EINVAL
}

/// `std::io::Error`, carried as an opaque value from the call that reads the
/// last operating-system error to the call that extracts its number.
#[verifier::external_type_specification]
#[verifier::external_body]
pub struct ExIoError(std::io::Error);

/// `std::io::Error::last_os_error` reads the calling thread's error
/// indicator. Its result depends on what the thread did before, so nothing
/// is claimed of it.
pub assume_specification[ std::io::Error::last_os_error ]() -> (error: std::io::Error);

/// `std::io::Error::raw_os_error` gives the operating system's number for an
/// error, where the error has one. Nothing is claimed of the result.
pub assume_specification[ std::io::Error::raw_os_error ](error: &std::io::Error) -> (code: Option<i32>);

} // verus!

//! The requests that the library makes of the kernel.

use vstd::prelude::*;

verus! {

/// One call into the kernel, named by what it does. The library hands these
/// out; whoever runs the library performs them and hands back what the
/// kernel returned.
#[derive(Clone, Copy, Debug, PartialEq, Eq, Structural)]
pub enum Syscall {
    /// Duplicate `fd` onto the lowest free descriptor that is at least `min`,
    /// with the close-on-exec flag set on the new descriptor in the same step.
    DuplicateCloseOnExec { fd: i32, min: i32 },
    /// Duplicate `fd` onto the lowest free descriptor that is at least `min`.
    /// The new descriptor's close-on-exec flag is clear.
    Duplicate { fd: i32, min: i32 },
    /// Read the descriptor flags of `fd`.
    GetFlags { fd: i32 },
    /// Replace the descriptor flags of `fd` by `flags`.
    SetFlags { fd: i32, flags: i32 },
    /// Close `fd`.
    Close { fd: i32 },
}

} // verus!

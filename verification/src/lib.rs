//! Exclusive ownership of one open file descriptor, and the protocol by which
//! a descriptor is duplicated with its close-on-exec flag set.
//!
//! The library decides; it never calls the kernel. Each operation that needs
//! the kernel comes as a [`Syscall`] to perform and a function that reads the
//! reply, so that every decision between two kernel calls is stated in a
//! contract and proved.

pub mod platform;
pub mod error;
pub mod capability;
pub mod syscall;
pub mod handle;
pub mod duplicate;
pub mod laws;

pub use capability::Capability;
pub use duplicate::{Duplication, Stage};
pub use error::{check_ret, OsError};
pub use handle::{FileDesc, Ownership};
pub use syscall::Syscall;

//! The handle that owns one descriptor.

use vstd::prelude::*;
use crate::capability::Capability;
use crate::duplicate::Duplication;
use crate::error::OsError;
use crate::platform::{close_on_exec_bit, fd_cloexec};
use crate::syscall::Syscall;

verus! {

/// What a handle is, to a contract: the descriptor it holds, and whether it
/// still answers for closing it.
pub struct Ownership {
    pub descriptor: i32,
    pub armed: bool,
}

/// Thin wrapper around an open file descriptor.
///
/// The wrapper answers for closing the descriptor when it goes out of scope,
/// unless ownership was released before. It cannot be copied: two wrappers of
/// one descriptor come only from wrapping the same number twice, which is
/// the caller's error.
#[derive(Debug)]
pub struct FileDesc {
    fd: i32,
    armed: bool,
}

impl View for FileDesc {
    type V = Ownership;

    closed spec fn view(&self) -> Ownership {
        Ownership { descriptor: self.fd, armed: self.armed }
    }
}

impl Ownership {
    /// A descriptor that was just wrapped: the handle answers for it.
    pub open spec fn wrapped(descriptor: i32) -> Ownership {
        Ownership { descriptor, armed: true }
    }

    /// The same descriptor after ownership was released.
    pub open spec fn released(self) -> Ownership {
        Ownership { descriptor: self.descriptor, armed: false }
    }

    /// The request with which a scope that ends parts from the descriptor:
    /// closing it, where the handle still answers for it and the number can
    /// name a descriptor at all.
    pub open spec fn on_drop(self) -> Option<Syscall> {
        if self.armed && self.descriptor >= 0 {
            Some(Syscall::Close { fd: self.descriptor })
        } else {
            None
        }
    }
}

/// The descriptor flags that stand for a close-on-exec flag alone.
pub open spec fn spec_flags_for(close_on_exec: bool) -> i32 {
    if close_on_exec {
        close_on_exec_bit()
    } else {
        0
    }
}

/// Whether the close-on-exec flag is set in a word of descriptor flags.
pub open spec fn spec_has_close_on_exec(flags: i32) -> bool {
    flags & close_on_exec_bit() != 0
}

/// What the reply to a flag query says of the close-on-exec flag.
pub open spec fn spec_get_close_on_exec_reply(reply: Result<i32, OsError>) -> Result<bool, OsError> {
    match reply {
        Ok(flags) => Ok(spec_has_close_on_exec(flags)),
        Err(error) => Err(error),
    }
}

/// What the reply to a change of the flags says: done, or the error.
pub open spec fn spec_set_close_on_exec_reply(reply: Result<i32, OsError>) -> Result<(), OsError> {
    match reply {
        Ok(_) => Ok(()),
        Err(error) => Err(error),
    }
}

impl FileDesc {
    /// Takes over a descriptor from whatever owned it before.
    ///
    /// Nothing is done to the descriptor; its close-on-exec flag stays as it
    /// was.
    pub fn new(fd: i32) -> (handle: FileDesc)
        ensures
            handle@ == Ownership::wrapped(fd),
    {
        FileDesc { fd, armed: true }
    }

    /// Wraps a raw descriptor.
    ///
    /// Nothing is done to the descriptor; its close-on-exec flag stays as it
    /// was. The caller vouches that the descriptor is open and that nothing
    /// else will close it while the handle answers for it.
    pub fn from_fd(fd: i32) -> (handle: FileDesc)
        ensures
            handle@ == Ownership::wrapped(fd),
    {
        FileDesc { fd, armed: true }
    }

    /// Starts the duplication of the descriptor of `other`. The source keeps
    /// its descriptor and its ownership.
    pub fn duplicate_from(other: &FileDesc, capability: Capability) -> (protocol: Duplication)
        ensures
            protocol == Duplication::spec_begin(other@.descriptor, capability),
    {
        FileDesc::duplicate_raw_fd(other.as_raw_fd(), capability)
    }

    /// Starts the duplication of a raw descriptor: with the atomic command
    /// where `capability` allows it, with the plain one otherwise.
    ///
    /// The handle that the protocol ends with has the close-on-exec flag
    /// set, whichever way was taken.
    pub fn duplicate_raw_fd(fd: i32, capability: Capability) -> (protocol: Duplication)
        ensures
            protocol == Duplication::spec_begin(fd, capability),
    {
        Duplication::begin(fd, capability)
    }

    /// The raw descriptor. The handle goes on answering for it.
    pub fn as_raw_fd(&self) -> (fd: i32)
        ensures
            fd == self@.descriptor,
    {
        self.fd
    }

    /// Releases ownership and gives the raw descriptor. No request to close
    /// it comes from this handle, which is used up.
    pub fn into_raw_fd(self) -> (fd: i32)
        ensures
            fd == self@.descriptor,
    {
        let mut handle = self;
        handle.release()
    }

    /// Releases ownership in place and gives the raw descriptor: from here on
    /// the handle holds the number and answers for nothing.
    pub fn release(&mut self) -> (fd: i32)
        ensures
            fd == old(self)@.descriptor,
            final(self)@ == old(self)@.released(),
    {
        self.armed = false;
        self.fd
    }

    /// Starts the duplication of this handle's descriptor.
    pub fn duplicate(&self, capability: Capability) -> (protocol: Duplication)
        ensures
            protocol == Duplication::spec_begin(self@.descriptor, capability),
    {
        FileDesc::duplicate_from(self, capability)
    }

    /// The request that changes the close-on-exec flag of the descriptor.
    ///
    /// A descriptor should get the flag in the step that creates it: set
    /// later, a process image replaced in between inherits the descriptor.
    pub fn set_close_on_exec(&self, close_on_exec: bool) -> (request: Syscall)
        ensures
            request == (Syscall::SetFlags {
                fd: self@.descriptor,
                flags: spec_flags_for(close_on_exec),
            }),
    {
        let flags: i32 = if close_on_exec {
            fd_cloexec()
        } else {
            0
        };
        Syscall::SetFlags { fd: self.fd, flags }
    }

    /// Reads the reply to [`FileDesc::set_close_on_exec`]: the value that a
    /// successful call returned is of no account.
    pub fn set_close_on_exec_reply(reply: Result<i32, OsError>) -> (done: Result<(), OsError>)
        ensures
            done == spec_set_close_on_exec_reply(reply),
    {
        match reply {
            Ok(_) => Ok(()),
            Err(error) => Err(error),
        }
    }

    /// The request that reads the descriptor flags, among them close-on-exec.
    pub fn get_close_on_exec(&self) -> (request: Syscall)
        ensures
            request == (Syscall::GetFlags { fd: self@.descriptor }),
    {
        Syscall::GetFlags { fd: self.fd }
    }

    /// Reads the reply to [`FileDesc::get_close_on_exec`]: whether the
    /// close-on-exec flag is among the flags returned.
    pub fn get_close_on_exec_reply(reply: Result<i32, OsError>) -> (flag: Result<bool, OsError>)
        ensures
            flag == spec_get_close_on_exec_reply(reply),
    {
        match reply {
            Ok(flags) => Ok(flags & fd_cloexec() != 0),
            Err(error) => Err(error),
        }
    }

    /// What is owed when the handle's scope ends: the request to close the
    /// descriptor, unless ownership was released or the number is negative
    /// and names no descriptor. What the kernel answers is of no account.
    pub fn on_drop(&self) -> (request: Option<Syscall>)
        ensures
            request == self@.on_drop(),
    {
        if self.armed && self.fd >= 0 {
            Some(Syscall::Close { fd: self.fd })
        } else {
            None
        }
    }
}

} // verus!

//! The protocol that duplicates a descriptor with its close-on-exec flag set.

use vstd::prelude::*;
use crate::capability::Capability;
use crate::error::OsError;
use crate::handle::{FileDesc, Ownership};
use crate::platform::{close_on_exec_bit, fd_cloexec};
use crate::syscall::Syscall;

verus! {

/// How far a duplication has come.
#[derive(Clone, Copy, Debug, PartialEq, Eq)]
pub enum Stage {
    /// The atomic duplication of `source` is pending.
    Atomic { source: i32 },
    /// The plain duplication of `source` is pending.
    Plain { source: i32 },
    /// `fresh` came from a plain duplication; setting its close-on-exec flag
    /// is pending.
    Marking { fresh: i32 },
    /// Setting the flag of `fresh` failed with `error`; closing `fresh` is
    /// pending, after which `error` is the outcome.
    Closing { fresh: i32, error: OsError },
    /// The protocol is over: with the new descriptor, or with the error.
    Done { outcome: Result<i32, OsError> },
}

/// One duplication under way: its stage, and what is known by now of the
/// kernel's atomic command.
#[derive(Clone, Copy, Debug, PartialEq, Eq)]
pub struct Duplication {
    pub stage: Stage,
    pub capability: Capability,
}

impl Duplication {
    /// A duplication of `source` before its first request.
    pub open spec fn spec_begin(source: i32, capability: Capability) -> Duplication {
        Duplication {
            stage: if capability.spec_try_atomic() {
                Stage::Atomic { source }
            } else {
                Stage::Plain { source }
            },
            capability,
        }
    }

    /// The request that is pending at this stage; none when the protocol is
    /// over.
    pub open spec fn spec_request(self) -> Option<Syscall> {
        match self.stage {
            Stage::Atomic { source } => Some(Syscall::DuplicateCloseOnExec { fd: source, min: 0 }),
            Stage::Plain { source } => Some(Syscall::Duplicate { fd: source, min: 0 }),
            Stage::Marking { fresh } => Some(
                Syscall::SetFlags { fd: fresh, flags: close_on_exec_bit() },
            ),
            Stage::Closing { fresh, .. } => Some(Syscall::Close { fd: fresh }),
            Stage::Done { .. } => None,
        }
    }

    /// The duplication after the pending request was answered by `reply`.
    pub open spec fn spec_advance(self, reply: Result<i32, OsError>) -> Duplication {
        match self.stage {
            Stage::Atomic { source } => match reply {
                Ok(fresh) => Duplication {
                    stage: Stage::Done { outcome: Ok(fresh) },
                    capability: self.capability,
                },
                Err(error) => if error.spec_is_unsupported() {
                    Duplication {
                        stage: Stage::Plain { source },
                        capability: self.capability.spec_rejected(),
                    }
                } else {
                    Duplication {
                        stage: Stage::Done { outcome: Err(error) },
                        capability: self.capability,
                    }
                },
            },
            Stage::Plain { source } => match reply {
                Ok(fresh) => Duplication {
                    stage: Stage::Marking { fresh },
                    capability: self.capability,
                },
                Err(error) => Duplication {
                    stage: Stage::Done { outcome: Err(error) },
                    capability: self.capability,
                },
            },
            Stage::Marking { fresh } => match reply {
                Ok(_) => Duplication {
                    stage: Stage::Done { outcome: Ok(fresh) },
                    capability: self.capability,
                },
                Err(error) => if Ownership::wrapped(fresh).on_drop() is Some {
                    Duplication {
                        stage: Stage::Closing { fresh, error },
                        capability: self.capability,
                    }
                } else {
                    Duplication {
                        stage: Stage::Done { outcome: Err(error) },
                        capability: self.capability,
                    }
                },
            },
            Stage::Closing { fresh, error } => Duplication {
                stage: Stage::Done { outcome: Err(error) },
                capability: self.capability,
            },
            Stage::Done { .. } => self,
        }
    }

    /// The duplication after the replies of `replies` were taken in turn.
    /// Replies that come after the protocol is over change nothing.
    pub open spec fn spec_run(self, replies: Seq<Result<i32, OsError>>) -> Duplication
        decreases replies.len(),
    {
        if replies.len() == 0 {
            self
        } else {
            self.spec_run(replies.drop_last()).spec_advance(replies.last())
        }
    }

    /// The most requests that can still follow from this stage.
    pub open spec fn spec_requests_left(self) -> nat {
        match self.stage {
            Stage::Atomic { .. } => 4,
            Stage::Plain { .. } => 3,
            Stage::Marking { .. } => 2,
            Stage::Closing { .. } => 1,
            Stage::Done { .. } => 0,
        }
    }

    /// What the protocol ended with, as far as a contract sees a handle;
    /// `None` while a request is pending.
    pub open spec fn spec_outcome(self) -> Option<Result<Ownership, OsError>> {
        match self.stage {
            Stage::Done { outcome: Ok(fresh) } => Some(Ok(Ownership::wrapped(fresh))),
            Stage::Done { outcome: Err(error) } => Some(Err(error)),
            _ => None,
        }
    }

    /// A duplication of `source` before its first request: the atomic
    /// command comes first where `capability` allows it.
    pub fn begin(source: i32, capability: Capability) -> (protocol: Duplication)
        ensures
            protocol == Duplication::spec_begin(source, capability),
    {
        let stage = if capability.try_atomic() {
            Stage::Atomic { source }
        } else {
            Stage::Plain { source }
        };
        Duplication { stage, capability }
    }

    /// The request to perform now; `None` when the protocol is over.
    pub fn request(&self) -> (request: Option<Syscall>)
        ensures
            request == self.spec_request(),
    {
        match self.stage {
            Stage::Atomic { source } => Some(Syscall::DuplicateCloseOnExec { fd: source, min: 0 }),
            Stage::Plain { source } => Some(Syscall::Duplicate { fd: source, min: 0 }),
            Stage::Marking { fresh } => Some(Syscall::SetFlags { fd: fresh, flags: fd_cloexec() }),
            Stage::Closing { fresh, .. } => Some(Syscall::Close { fd: fresh }),
            Stage::Done { .. } => None,
        }
    }

    /// Takes the reply to the pending request and moves on.
    ///
    /// A rejection of the atomic command as unknown is no failure: it is
    /// remembered, and the plain command comes next. Every other error ends
    /// the protocol and is its outcome, unchanged. A descriptor whose flag
    /// could not be set is closed before the error is reported.
    pub fn advance(self, reply: Result<i32, OsError>) -> (next: Duplication)
        ensures
            next == self.spec_advance(reply),
    {
        let capability = self.capability;
        match self.stage {
            Stage::Atomic { source } => match reply {
                Ok(fresh) => Duplication { stage: Stage::Done { outcome: Ok(fresh) }, capability },
                Err(error) => if error.is_unsupported() {
                    Duplication {
                        stage: Stage::Plain { source },
                        capability: capability.rejected(),
                    }
                } else {
                    Duplication { stage: Stage::Done { outcome: Err(error) }, capability }
                },
            },
            Stage::Plain { source } => match reply {
                Ok(fresh) => Duplication { stage: Stage::Marking { fresh }, capability },
                Err(error) => Duplication { stage: Stage::Done { outcome: Err(error) }, capability },
            },
            Stage::Marking { fresh } => match reply {
                Ok(_) => Duplication { stage: Stage::Done { outcome: Ok(fresh) }, capability },
                Err(error) => {
                    let stale = FileDesc::from_fd(fresh);
                    match stale.on_drop() {
                        Some(_) => Duplication { stage: Stage::Closing { fresh, error }, capability },
                        None => Duplication { stage: Stage::Done { outcome: Err(error) }, capability },
                    }
                },
            },
            Stage::Closing { fresh, error } => Duplication {
                stage: Stage::Done { outcome: Err(error) },
                capability,
            },
            Stage::Done { outcome } => Duplication { stage: Stage::Done { outcome }, capability },
        }
    }

    /// What is known of the kernel's atomic command at this point, to be
    /// stored for the duplications that follow.
    pub fn capability(&self) -> (capability: Capability)
        ensures
            capability == self.capability,
    {
        self.capability
    }

    /// The outcome of a protocol that is over: the handle that owns the new
    /// descriptor, or the error. `None` while a request is pending.
    pub fn finish(self) -> (outcome: Option<Result<FileDesc, OsError>>)
        ensures
            match self.spec_outcome() {
                Some(Ok(owned)) => outcome matches Some(Ok(handle)) && handle@ == owned,
                Some(Err(error)) => outcome matches Some(Err(e)) && e == error,
                None => outcome is None,
            },
    {
        match self.stage {
            Stage::Done { outcome: Ok(fresh) } => Some(Ok(FileDesc::from_fd(fresh))),
            Stage::Done { outcome: Err(error) } => Some(Err(error)),
            _ => None,
        }
    }
}

} // verus!

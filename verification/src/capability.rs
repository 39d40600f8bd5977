//! What the process has learned about the kernel's atomic duplication.

use vstd::prelude::*;

verus! {

/// Whether it is worth asking the kernel to duplicate a descriptor and set
/// its close-on-exec flag in one step.
///
/// The knowledge only ever moves one way: a kernel that once rejected the
/// atomic command will reject it for the life of the process.
#[derive(Clone, Copy, Debug, PartialEq, Eq, Structural)]
pub enum Capability {
    /// The atomic command has not been rejected: try it first.
    Untested,
    /// The atomic command is known to be rejected, or is taken to be: skip it.
    Unsupported,
}

impl Capability {
    /// Whether a duplication in this state begins with the atomic command.
    pub open spec fn spec_try_atomic(self) -> bool {
        self is Untested
    }

    /// The capability that a stored flag stands for: `true` means that the
    /// atomic command is to be tried.
    pub open spec fn spec_from_flag(try_atomic: bool) -> Capability {
        if try_atomic {
            Capability::Untested
        } else {
            Capability::Unsupported
        }
    }

    /// This capability after a rejection of the atomic command was seen.
    pub open spec fn spec_rejected(self) -> Capability {
        Capability::Unsupported
    }

    /// The state in which a process starts: the atomic command is skipped
    /// until a caller says otherwise.
    pub fn new() -> (capability: Capability)
        ensures
            capability == Capability::Unsupported,
    {
        Capability::Unsupported
    }

    /// The state in which the atomic command is tried first.
    pub fn untested() -> (capability: Capability)
        ensures
            capability == Capability::Untested,
    {
        Capability::Untested
    }

    /// The capability that a stored flag stands for.
    #[verifier::when_used_as_spec(spec_from_flag)]
    pub fn from_flag(try_atomic: bool) -> (capability: Capability)
        ensures
            capability == Capability::spec_from_flag(try_atomic),
    {
        if try_atomic {
            Capability::Untested
        } else {
            Capability::Unsupported
        }
    }

    /// Whether a duplication in this state begins with the atomic command.
    /// This is also the flag to store for this capability.
    #[verifier::when_used_as_spec(spec_try_atomic)]
    pub fn try_atomic(self) -> (flag: bool)
        ensures
            flag == self.spec_try_atomic(),
    {
        match self {
            Capability::Untested => true,
            Capability::Unsupported => false,
        }
    }

    /// This capability after a rejection of the atomic command was seen.
    #[verifier::when_used_as_spec(spec_rejected)]
    pub fn rejected(self) -> (next: Capability)
        ensures
            next == self.spec_rejected(),
    {
        Capability::Unsupported
    }
}

} // verus!

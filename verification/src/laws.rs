//! What holds of the handle, of the stored capability and of the duplication
//! protocol as a whole. Each law is stated over the same spec functions as
//! the contracts of the functions it is about.

use vstd::prelude::*;
use crate::capability::Capability;
use crate::duplicate::{Duplication, Stage};
use crate::error::OsError;
use crate::handle::{
    spec_flags_for, spec_get_close_on_exec_reply, spec_has_close_on_exec, Ownership,
};
use crate::platform::close_on_exec_bit;
use crate::syscall::Syscall;

verus! {

/// Wrapping a descriptor and asking for the raw value gives that descriptor
/// back, and so does releasing it.
pub proof fn lemma_wrapped_descriptor_is_kept(descriptor: i32)
    ensures
        Ownership::wrapped(descriptor).descriptor == descriptor,
        Ownership::wrapped(descriptor).released().descriptor == descriptor,
{
}

/// A handle whose ownership was released owes no request when its scope
/// ends: nothing closes the descriptor on its behalf.
pub proof fn lemma_released_is_not_closed(owned: Ownership)
    ensures
        owned.released().on_drop() is None,
        owned.released().released() == owned.released(),
{
}

/// A handle that was not released owes, when its scope ends, the request to
/// close exactly its own descriptor.
pub proof fn lemma_owned_is_closed(owned: Ownership)
    requires
        owned.armed,
        owned.descriptor >= 0,
    ensures
        owned.on_drop() == Some(Syscall::Close { fd: owned.descriptor }),
{
}

/// The flags that are sent to set or clear close-on-exec read back as the
/// same setting.
pub proof fn lemma_flag_reads_back(close_on_exec: bool)
    ensures
        spec_has_close_on_exec(spec_flags_for(close_on_exec)) == close_on_exec,
        spec_get_close_on_exec_reply(Ok(spec_flags_for(close_on_exec))) == Ok::<bool, OsError>(
            close_on_exec,
        ),
{
    assert(1i32 & 1i32 != 0i32) by (bit_vector);
    assert(0i32 & 1i32 == 0i32) by (bit_vector);
}

/// Close-on-exec is the lowest bit of the flags: it is set in exactly the
/// odd words, whatever the other bits are.
pub proof fn lemma_close_on_exec_is_lowest_bit(flags: i32)
    ensures
        spec_has_close_on_exec(flags) == (flags % 2 != 0),
{
    assert((flags & 1i32 != 0i32) == (flags % 2i32 != 0i32)) by (bit_vector);
}

/// A capability and the flag that stands for it determine each other.
pub proof fn lemma_flag_round_trip(capability: Capability, flag: bool)
    ensures
        Capability::spec_from_flag(capability.spec_try_atomic()) == capability,
        Capability::spec_from_flag(flag).spec_try_atomic() == flag,
{
}

/// `Unsupported` is absorbing: one rejection leads into it from either
/// state, and no number of rejections leads out of it.
pub proof fn lemma_unsupported_is_absorbing(capability: Capability)
    ensures
        capability.spec_rejected() == Capability::Unsupported,
        capability.spec_rejected().spec_rejected() == capability.spec_rejected(),
        !capability.spec_rejected().spec_try_atomic(),
{
}

/// Every reply brings the protocol nearer its end, and a protocol that is
/// over stays as it is.
pub proof fn lemma_advance_makes_progress(protocol: Duplication, reply: Result<i32, OsError>)
    ensures
        protocol.stage is Done ==> protocol.spec_advance(reply) == protocol,
        !(protocol.stage is Done) ==> protocol.spec_advance(reply).spec_requests_left()
            < protocol.spec_requests_left(),
        protocol.spec_request() is None <==> protocol.stage is Done,
        protocol.spec_outcome() is Some <==> protocol.stage is Done,
{
}

/// From any stage, the protocol is over once as many replies were taken as
/// requests were left.
pub proof fn lemma_run_ends(protocol: Duplication, replies: Seq<Result<i32, OsError>>)
    ensures
        protocol.spec_run(replies).stage is Done || protocol.spec_run(
            replies,
        ).spec_requests_left() + replies.len() <= protocol.spec_requests_left(),
        replies.len() >= protocol.spec_requests_left() ==> protocol.spec_run(replies).stage is Done,
    decreases replies.len(),
{
    if replies.len() > 0 {
        lemma_run_ends(protocol, replies.drop_last());
        lemma_advance_makes_progress(protocol.spec_run(replies.drop_last()), replies.last());
    }
}

/// A duplication is over after four replies at most, and after three where
/// it begins with the atomic command taken as unsupported.
pub proof fn lemma_duplication_ends(
    source: i32,
    capability: Capability,
    replies: Seq<Result<i32, OsError>>,
)
    requires
        replies.len() >= if capability.spec_try_atomic() {
            4nat
        } else {
            3nat
        },
    ensures
        Duplication::spec_begin(source, capability).spec_run(replies).spec_request() is None,
        Duplication::spec_begin(source, capability).spec_run(replies).spec_outcome() is Some,
{
    lemma_run_ends(Duplication::spec_begin(source, capability), replies);
}

/// What is known of the atomic command only moves one way: a reply leaves it
/// as it was or makes it `Unsupported`, and it becomes `Unsupported` exactly
/// when the atomic command was pending and the kernel rejected it as unknown.
pub proof fn lemma_capability_moves_one_way(protocol: Duplication, reply: Result<i32, OsError>)
    ensures
        protocol.capability is Unsupported ==> protocol.spec_advance(reply).capability
            is Unsupported,
        protocol.spec_advance(reply).capability != protocol.capability ==> {
            &&& protocol.stage is Atomic
            &&& reply is Err
            &&& reply->Err_0.spec_is_unsupported()
            &&& protocol.spec_advance(reply).capability is Unsupported
        },
        (protocol.stage is Atomic && reply is Err && reply->Err_0.spec_is_unsupported())
            ==> protocol.spec_advance(reply).capability is Unsupported,
{
}

/// Over any number of replies, `Unsupported` is never left.
pub proof fn lemma_unsupported_is_kept(protocol: Duplication, replies: Seq<Result<i32, OsError>>)
    requires
        protocol.capability is Unsupported,
    ensures
        protocol.spec_run(replies).capability is Unsupported,
    decreases replies.len(),
{
    if replies.len() > 0 {
        lemma_unsupported_is_kept(protocol, replies.drop_last());
        lemma_capability_moves_one_way(protocol.spec_run(replies.drop_last()), replies.last());
    }
}

/// A duplication that begins with the atomic command taken as unsupported
/// never asks for it, whatever the kernel replies.
pub proof fn lemma_unsupported_skips_atomic(source: i32, replies: Seq<Result<i32, OsError>>)
    ensures
        !(Duplication::spec_begin(source, Capability::Unsupported).spec_run(replies).stage
            is Atomic),
        !(Duplication::spec_begin(source, Capability::Unsupported).spec_run(
            replies,
        ).spec_request() matches Some(Syscall::DuplicateCloseOnExec { .. })),
    decreases replies.len(),
{
    if replies.len() > 0 {
        lemma_unsupported_skips_atomic(source, replies.drop_last());
    }
}

/// The state of a duplication of `source` after the first `count` replies of
/// `replies`.
pub open spec fn spec_state_at(
    source: i32,
    capability: Capability,
    replies: Seq<Result<i32, OsError>>,
    count: int,
) -> Duplication {
    Duplication::spec_begin(source, capability).spec_run(replies.take(count))
}

/// Whether the reply at `index` is the kernel's word that `fresh` is a
/// duplicate of `source` with close-on-exec set: either the reply to the
/// atomic command, or the reply to setting the flag on what the plain
/// command had returned just before.
pub open spec fn spec_confirmed_at(
    source: i32,
    capability: Capability,
    replies: Seq<Result<i32, OsError>>,
    index: int,
    fresh: i32,
) -> bool {
    ||| {
        &&& spec_state_at(source, capability, replies, index).spec_request() == Some(
            Syscall::DuplicateCloseOnExec { fd: source, min: 0 },
        )
        &&& replies[index] == Ok::<i32, OsError>(fresh)
    }
    ||| {
        &&& index >= 1
        &&& spec_state_at(source, capability, replies, index - 1).spec_request() == Some(
            Syscall::Duplicate { fd: source, min: 0 },
        )
        &&& replies[index - 1] == Ok::<i32, OsError>(fresh)
        &&& spec_state_at(source, capability, replies, index).spec_request() == Some(
            Syscall::SetFlags { fd: fresh, flags: close_on_exec_bit() },
        )
        &&& replies[index] is Ok
    }
}

/// Whether the reply at `index` is the error `error`, given to one of the
/// two duplications or to setting the flag, and is no rejection of the
/// atomic command as unknown.
pub open spec fn spec_failed_at(
    source: i32,
    capability: Capability,
    replies: Seq<Result<i32, OsError>>,
    index: int,
    error: OsError,
) -> bool {
    let stage = spec_state_at(source, capability, replies, index).stage;
    &&& replies[index] == Err::<i32, OsError>(error)
    &&& stage is Atomic || stage is Plain || stage is Marking
    &&& stage is Atomic ==> !error.spec_is_unsupported()
}

/// Taking one reply more is one step of the protocol.
pub proof fn lemma_state_step(
    source: i32,
    capability: Capability,
    replies: Seq<Result<i32, OsError>>,
    count: int,
)
    requires
        0 <= count < replies.len(),
    ensures
        spec_state_at(source, capability, replies, count + 1) == spec_state_at(
            source,
            capability,
            replies,
            count,
        ).spec_advance(replies[count]),
        spec_state_at(source, capability, replies, 0) == Duplication::spec_begin(
            source,
            capability,
        ),
        spec_state_at(source, capability, replies, replies.len() as int)
            == Duplication::spec_begin(source, capability).spec_run(replies),
{
    assert(replies.take(count + 1).drop_last() =~= replies.take(count));
    assert(replies.take(count + 1).last() == replies[count]);
    assert(replies.take(0) =~= Seq::<Result<i32, OsError>>::empty());
    assert(replies.take(replies.len() as int) =~= replies);
}

/// Where a duplication stands tells what was exchanged on the way there.
///
/// Only the source is ever duplicated, and only at the start. A descriptor
/// whose flag is being set is what the plain command returned in the reply
/// before. A descriptor that is being closed is one that the plain command
/// returned and whose flag the kernel then refused to set.
pub proof fn lemma_stage_tells_history(
    source: i32,
    capability: Capability,
    replies: Seq<Result<i32, OsError>>,
    count: int,
)
    requires
        0 <= count <= replies.len(),
    ensures
        match spec_state_at(source, capability, replies, count).stage {
            Stage::Atomic { source: asked } => asked == source && count == 0,
            Stage::Plain { source: asked } => asked == source && count <= 1,
            Stage::Marking { fresh } => {
                &&& count >= 1
                &&& spec_state_at(source, capability, replies, count - 1).stage == (Stage::Plain {
                    source,
                })
                &&& replies[count - 1] == Ok::<i32, OsError>(fresh)
            },
            Stage::Closing { fresh, error } => {
                &&& count >= 2
                &&& fresh >= 0
                &&& spec_state_at(source, capability, replies, count - 2).stage == (Stage::Plain {
                    source,
                })
                &&& replies[count - 2] == Ok::<i32, OsError>(fresh)
                &&& spec_state_at(source, capability, replies, count - 1).stage == (Stage::Marking {
                    fresh,
                })
                &&& replies[count - 1] == Err::<i32, OsError>(error)
            },
            Stage::Done { .. } => true,
        },
    decreases count,
{
    if count == 0 {
        assert(replies.take(0) =~= Seq::<Result<i32, OsError>>::empty());
    } else {
        lemma_stage_tells_history(source, capability, replies, count - 1);
        lemma_state_step(source, capability, replies, count - 1);
        if count >= 2 {
            lemma_stage_tells_history(source, capability, replies, count - 2);
            lemma_state_step(source, capability, replies, count - 2);
        }
    }
}

/// Once a duplication is over, further replies change nothing.
pub proof fn lemma_done_is_final(
    source: i32,
    capability: Capability,
    replies: Seq<Result<i32, OsError>>,
    count: int,
    later: int,
)
    requires
        0 <= count <= later <= replies.len(),
        spec_state_at(source, capability, replies, count).stage is Done,
    ensures
        spec_state_at(source, capability, replies, later) == spec_state_at(
            source,
            capability,
            replies,
            count,
        ),
    decreases later - count,
{
    if count < later {
        lemma_done_is_final(source, capability, replies, count, later - 1);
        lemma_state_step(source, capability, replies, later - 1);
    }
}

/// A duplication that ends with a handle ends with a descriptor of which the
/// kernel has said that it duplicates the source and has close-on-exec set,
/// whichever of the two ways was taken.
pub proof fn lemma_success_has_flag_set(
    source: i32,
    capability: Capability,
    replies: Seq<Result<i32, OsError>>,
    fresh: i32,
)
    requires
        Duplication::spec_begin(source, capability).spec_run(replies).spec_outcome() == Some(
            Ok::<Ownership, OsError>(Ownership::wrapped(fresh)),
        ),
    ensures
        exists|index: int|
            0 <= index < replies.len() && #[trigger] spec_confirmed_at(
                source,
                capability,
                replies,
                index,
                fresh,
            ),
    decreases replies.len(),
{
    let count = replies.len() as int;
    if count == 0 {
        assert(replies.take(0) =~= replies);
    } else {
        lemma_state_step(source, capability, replies, count - 1);
        lemma_stage_tells_history(source, capability, replies, count - 1);
        let before = spec_state_at(source, capability, replies, count - 1);
        if before.stage is Done {
            let shorter = replies.drop_last();
            assert(replies.take(count - 1) =~= shorter);
            lemma_success_has_flag_set(source, capability, shorter, fresh);
            let index = choose|index: int|
                0 <= index < shorter.len() && #[trigger] spec_confirmed_at(
                    source,
                    capability,
                    shorter,
                    index,
                    fresh,
                );
            assert(shorter.take(index) =~= replies.take(index));
            if index >= 1 {
                assert(shorter.take(index - 1) =~= replies.take(index - 1));
            }
            assert(spec_confirmed_at(source, capability, replies, index, fresh));
        } else {
            assert(spec_confirmed_at(source, capability, replies, count - 1, fresh));
        }
    }
}

/// Where the kernel has said of a descriptor that it duplicates the source
/// and has close-on-exec set, the duplication ends with the handle that owns
/// that descriptor.
pub proof fn lemma_confirmed_duplicate_is_the_outcome(
    source: i32,
    capability: Capability,
    replies: Seq<Result<i32, OsError>>,
    index: int,
    fresh: i32,
)
    requires
        0 <= index < replies.len(),
        spec_confirmed_at(source, capability, replies, index, fresh),
    ensures
        Duplication::spec_begin(source, capability).spec_run(replies).spec_outcome() == Some(
            Ok::<Ownership, OsError>(Ownership::wrapped(fresh)),
        ),
{
    lemma_state_step(source, capability, replies, index);
    lemma_done_is_final(source, capability, replies, index + 1, replies.len() as int);
}

/// No descriptor is lost. Where the kernel hands out a new descriptor and
/// the duplication comes to its end, the handle that it ends with owns that
/// descriptor, or the request to close it was made two requests later. (A
/// negative number names no descriptor and is not closed.)
pub proof fn lemma_fresh_descriptor_is_owned_or_closed(
    source: i32,
    capability: Capability,
    replies: Seq<Result<i32, OsError>>,
    index: int,
    fresh: i32,
)
    requires
        0 <= index < replies.len(),
        spec_state_at(source, capability, replies, index).stage is Atomic || spec_state_at(
            source,
            capability,
            replies,
            index,
        ).stage is Plain,
        replies[index] == Ok::<i32, OsError>(fresh),
        fresh >= 0,
        Duplication::spec_begin(source, capability).spec_run(replies).stage is Done,
    ensures
        Duplication::spec_begin(source, capability).spec_run(replies).spec_outcome() == Some(
            Ok::<Ownership, OsError>(Ownership::wrapped(fresh)),
        ) || {
            &&& index + 2 < replies.len()
            &&& spec_state_at(source, capability, replies, index + 2).spec_request() == Some(
                Syscall::Close { fd: fresh },
            )
            &&& Duplication::spec_begin(source, capability).spec_run(replies).spec_outcome()
                == Some(Err::<Ownership, OsError>(replies[index + 1]->Err_0))
        },
{
    let count = replies.len() as int;
    lemma_state_step(source, capability, replies, index);
    if spec_state_at(source, capability, replies, index).stage is Atomic {
        lemma_done_is_final(source, capability, replies, index + 1, count);
    } else {
        if index + 1 < count {
            lemma_state_step(source, capability, replies, index + 1);
            if replies[index + 1] is Ok {
                lemma_done_is_final(source, capability, replies, index + 2, count);
            } else {
                if index + 2 < count {
                    lemma_state_step(source, capability, replies, index + 2);
                    lemma_done_is_final(source, capability, replies, index + 3, count);
                }
            }
        }
    }
}

/// The source is only ever duplicated. A request that changes or closes a
/// descriptor is addressed to the number that the plain duplication had
/// returned, and follows that reply at once or one request later.
pub proof fn lemma_source_is_only_duplicated(
    source: i32,
    capability: Capability,
    replies: Seq<Result<i32, OsError>>,
    count: int,
)
    requires
        0 <= count <= replies.len(),
    ensures
        match spec_state_at(source, capability, replies, count).spec_request() {
            Some(Syscall::DuplicateCloseOnExec { fd, min }) => fd == source && min == 0,
            Some(Syscall::Duplicate { fd, min }) => fd == source && min == 0,
            Some(Syscall::SetFlags { fd, flags }) => {
                &&& flags == close_on_exec_bit()
                &&& count >= 1
                &&& replies[count - 1] == Ok::<i32, OsError>(fd)
                &&& spec_state_at(source, capability, replies, count - 1).spec_request() == Some(
                    Syscall::Duplicate { fd: source, min: 0 },
                )
            },
            Some(Syscall::Close { fd }) => {
                &&& count >= 2
                &&& replies[count - 2] == Ok::<i32, OsError>(fd)
                &&& spec_state_at(source, capability, replies, count - 2).spec_request() == Some(
                    Syscall::Duplicate { fd: source, min: 0 },
                )
            },
            Some(Syscall::GetFlags { .. }) => false,
            None => spec_state_at(source, capability, replies, count).stage is Done,
        },
{
    lemma_stage_tells_history(source, capability, replies, count);
}

/// A duplication that fails ends with an error that the kernel reported, as
/// it was reported: the reply to one of the two duplications or to setting
/// the flag. The one error that is never the outcome is the rejection of the
/// atomic command as unknown, and what the kernel says to closing a
/// descriptor is never looked at.
pub proof fn lemma_failure_is_reported_error(
    source: i32,
    capability: Capability,
    replies: Seq<Result<i32, OsError>>,
    error: OsError,
)
    requires
        Duplication::spec_begin(source, capability).spec_run(replies).spec_outcome() == Some(
            Err::<Ownership, OsError>(error),
        ),
    ensures
        exists|index: int|
            0 <= index < replies.len() && #[trigger] spec_failed_at(
                source,
                capability,
                replies,
                index,
                error,
            ),
    decreases replies.len(),
{
    let count = replies.len() as int;
    if count == 0 {
        assert(replies.take(0) =~= replies);
    } else {
        lemma_state_step(source, capability, replies, count - 1);
        lemma_stage_tells_history(source, capability, replies, count - 1);
        let before = spec_state_at(source, capability, replies, count - 1);
        if before.stage is Done {
            let shorter = replies.drop_last();
            assert(replies.take(count - 1) =~= shorter);
            lemma_failure_is_reported_error(source, capability, shorter, error);
            let index = choose|index: int|
                0 <= index < shorter.len() && #[trigger] spec_failed_at(
                    source,
                    capability,
                    shorter,
                    index,
                    error,
                );
            assert(shorter.take(index) =~= replies.take(index));
            assert(spec_failed_at(source, capability, replies, index, error));
        } else if before.stage is Closing {
            assert(spec_failed_at(source, capability, replies, count - 2, error));
        } else {
            assert(spec_failed_at(source, capability, replies, count - 1, error));
        }
    }
}

/// What a duplication leaves to be stored for the next one: `Unsupported`
/// where it began so, or where its atomic command was rejected as unknown;
/// in every other case what it began with.
pub proof fn lemma_capability_after_run(
    source: i32,
    capability: Capability,
    replies: Seq<Result<i32, OsError>>,
)
    ensures
        Duplication::spec_begin(source, capability).spec_run(replies).capability == if replies.len()
            >= 1 && capability.spec_try_atomic() && replies[0] is Err
            && replies[0]->Err_0.spec_is_unsupported() {
            Capability::Unsupported
        } else {
            capability
        },
    decreases replies.len(),
{
    let count = replies.len() as int;
    if count == 0 {
    } else {
        let shorter = replies.drop_last();
        lemma_capability_after_run(source, capability, shorter);
        assert(replies.take(count - 1) =~= shorter);
        lemma_stage_tells_history(source, capability, replies, count - 1);
        if count >= 2 {
            assert(shorter[0] == replies[0]);
        }
    }
}

} // verus!

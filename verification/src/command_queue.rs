//! The hand-over of commands from the control thread to the audio thread.
//!
//! The control thread sends commands into a channel. The audio thread takes
//! them out at the start of each buffer, without ever waiting, and only then
//! processes the buffer: no command takes effect in the middle of a buffer.
use crate::command::{Command, CommandHandler};
use crate::float::Float;
use crate::processor::AudioProcessor;
use crossbeam_channel::{Receiver, TryRecvError};
use vstd::prelude::*;

verus! {

/// The receiving side of a channel, `crossbeam_channel::Receiver`. Nothing
/// inside it is visible to the proofs.
#[verifier::external_type_specification]
#[verifier::external_body]
#[verifier::reject_recursive_types(T)]
pub struct ExReceiver<T>(Receiver<T>);

/// The reason why nothing was received, `crossbeam_channel::TryRecvError`:
/// the channel is empty, or it is empty and all senders are gone. The proofs
/// do not tell the two apart.
#[verifier::external_type_specification]
#[verifier::external_body]
pub struct ExTryRecvError(TryRecvError);

/// Calls `Receiver::len`, which returns the number of messages that are in
/// the channel at that moment. Other threads send while this one runs, so
/// nothing is claimed of the number.
#[verifier::external_body]
fn queued<T>(receiver: &Receiver<T>) -> (count: usize) {
    receiver.len()
}

/// Calls `Receiver::try_recv`, which takes a message out of the channel if
/// one is there and returns an error otherwise, without blocking. Whether a
/// message is there depends on the other threads, so nothing is claimed of
/// the result.
#[verifier::external_body]
fn try_receive<T>(receiver: &Receiver<T>) -> (message: Result<T, TryRecvError>) {
    receiver.try_recv()
}

/// Applies `command` if `handler` accepts it, and says whether it did.
pub fn apply<T: Float, H: CommandHandler<T>>(handler: &mut H, command: Command<T>) -> (applied:
    bool)
    requires
        crate::float::obeys_arithmetic::<T>(),
    ensures
        applied == H::accepts(old(handler)@, command),
        applied ==> final(handler)@ == H::handled(old(handler)@, command),
        !applied ==> final(handler)@ == old(handler)@,
{
    if handler.can_handle(&command) {
        handler.handle_command(command);
        true
    } else {
        false
    }
}

/// Takes the commands out of the channel that were in it when the call
/// began, at most, and applies each in its turn. It never waits: it stops
/// when the channel is empty. It also stops at a command that `handler` does
/// not accept, which it hands back unapplied.
///
/// Some sequence of commands was applied, each accepted in its turn: which
/// one is up to the senders.
pub fn drain_commands<T: Float, H: CommandHandler<T>>(
    handler: &mut H,
    receiver: &Receiver<Command<T>>,
) -> (rejected: Option<Command<T>>)
    requires
        crate::float::obeys_arithmetic::<T>(),
    ensures
        crate::command::reaches::<T, H>(old(handler)@, final(handler)@),
        rejected matches Some(command) ==> !H::accepts(final(handler)@, command),
{
    let ghost before = handler@;
    let ghost mut applied: Seq<Command<T>> = Seq::empty();
    let mut rejected: Option<Command<T>> = None;
    let mut left: usize = queued(receiver);
    while left > 0
        invariant
            crate::float::obeys_arithmetic::<T>(),
            crate::command::accepts_all::<T, H>(before, applied),
            handler@ == crate::command::handled_all::<T, H>(before, applied),
            rejected matches Some(command) ==> left == 0 && !H::accepts(handler@, command),
        decreases left,
    {
        left -= 1;
        match try_receive(receiver) {
            Ok(command) => {
                if apply(handler, command) {
                    proof {
                        assert(applied.push(command).drop_last() =~= applied);
                        applied = applied.push(command);
                    }
                } else {
                    rejected = Some(command);
                    left = 0;
                }
            },
            Err(_) => {
                left = 0;
            },
        }
    }
    rejected
}

/// Runs one period of the audio thread: first [`drain_commands`], then, if
/// no command was rejected, the buffer. A rejected command is handed back
/// and leaves the output buffer as it was.
pub fn run_period<T: Float, P: AudioProcessor<T>>(
    processor: &mut P,
    receiver: &Receiver<Command<T>>,
    input: &[T],
    output: &mut [T],
) -> (rejected: Option<Command<T>>)
    requires
        crate::float::obeys_arithmetic::<T>(),
        input@.len() == old(output)@.len(),
        input@.len() % 2 == 0,
    ensures
        rejected is None ==> (exists|drained: P::V| #[trigger]
            crate::command::reaches::<T, P>(old(processor)@, drained) && (
                final(processor)@,
                final(output)@,
            ) == P::processed(drained, input@)),
        rejected is Some ==> crate::command::reaches::<T, P>(
            old(processor)@,
            final(processor)@,
        ),
        rejected matches Some(command) ==> !P::accepts(final(processor)@, command),
        rejected is Some ==> final(output)@ == old(output)@,
{
    let rejected = drain_commands(processor, receiver);
    if rejected.is_none() {
        processor.process_stereo(input, output);
    }
    rejected
}

} // verus!

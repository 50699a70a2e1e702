//! The commands that a control surface sends to a processor.
use crate::float::Float;
use vstd::prelude::*;

verus! {

/// A change that a control surface asks for.
#[derive(Clone, Copy, Debug)]
pub enum Command<T> {
    /// Set the parameter with the given id to the given normalized value.
    SetParameter(usize, T),
}

/// Something that takes commands. Its view is the state that the commands
/// change.
pub trait CommandHandler<T: Float>: View {
    /// Whether `command` can be applied in `state`.
    spec fn accepts(state: Self::V, command: Command<T>) -> bool;

    /// The state after `command` has been applied in `state`.
    spec fn handled(state: Self::V, command: Command<T>) -> Self::V;

    /// Tests whether `command` can be applied.
    fn can_handle(&self, command: &Command<T>) -> (accepted: bool)
        ensures
            accepted == Self::accepts(self@, *command),
    ;

    /// Applies `command`.
    fn handle_command(&mut self, command: Command<T>)
        requires
            crate::float::obeys_arithmetic::<T>(),
            Self::accepts(old(self)@, command),
        ensures
            final(self)@ == Self::handled(old(self)@, command),
    ;
}

/// The state after each of `commands` has been applied, first to last,
/// starting in `state`.
pub open spec fn handled_all<T: Float, H: CommandHandler<T>>(
    state: H::V,
    commands: Seq<Command<T>>,
) -> H::V
    decreases commands.len(),
{
    if commands.len() == 0 {
        state
    } else {
        H::handled(handled_all::<T, H>(state, commands.drop_last()), commands.last())
    }
}

/// Whether each of `commands` can be applied in its turn, starting in
/// `state`.
pub open spec fn accepts_all<T: Float, H: CommandHandler<T>>(
    state: H::V,
    commands: Seq<Command<T>>,
) -> bool
    decreases commands.len(),
{
    if commands.len() == 0 {
        true
    } else {
        &&& accepts_all::<T, H>(state, commands.drop_last())
        &&& H::accepts(handled_all::<T, H>(state, commands.drop_last()), commands.last())
    }
}

/// Whether some sequence of commands, each accepted in its turn, leads from
/// the state `before` to the state `after`.
pub open spec fn reaches<T: Float, H: CommandHandler<T>>(before: H::V, after: H::V) -> bool {
    exists|commands: Seq<Command<T>>|
        accepts_all::<T, H>(before, commands) && after == #[trigger] handled_all::<T, H>(
            before,
            commands,
        )
}

} // verus!

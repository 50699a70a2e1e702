//! The processing entry point that an audio driver calls once per buffer.
use crate::command::CommandHandler;
use crate::float::Float;
use vstd::prelude::*;

verus! {

/// Something that processes buffers of stereo frames, in which the left and
/// the right sample of each frame follow each other.
pub trait AudioProcessor<T: Float>: CommandHandler<T> {
    /// The state after the frames of `input` have been processed starting in
    /// `state`, and the samples produced for them.
    spec fn processed(state: Self::V, input: Seq<T>) -> (Self::V, Seq<T>);

    /// Processes the frames of `input` into `output`. The two buffers have
    /// the same, even, length.
    fn process_stereo(&mut self, input: &[T], output: &mut [T])
        requires
            crate::float::obeys_arithmetic::<T>(),
            input@.len() == old(output)@.len(),
            input@.len() % 2 == 0,
        ensures
            (final(self)@, final(output)@) == Self::processed(old(self)@, input@),
    ;
}

} // verus!

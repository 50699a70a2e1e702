//! What an audio effect offers to a host: a processor for a sample rate, and
//! the descriptors of its parameters.
use crate::float::Float;
use crate::parameter::ParameterDescriptor;
use crate::processor::AudioProcessor;
use vstd::prelude::*;

verus! {

/// The parameters of an effect, numbered from zero.
pub trait ParameterProvider<T: Float> {
    /// The number of parameters.
    spec fn spec_parameter_count() -> nat;

    /// Returns the number of parameters.
    fn parameter_count() -> (count: usize)
        ensures
            count == Self::spec_parameter_count(),
    ;

    /// Whether `descriptor` describes the parameter with the id `id`.
    spec fn describes(id: usize, descriptor: ParameterDescriptor<T>) -> bool;

    /// Returns the descriptor of the parameter with the id `id`, which is
    /// less than the number of parameters.
    fn parameter(id: usize) -> (descriptor: ParameterDescriptor<T>)
        requires
            crate::float::obeys_arithmetic::<T>(),
            id < Self::spec_parameter_count(),
        ensures
            Self::describes(id, descriptor),
    ;
}

/// An audio effect.
pub trait AudioModule<T: Float>: ParameterProvider<T> {
    type Processor: AudioProcessor<T>;

    /// Whether a processor can be made for `sample_rate`, in Hz.
    spec fn supports(sample_rate: usize) -> bool;

    /// The state of the processor that is made for `sample_rate`.
    spec fn created(sample_rate: usize) -> <Self::Processor as View>::V;

    /// Tests whether a processor can be made for `sample_rate`, in Hz.
    fn can_create(sample_rate: usize) -> (supported: bool)
        ensures
            supported == Self::supports(sample_rate),
    ;

    /// Makes a processor for `sample_rate`, in Hz.
    fn create_processor(sample_rate: usize) -> (processor: Self::Processor)
        requires
            crate::float::obeys_arithmetic::<T>(),
            Self::supports(sample_rate),
        ensures
            processor@ == Self::created(sample_rate),
    ;
}

} // verus!

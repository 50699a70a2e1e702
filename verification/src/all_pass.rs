//! The all-pass stage of the reverberator.
use crate::delay_line::{DelayLine, LineState};
use crate::float::{constant, Float};
use vstd::prelude::*;
use vstd::std_specs::ops::*;

verus! {

/// The mathematical content of an all-pass filter: that of its delay line.
pub struct AllPassState<T> {
    pub line: LineState<T>,
}

impl<T: Float> AllPassState<T> {
    /// The delay line's cursor points at a cell.
    pub open spec fn wf(self) -> bool {
        self.line.wf()
    }

    /// A filter over `length` cells, all zero.
    pub open spec fn silent(length: nat) -> Self {
        AllPassState { line: LineState::filled(length, crate::float::zero::<T>()) }
    }

    /// The feedback coefficient, one half. It is a constant of the filter.
    pub open spec fn feedback() -> T {
        crate::float::ratio::<T>(1, 2)
    }

    /// The sample that one step returns for `input`: the delayed sample
    /// minus the input.
    pub open spec fn output(self, input: T) -> T {
        self.line.read().sub_spec(input)
    }

    /// The filter after one step on `input`: the input plus half the delayed
    /// sample has gone into the delay line.
    pub open spec fn step(self, input: T) -> Self {
        let delayed = self.line.read();
        AllPassState { line: self.line.write(input.add_spec(delayed.mul_spec(Self::feedback()))) }
    }
}

/// A delay stage that changes the phase of a signal and leaves its
/// magnitude response flat.
pub struct AllPass<T> {
    delay_line: DelayLine<T>,
}

impl<T> View for AllPass<T> {
    type V = AllPassState<T>;

    closed spec fn view(&self) -> AllPassState<T> {
        AllPassState { line: self.delay_line@ }
    }
}

impl<T: Float> AllPass<T> {
    /// Makes a silent filter with a delay of `delay_length` samples.
    pub fn new(delay_length: usize) -> (filter: Self)
        requires
            crate::float::obeys_arithmetic::<T>(),
            delay_length > 0,
        ensures
            filter@ == AllPassState::<T>::silent(delay_length as nat),
            filter@.wf(),
    {
        AllPass { delay_line: DelayLine::new(delay_length) }
    }

    /// Runs the filter for one sample.
    pub fn tick(&mut self, input: T) -> (output: T)
        requires
            crate::float::obeys_arithmetic::<T>(),
        ensures
            output == old(self)@.output(input),
            final(self)@ == old(self)@.step(input),
            old(self)@.wf(),
            final(self)@.wf(),
    {
        let delayed = self.delay_line.read();
        let output = delayed - input;
        let feedback: T = constant(1, 2);
        self.delay_line.write_and_advance(input + delayed * feedback);
        output
    }
}

} // verus!

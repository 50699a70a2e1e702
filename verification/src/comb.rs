//! The damped feedback comb stage of the reverberator.
use crate::delay_line::{DelayLine, LineState};
use crate::float::{constant, Float};
use vstd::prelude::*;
use vstd::std_specs::ops::*;

verus! {

/// The mathematical content of a comb filter.
pub struct CombState<T> {
    pub line: LineState<T>,
    pub feedback: T,
    pub filter_state: T,
    pub dampening: T,
    pub dampening_inverse: T,
}

impl<T: Float> CombState<T> {
    /// The delay line's cursor points at a cell.
    pub open spec fn wf(self) -> bool {
        self.line.wf()
    }

    /// A filter over `length` cells, all zero, with a zero damping state and
    /// with feedback, dampening and inverse dampening all one half.
    pub open spec fn silent(length: nat) -> Self {
        CombState {
            line: LineState::filled(length, crate::float::zero::<T>()),
            feedback: crate::float::ratio::<T>(1, 2),
            filter_state: crate::float::zero::<T>(),
            dampening: crate::float::ratio::<T>(1, 2),
            dampening_inverse: crate::float::ratio::<T>(1, 2),
        }
    }

    /// The sample that one step returns: the delayed sample, whatever the
    /// input.
    pub open spec fn output(self) -> T {
        self.line.read()
    }

    /// The damping state after one step: the delayed sample weighted by the
    /// inverse dampening, plus the old state weighted by the dampening.
    pub open spec fn damped(self) -> T {
        self.line.read().mul_spec(self.dampening_inverse).add_spec(
            self.filter_state.mul_spec(self.dampening),
        )
    }

    /// The filter after one step on `input`: the damping state has moved on,
    /// and the input plus the new damping state times the feedback has gone
    /// into the delay line.
    pub open spec fn step(self, input: T) -> Self {
        let damped = self.damped();
        CombState {
            line: self.line.write(input.add_spec(damped.mul_spec(self.feedback))),
            filter_state: damped,
            ..self
        }
    }

    /// The filter with its dampening set to `value` and its inverse
    /// dampening to one minus `value`.
    pub open spec fn with_dampening(self, value: T) -> Self {
        CombState {
            dampening: value,
            dampening_inverse: crate::float::one::<T>().sub_spec(value),
            ..self
        }
    }

    /// The filter with its feedback set to `value`.
    pub open spec fn with_feedback(self, value: T) -> Self {
        CombState { feedback: value, ..self }
    }
}

/// A feedback delay line with a one-pole low-pass filter in the feedback
/// path.
pub struct Comb<T> {
    delay_line: DelayLine<T>,
    feedback: T,
    filter_state: T,
    dampening: T,
    dampening_inverse: T,
}

impl<T> View for Comb<T> {
    type V = CombState<T>;

    closed spec fn view(&self) -> CombState<T> {
        CombState {
            line: self.delay_line@,
            feedback: self.feedback,
            filter_state: self.filter_state,
            dampening: self.dampening,
            dampening_inverse: self.dampening_inverse,
        }
    }
}

impl<T: Float> Comb<T> {
    /// Makes a silent filter with a delay of `delay_length` samples.
    pub fn new(delay_length: usize) -> (filter: Self)
        requires
            crate::float::obeys_arithmetic::<T>(),
            delay_length > 0,
        ensures
            filter@ == CombState::<T>::silent(delay_length as nat),
            filter@.wf(),
    {
        Comb {
            delay_line: DelayLine::new(delay_length),
            feedback: constant(1, 2),
            filter_state: constant(0, 1),
            dampening: constant(1, 2),
            dampening_inverse: constant(1, 2),
        }
    }

    /// Sets the dampening to `value` and the inverse dampening to one minus
    /// `value`: the two change together.
    pub fn set_dampening(&mut self, value: T)
        requires
            crate::float::obeys_arithmetic::<T>(),
        ensures
            final(self)@ == old(self)@.with_dampening(value),
    {
        let one: T = constant(1, 1);
        self.dampening = value;
        self.dampening_inverse = one - value;
    }

    /// Sets the feedback to `value`.
    pub fn set_feedback(&mut self, value: T)
        ensures
            final(self)@ == old(self)@.with_feedback(value),
    {
        self.feedback = value;
    }

    /// Runs the filter for one sample.
    pub fn tick(&mut self, input: T) -> (output: T)
        requires
            crate::float::obeys_arithmetic::<T>(),
        ensures
            output == old(self)@.output(),
            final(self)@ == old(self)@.step(input),
            old(self)@.wf(),
            final(self)@.wf(),
    {
        let output = self.delay_line.read();
        self.filter_state = output * self.dampening_inverse + self.filter_state * self.dampening;
        self.delay_line.write_and_advance(input + self.filter_state * self.feedback);
        output
    }
}

} // verus!

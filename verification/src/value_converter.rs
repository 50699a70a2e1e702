//! The scales of a parameter: conversions between the normalized value that
//! a control surface handles, from zero to one, and the value in the
//! parameter's own domain.
use crate::float::Float;
use vstd::prelude::*;
use vstd::std_specs::ops::*;

verus! {

/// A conversion between domain values ("user") and normalized ones
/// ("linear").
pub trait ValueConverter<T: Float> {
    /// The normalized value for the domain value `value`.
    spec fn spec_user_to_linear(&self, value: T) -> T;

    /// The domain value for the normalized value `value`.
    spec fn spec_linear_to_user(&self, value: T) -> T;

    /// Converts a domain value to the normalized one.
    fn user_to_linear(&self, value: T) -> (linear: T)
        requires
            crate::float::obeys_arithmetic::<T>(),
        ensures
            linear == self.spec_user_to_linear(value),
    ;

    /// Converts a normalized value to the domain one.
    fn linear_to_user(&self, value: T) -> (user: T)
        requires
            crate::float::obeys_arithmetic::<T>(),
        ensures
            user == self.spec_linear_to_user(value),
    ;
}

/// The identity scale: the domain value is the normalized one.
#[derive(Clone, Copy, Debug)]
pub struct DefaultValueConverter {}

impl<T: Float> ValueConverter<T> for DefaultValueConverter {
    open spec fn spec_user_to_linear(&self, value: T) -> T {
        value
    }

    open spec fn spec_linear_to_user(&self, value: T) -> T {
        value
    }

    fn user_to_linear(&self, value: T) -> (linear: T) {
        value
    }

    fn linear_to_user(&self, value: T) -> (user: T) {
        value
    }
}

/// The linear scale from `min` to `max`: `user = min + linear * (max - min)`.
#[derive(Clone, Copy, Debug)]
pub struct LinearValueConverter<T> {
    pub min_user_value: T,
    pub user_value_range: T,
}

impl<T: Float> LinearValueConverter<T> {
    /// Makes the linear scale from `min` to `max`.
    pub fn new(min: T, max: T) -> (converter: Self)
        requires
            crate::float::obeys_arithmetic::<T>(),
        ensures
            converter.min_user_value == min,
            converter.user_value_range == max.sub_spec(min),
    {
        LinearValueConverter { min_user_value: min, user_value_range: max - min }
    }
}

impl<T: Float> ValueConverter<T> for LinearValueConverter<T> {
    open spec fn spec_user_to_linear(&self, value: T) -> T {
        value.sub_spec(self.min_user_value).div_spec(self.user_value_range)
    }

    open spec fn spec_linear_to_user(&self, value: T) -> T {
        self.min_user_value.add_spec(value.mul_spec(self.user_value_range))
    }

    fn user_to_linear(&self, value: T) -> (linear: T) {
        (value - self.min_user_value) / self.user_value_range
    }

    fn linear_to_user(&self, value: T) -> (user: T) {
        self.min_user_value + value * self.user_value_range
    }
}

/// The logarithmic scale from `min` to `max`:
/// `user = 2 ^ (log2(min) + linear * (log2(max) - log2(min)))`.
#[derive(Clone, Copy, Debug)]
pub struct LogValueConverter<T> {
    pub log_min_user_value: T,
    pub log_user_value_range: T,
}

impl<T: Float> LogValueConverter<T> {
    /// Makes the logarithmic scale from `min` to `max`.
    pub fn new(min: T, max: T) -> (converter: Self)
        requires
            crate::float::obeys_arithmetic::<T>(),
        ensures
            converter.log_min_user_value == crate::float::log2_of(min),
            converter.log_user_value_range == crate::float::log2_of(max).sub_spec(
                crate::float::log2_of(min),
            ),
    {
        LogValueConverter {
            log_min_user_value: min.log2(),
            log_user_value_range: max.log2() - min.log2(),
        }
    }
}

impl<T: Float> ValueConverter<T> for LogValueConverter<T> {
    open spec fn spec_user_to_linear(&self, value: T) -> T {
        crate::float::log2_of(value).sub_spec(self.log_min_user_value).div_spec(
            self.log_user_value_range,
        )
    }

    open spec fn spec_linear_to_user(&self, value: T) -> T {
        crate::float::exp2_of(
            self.log_min_user_value.add_spec(value.mul_spec(self.log_user_value_range)),
        )
    }

    fn user_to_linear(&self, value: T) -> (linear: T) {
        (value.log2() - self.log_min_user_value) / self.log_user_value_range
    }

    fn linear_to_user(&self, value: T) -> (user: T) {
        (self.log_min_user_value + value * self.log_user_value_range).exp2()
    }
}

/// The names of the three scales.
#[derive(Clone, Copy, Debug, PartialEq, Eq, Structural)]
pub enum ConversionKind {
    Identity,
    Linear,
    Logarithmic,
}

/// One of the three scales.
#[derive(Clone, Copy, Debug)]
pub enum ConversionStrategy<T> {
    Identity(DefaultValueConverter),
    Linear(LinearValueConverter<T>),
    Logarithmic(LogValueConverter<T>),
}

impl<T: Float> ValueConverter<T> for ConversionStrategy<T> {
    open spec fn spec_user_to_linear(&self, value: T) -> T {
        match self {
            ConversionStrategy::Identity(converter) => converter.spec_user_to_linear(value),
            ConversionStrategy::Linear(converter) => converter.spec_user_to_linear(value),
            ConversionStrategy::Logarithmic(converter) => converter.spec_user_to_linear(value),
        }
    }

    open spec fn spec_linear_to_user(&self, value: T) -> T {
        match self {
            ConversionStrategy::Identity(converter) => converter.spec_linear_to_user(value),
            ConversionStrategy::Linear(converter) => converter.spec_linear_to_user(value),
            ConversionStrategy::Logarithmic(converter) => converter.spec_linear_to_user(value),
        }
    }

    fn user_to_linear(&self, value: T) -> (linear: T) {
        match self {
            ConversionStrategy::Identity(converter) => converter.user_to_linear(value),
            ConversionStrategy::Linear(converter) => converter.user_to_linear(value),
            ConversionStrategy::Logarithmic(converter) => converter.user_to_linear(value),
        }
    }

    fn linear_to_user(&self, value: T) -> (user: T) {
        match self {
            ConversionStrategy::Identity(converter) => converter.linear_to_user(value),
            ConversionStrategy::Linear(converter) => converter.linear_to_user(value),
            ConversionStrategy::Logarithmic(converter) => converter.linear_to_user(value),
        }
    }
}

} // verus!

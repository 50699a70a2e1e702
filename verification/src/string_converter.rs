//! The ways to show a parameter's domain value as text.
use crate::float::{constant, Float};
use vstd::prelude::*;
use vstd::std_specs::cmp::*;
use vstd::std_specs::ops::*;

verus! {

/// A rendering of domain values as text.
pub trait StringConverter<T: Float> {
    /// The text for `value`.
    spec fn spec_to_string(&self, value: T) -> Seq<char>;

    /// Renders `value` as text.
    fn to_string(&self, value: T) -> (text: String)
        requires
            crate::float::obeys_arithmetic::<T>(),
        ensures
            text@ == self.spec_to_string(value),
    ;
}

/// Shows a value as a whole number.
#[derive(Clone, Copy, Debug)]
pub struct DefaultStringConverter {}

impl<T: Float> StringConverter<T> for DefaultStringConverter {
    open spec fn spec_to_string(&self, value: T) -> Seq<char> {
        crate::float::rounded_of(value)
    }

    fn to_string(&self, value: T) -> (text: String) {
        value.rounded()
    }
}

/// Shows a value as `off` if it is zero, else as `on`.
#[derive(Clone, Copy, Debug)]
pub struct BoolStringConverter {}

impl<T: Float> StringConverter<T> for BoolStringConverter {
    open spec fn spec_to_string(&self, value: T) -> Seq<char> {
        if value.eq_spec(&crate::float::zero::<T>()) {
            "off"@
        } else {
            "on"@
        }
    }

    fn to_string(&self, value: T) -> (text: String) {
        let zero: T = constant(0, 1);
        if value == zero {
            String::from_str("off")
        } else {
            String::from_str("on")
        }
    }
}

/// Shows a value as a whole number, a space and a unit.
#[derive(Clone, Debug)]
pub struct FloatStringConverter {
    unit: String,
}

impl FloatStringConverter {
    /// Makes the rendering with the unit `unit`.
    pub fn new(unit: String) -> (converter: Self)
        ensures
            converter.unit() == unit@,
    {
        FloatStringConverter { unit }
    }

    /// The unit that follows the number.
    pub closed spec fn unit(&self) -> Seq<char> {
        self.unit@
    }
}

impl<T: Float> StringConverter<T> for FloatStringConverter {
    open spec fn spec_to_string(&self, value: T) -> Seq<char> {
        crate::float::rounded_of(value) + " "@ + self.unit()
    }

    fn to_string(&self, value: T) -> (text: String) {
        value.rounded().concat(" ").concat(self.unit.as_str())
    }
}

/// Shows a value as a percentage: a hundred times the value as a whole
/// number, a space and the percent sign.
#[derive(Clone, Copy, Debug)]
pub struct PercentStringConverter {}

impl<T: Float> StringConverter<T> for PercentStringConverter {
    open spec fn spec_to_string(&self, value: T) -> Seq<char> {
        crate::float::rounded_of(value.mul_spec(crate::float::ratio::<T>(100, 1))) + " %"@
    }

    fn to_string(&self, value: T) -> (text: String) {
        let hundred: T = constant(100, 1);
        (value * hundred).rounded().concat(" %")
    }
}

/// The names of the four renderings.
#[derive(Clone, Copy, Debug, PartialEq, Eq, Structural)]
pub enum DisplayKind {
    Integer,
    IntegerWithUnit,
    Percent,
    OnOff,
}

/// One of the four renderings.
#[derive(Clone, Debug)]
pub enum DisplayStrategy {
    Integer(DefaultStringConverter),
    IntegerWithUnit(FloatStringConverter),
    Percent(PercentStringConverter),
    OnOff(BoolStringConverter),
}

impl DisplayStrategy {
    /// Which of the four renderings this is.
    pub open spec fn kind(&self) -> DisplayKind {
        match self {
            DisplayStrategy::Integer(_) => DisplayKind::Integer,
            DisplayStrategy::IntegerWithUnit(_) => DisplayKind::IntegerWithUnit,
            DisplayStrategy::Percent(_) => DisplayKind::Percent,
            DisplayStrategy::OnOff(_) => DisplayKind::OnOff,
        }
    }

    /// The unit that follows the number, where the rendering has one.
    pub open spec fn unit(&self) -> Seq<char> {
        match self {
            DisplayStrategy::IntegerWithUnit(converter) => converter.unit(),
            _ => Seq::empty(),
        }
    }
}

impl<T: Float> StringConverter<T> for DisplayStrategy {
    open spec fn spec_to_string(&self, value: T) -> Seq<char> {
        match self {
            DisplayStrategy::Integer(converter) => converter.spec_to_string(value),
            DisplayStrategy::IntegerWithUnit(converter) => converter.spec_to_string(value),
            DisplayStrategy::Percent(converter) => converter.spec_to_string(value),
            DisplayStrategy::OnOff(converter) => converter.spec_to_string(value),
        }
    }

    fn to_string(&self, value: T) -> (text: String) {
        match self {
            DisplayStrategy::Integer(converter) => converter.to_string(value),
            DisplayStrategy::IntegerWithUnit(converter) => converter.to_string(value),
            DisplayStrategy::Percent(converter) => converter.to_string(value),
            DisplayStrategy::OnOff(converter) => converter.to_string(value),
        }
    }
}

} // verus!

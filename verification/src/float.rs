//! The arithmetic that the reverberator asks of a sample type.
//!
//! The filters are written once, for any type that implements [`Float`]. Their
//! contracts say which operations are applied to which operands, and in which
//! order: they are stated over the specifications of the operators
//! (`add_spec`, `mul_spec` and so on) and over the names that this module
//! gives to the results of the methods of [`Float`].
use core::ops::{Add, Div, Mul, Sub};
use vstd::prelude::*;
use vstd::std_specs::cmp::*;
use vstd::std_specs::convert::*;
use vstd::std_specs::ops::*;

verus! {

/// An exact fraction `num / den`, from which a sample type builds the
/// constants of the reverberator. The crate builds none with a zero
/// denominator.
#[derive(Clone, Copy, Debug, PartialEq, Eq, Structural)]
pub struct Ratio {
    pub num: i32,
    pub den: u32,
}

/// A sample type: a number with the four arithmetic operators, a comparison
/// for equality, a conversion from exact fractions, the two logarithmic
/// functions that the logarithmic parameter scale needs, and a rendering as
/// a whole number.
///
/// The contracts of this crate hold for sample types that meet
/// [`obeys_arithmetic`]: every operator and every method is a function of its
/// operands that always returns. Division by zero, in particular, has to
/// return some sample.
pub trait Float: Copy + Add<Output = Self> + Sub<Output = Self> + Mul<Output = Self> + Div<
    Output = Self,
> + PartialEq + From<Ratio> {
    /// Takes the base-2 logarithm of `self`.
    fn log2(self) -> Self;

    /// Raises two to the power `self`.
    fn exp2(self) -> Self;

    /// Renders `self`, rounded to a whole number, as decimal text.
    fn rounded(self) -> String;
}

/// The sample that stands for the fraction `num / den`.
pub open spec fn ratio<T: Float>(num: i32, den: u32) -> T {
    T::from_spec(Ratio { num, den })
}

/// The sample that stands for zero.
pub open spec fn zero<T: Float>() -> T {
    ratio::<T>(0, 1)
}

/// The sample that stands for one.
pub open spec fn one<T: Float>() -> T {
    ratio::<T>(1, 1)
}

/// The sample that [`Float::log2`] returns for `x`.
pub open spec fn log2_of<T: Float>(x: T) -> T {
    choose|r: T| call_ensures(T::log2, (x,), r)
}

/// The sample that [`Float::exp2`] returns for `x`.
pub open spec fn exp2_of<T: Float>(x: T) -> T {
    choose|r: T| call_ensures(T::exp2, (x,), r)
}

/// The text that [`Float::rounded`] returns for `x`.
pub open spec fn rounded_of<T: Float>(x: T) -> Seq<char> {
    (choose|text: String| call_ensures(T::rounded, (x,), text))@
}

/// The operators and methods of `T` are functions: each of them accepts all
/// operands, and what it returns depends on the operands alone.
pub open spec fn obeys_arithmetic<T: Float>() -> bool {
    &&& T::obeys_from_spec()
    &&& T::obeys_eq_spec()
    &&& T::obeys_add_spec()
    &&& T::obeys_sub_spec()
    &&& T::obeys_mul_spec()
    &&& T::obeys_div_spec()
    &&& forall|a: T, b: T| #[trigger] a.add_req(b)
    &&& forall|a: T, b: T| #[trigger] a.sub_req(b)
    &&& forall|a: T, b: T| #[trigger] a.mul_req(b)
    &&& forall|a: T, b: T| #[trigger] a.div_req(b)
    &&& forall|x: T, r: T| #[trigger] call_ensures(T::log2, (x,), r) ==> r == log2_of(x)
    &&& forall|x: T, r: T| #[trigger] call_ensures(T::exp2, (x,), r) ==> r == exp2_of(x)
    &&& forall|x: T, text: String| #[trigger]
        call_ensures(T::rounded, (x,), text) ==> text@ == rounded_of(x)
}

/// Zero and one behave in `T` as they do in exact arithmetic: multiplying by
/// one, dividing by one, adding zero and subtracting zero change nothing,
/// and a product with zero is zero.
///
/// Exact number types meet this. Binary floating point meets it for finite
/// operands, up to the sign of a zero.
pub open spec fn exact_units<T: Float>() -> bool {
    &&& forall|x: T| #[trigger] x.mul_spec(one::<T>()) == x
    &&& forall|x: T| #[trigger] x.mul_spec(zero::<T>()) == zero::<T>()
    &&& forall|x: T| #[trigger] zero::<T>().mul_spec(x) == zero::<T>()
    &&& forall|x: T| #[trigger] x.div_spec(one::<T>()) == x
    &&& forall|x: T| #[trigger] x.add_spec(zero::<T>()) == x
    &&& forall|x: T| #[trigger] zero::<T>().add_spec(x) == x
    &&& forall|x: T| #[trigger] x.sub_spec(zero::<T>()) == x
}

/// Builds the sample for the fraction `num / den`.
pub fn constant<T: Float>(num: i32, den: u32) -> (sample: T)
    requires
        obeys_arithmetic::<T>(),
        den > 0,
    ensures
        sample == ratio::<T>(num, den),
{
    T::from(Ratio { num, den })
}

} // verus!

//! The constants of the Freeverb algorithm.
//!
//! The delay lengths are in samples at the reference rate of 44100 Hz. Each
//! right-hand delay line is longer than its left-hand twin by the stereo
//! spread, which decorrelates the two channels.
use crate::float::{constant, Float};
use vstd::prelude::*;

verus! {

/// The sample rate, in Hz, for which the delay lengths are given.
pub const REFERENCE_RATE: usize = 44100;

/// The number of samples by which a right-hand delay line is longer.
pub const STEREO_SPREAD: usize = 23;

pub const COMB_TUNING_L1: usize = 1116;

pub const COMB_TUNING_R1: usize = COMB_TUNING_L1 + STEREO_SPREAD;

pub const COMB_TUNING_L2: usize = 1188;

pub const COMB_TUNING_R2: usize = COMB_TUNING_L2 + STEREO_SPREAD;

pub const COMB_TUNING_L3: usize = 1277;

pub const COMB_TUNING_R3: usize = COMB_TUNING_L3 + STEREO_SPREAD;

pub const COMB_TUNING_L4: usize = 1356;

pub const COMB_TUNING_R4: usize = COMB_TUNING_L4 + STEREO_SPREAD;

pub const COMB_TUNING_L5: usize = 1422;

pub const COMB_TUNING_R5: usize = COMB_TUNING_L5 + STEREO_SPREAD;

pub const COMB_TUNING_L6: usize = 1491;

pub const COMB_TUNING_R6: usize = COMB_TUNING_L6 + STEREO_SPREAD;

pub const COMB_TUNING_L7: usize = 1557;

pub const COMB_TUNING_R7: usize = COMB_TUNING_L7 + STEREO_SPREAD;

pub const COMB_TUNING_L8: usize = 1617;

pub const COMB_TUNING_R8: usize = COMB_TUNING_L8 + STEREO_SPREAD;

pub const ALLPASS_TUNING_L1: usize = 556;

pub const ALLPASS_TUNING_R1: usize = ALLPASS_TUNING_L1 + STEREO_SPREAD;

pub const ALLPASS_TUNING_L2: usize = 441;

pub const ALLPASS_TUNING_R2: usize = ALLPASS_TUNING_L2 + STEREO_SPREAD;

pub const ALLPASS_TUNING_L3: usize = 341;

pub const ALLPASS_TUNING_R3: usize = ALLPASS_TUNING_L3 + STEREO_SPREAD;

pub const ALLPASS_TUNING_L4: usize = 225;

pub const ALLPASS_TUNING_R4: usize = ALLPASS_TUNING_L4 + STEREO_SPREAD;

/// The left-hand delay lengths of the eight comb pairs.
pub open spec fn comb_tuning() -> Seq<int> {
    seq![
        COMB_TUNING_L1 as int,
        COMB_TUNING_L2 as int,
        COMB_TUNING_L3 as int,
        COMB_TUNING_L4 as int,
        COMB_TUNING_L5 as int,
        COMB_TUNING_L6 as int,
        COMB_TUNING_L7 as int,
        COMB_TUNING_L8 as int,
    ]
}

/// The left-hand delay lengths of the four all-pass pairs.
pub open spec fn allpass_tuning() -> Seq<int> {
    seq![
        ALLPASS_TUNING_L1 as int,
        ALLPASS_TUNING_L2 as int,
        ALLPASS_TUNING_L3 as int,
        ALLPASS_TUNING_L4 as int,
    ]
}

/// The gain applied to the sum of the two input channels: 0.015.
pub open spec fn spec_fixed_gain<T: Float>() -> T {
    crate::float::ratio::<T>(15, 1000)
}

/// The factor from the normalized wet level to the stored one: 3.
pub open spec fn spec_scale_wet<T: Float>() -> T {
    crate::float::ratio::<T>(3, 1)
}

/// The factor from the normalized dampening to the stored one: 0.4.
pub open spec fn spec_scale_dampening<T: Float>() -> T {
    crate::float::ratio::<T>(4, 10)
}

/// The factor from the normalized room size to the stored one: 0.28.
pub open spec fn spec_scale_room<T: Float>() -> T {
    crate::float::ratio::<T>(28, 100)
}

/// The offset added to the scaled room size: 0.7.
pub open spec fn spec_offset_room<T: Float>() -> T {
    crate::float::ratio::<T>(7, 10)
}

/// The gain applied to the sum of the two input channels: 0.015.
#[verifier::when_used_as_spec(spec_fixed_gain)]
pub fn fixed_gain<T: Float>() -> (gain: T)
    requires
        crate::float::obeys_arithmetic::<T>(),
    ensures
        gain == spec_fixed_gain::<T>(),
{
    constant(15, 1000)
}

/// The factor from the normalized wet level to the stored one: 3.
#[verifier::when_used_as_spec(spec_scale_wet)]
pub fn scale_wet<T: Float>() -> (scale: T)
    requires
        crate::float::obeys_arithmetic::<T>(),
    ensures
        scale == spec_scale_wet::<T>(),
{
    constant(3, 1)
}

/// The factor from the normalized dampening to the stored one: 0.4.
#[verifier::when_used_as_spec(spec_scale_dampening)]
pub fn scale_dampening<T: Float>() -> (scale: T)
    requires
        crate::float::obeys_arithmetic::<T>(),
    ensures
        scale == spec_scale_dampening::<T>(),
{
    constant(4, 10)
}

/// The factor from the normalized room size to the stored one: 0.28.
#[verifier::when_used_as_spec(spec_scale_room)]
pub fn scale_room<T: Float>() -> (scale: T)
    requires
        crate::float::obeys_arithmetic::<T>(),
    ensures
        scale == spec_scale_room::<T>(),
{
    constant(28, 100)
}

/// The offset added to the scaled room size: 0.7.
#[verifier::when_used_as_spec(spec_offset_room)]
pub fn offset_room<T: Float>() -> (offset: T)
    requires
        crate::float::obeys_arithmetic::<T>(),
    ensures
        offset == spec_offset_room::<T>(),
{
    constant(7, 10)
}

} // verus!

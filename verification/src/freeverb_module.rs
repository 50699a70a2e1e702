//! The reverberator as an audio effect: its processor, which takes commands
//! and buffers, and the descriptors of its six parameters.
use crate::command::{Command, CommandHandler};
use crate::float::{constant, Float};
use crate::freeverb::{supports_rate, Freeverb, FreeverbState};
use crate::module::{AudioModule, ParameterProvider};
use crate::parameter::{BoolParameter, FloatParameter, Parameter, ParameterDescriptor, ValueType};
use crate::processor::AudioProcessor;
use crate::string_converter::DisplayKind;
use crate::value_converter::{
    ConversionStrategy, DefaultValueConverter, LinearValueConverter, ValueConverter,
};
use vstd::prelude::*;
use vstd::std_specs::cmp::*;
use vstd::std_specs::ops::*;

verus! {

/// The parameters of the reverberator, in the order of their ids.
#[derive(Clone, Copy, Debug, PartialEq, Eq, Structural)]
pub enum Parameters {
    Dampening,
    Width,
    RoomSize,
    Freeze,
    Dry,
    Wet,
}

impl Parameters {
    /// The parameter with the id `id`, if there is one.
    pub open spec fn spec_from_usize(id: usize) -> Option<Parameters> {
        if id == 0 {
            Some(Parameters::Dampening)
        } else if id == 1 {
            Some(Parameters::Width)
        } else if id == 2 {
            Some(Parameters::RoomSize)
        } else if id == 3 {
            Some(Parameters::Freeze)
        } else if id == 4 {
            Some(Parameters::Dry)
        } else if id == 5 {
            Some(Parameters::Wet)
        } else {
            None
        }
    }

    /// Returns the parameter with the id `id`, if there is one.
    pub fn from_usize(id: usize) -> (parameter: Option<Parameters>)
        ensures
            parameter == Self::spec_from_usize(id),
    {
        match id {
            0 => Some(Parameters::Dampening),
            1 => Some(Parameters::Width),
            2 => Some(Parameters::RoomSize),
            3 => Some(Parameters::Freeze),
            4 => Some(Parameters::Dry),
            5 => Some(Parameters::Wet),
            _ => None,
        }
    }
}

/// The processor of the reverberator.
pub struct FreeverbProcessor<T> {
    freeverb: Freeverb<T>,
}

impl<T> View for FreeverbProcessor<T> {
    type V = FreeverbState<T>;

    closed spec fn view(&self) -> FreeverbState<T> {
        self.freeverb@
    }
}

impl<T: Float> FreeverbProcessor<T> {
    /// Makes a processor for `sample_rate`, in Hz.
    pub fn new(sample_rate: usize) -> (processor: Self)
        requires
            crate::float::obeys_arithmetic::<T>(),
            crate::freeverb::spec_supports_rate(sample_rate as int),
        ensures
            processor@ == FreeverbState::<T>::initial(sample_rate as int),
            processor@.wf(),
    {
        FreeverbProcessor { freeverb: Freeverb::new(sample_rate) }
    }
}

impl<T: Float> CommandHandler<T> for FreeverbProcessor<T> {
    /// A command is accepted if it names one of the six parameters.
    open spec fn accepts(state: FreeverbState<T>, command: Command<T>) -> bool {
        match command {
            Command::SetParameter(id, _) => Parameters::spec_from_usize(id) is Some,
        }
    }

    /// A command sets the parameter that it names from its normalized
    /// value. The freeze is switched on by any value but zero.
    open spec fn handled(state: FreeverbState<T>, command: Command<T>) -> FreeverbState<T> {
        match command {
            Command::SetParameter(id, value) => match Parameters::spec_from_usize(id) {
                Some(Parameters::Dampening) => state.with_dampening(value),
                Some(Parameters::Width) => state.with_width(value),
                Some(Parameters::RoomSize) => state.with_room_size(value),
                Some(Parameters::Freeze) => state.with_freeze(
                    !value.eq_spec(&crate::float::zero::<T>()),
                ),
                Some(Parameters::Dry) => state.with_dry(value),
                Some(Parameters::Wet) => state.with_wet(value),
                None => state,
            },
        }
    }

    fn can_handle(&self, command: &Command<T>) -> (accepted: bool) {
        match command {
            Command::SetParameter(id, _) => Parameters::from_usize(*id).is_some(),
        }
    }

    fn handle_command(&mut self, command: Command<T>) {
        match command {
            Command::SetParameter(id, value) => match Parameters::from_usize(id).unwrap() {
                Parameters::Dampening => {
                    self.freeverb.set_dampening(value);
                },
                Parameters::Width => {
                    self.freeverb.set_width(value);
                },
                Parameters::RoomSize => {
                    self.freeverb.set_room_size(value);
                },
                Parameters::Freeze => {
                    let zero: T = constant(0, 1);
                    self.freeverb.set_freeze(!(value == zero));
                },
                Parameters::Dry => {
                    self.freeverb.set_dry(value);
                },
                Parameters::Wet => {
                    self.freeverb.set_wet(value);
                },
            },
        }
    }
}

impl<T: Float> AudioProcessor<T> for FreeverbProcessor<T> {
    /// Each frame is one step of the reverberator.
    open spec fn processed(state: FreeverbState<T>, input: Seq<T>) -> (FreeverbState<T>, Seq<T>) {
        (state.after_frames(input, (input.len() / 2) as int), state.produced(input))
    }

    fn process_stereo(&mut self, input: &[T], output: &mut [T]) {
        let ghost before = self@;
        let mut i: usize = 0;
        while i < input.len()
            invariant
                crate::float::obeys_arithmetic::<T>(),
                i % 2 == 0,
                i <= input@.len(),
                input@.len() % 2 == 0,
                output@.len() == input@.len(),
                self@ == before.after_frames(input@, (i / 2) as int),
                forall|k: int| 0 <= k < i ==> output@[k] == #[trigger] before.produced(input@)[k],
            decreases input@.len() - i,
        {
            let result = self.freeverb.tick((input[i], input[i + 1]));
            output[i] = result.0;
            output[i + 1] = result.1;
            i += 2;
        }
    }
}

/// The reverberator as an audio effect.
pub struct FreeverbModule {}

impl FreeverbModule {
    /// The name of the parameter with the id `id`.
    pub open spec fn spec_name(id: usize) -> Seq<char> {
        match Parameters::spec_from_usize(id) {
            Some(Parameters::Dampening) => "Dampening"@,
            Some(Parameters::Width) => "Width"@,
            Some(Parameters::RoomSize) => "Room Size"@,
            Some(Parameters::Freeze) => "Freeze"@,
            Some(Parameters::Dry) => "Dry"@,
            Some(Parameters::Wet) => "Wet"@,
            None => Seq::empty(),
        }
    }

    /// The default of the parameter with the id `id`: one half for the
    /// dampening, the width and the room size, zero, which is off, for the
    /// freeze, zero for the dry level and one for the wet level.
    pub open spec fn spec_default_user_value<T: Float>(id: usize) -> T {
        match Parameters::spec_from_usize(id) {
            Some(Parameters::Dampening) => crate::float::ratio::<T>(1, 2),
            Some(Parameters::Width) => crate::float::ratio::<T>(1, 2),
            Some(Parameters::RoomSize) => crate::float::ratio::<T>(1, 2),
            Some(Parameters::Wet) => crate::float::one::<T>(),
            _ => crate::float::zero::<T>(),
        }
    }

    /// The kind of the parameter with the id `id`: the freeze is off or on,
    /// the others take a number.
    pub open spec fn spec_value_type(id: usize) -> ValueType {
        if Parameters::spec_from_usize(id) == Some(Parameters::Freeze) {
            ValueType::Bool
        } else {
            ValueType::Float
        }
    }

    /// The scale of the parameter with the id `id`: the identity for the
    /// freeze, the linear scale from zero to one for the others.
    pub open spec fn spec_value_converter<T: Float>(id: usize) -> ConversionStrategy<T> {
        if Parameters::spec_from_usize(id) == Some(Parameters::Freeze) {
            ConversionStrategy::Identity(DefaultValueConverter {  })
        } else {
            ConversionStrategy::Linear(
                LinearValueConverter {
                    min_user_value: crate::float::zero::<T>(),
                    user_value_range: crate::float::one::<T>().sub_spec(
                        crate::float::zero::<T>(),
                    ),
                },
            )
        }
    }

    /// The rendering of the parameter with the id `id`: a whole number for
    /// the freeze, a percentage for the others.
    pub open spec fn spec_display_kind(id: usize) -> DisplayKind {
        if Parameters::spec_from_usize(id) == Some(Parameters::Freeze) {
            DisplayKind::Integer
        } else {
            DisplayKind::Percent
        }
    }
}

impl<T: Float> ParameterProvider<T> for FreeverbModule {
    /// There are six parameters.
    open spec fn spec_parameter_count() -> nat {
        6
    }

    fn parameter_count() -> (count: usize) {
        let mut count: usize = 0;
        while Parameters::from_usize(count).is_some()
            invariant
                count <= 6,
            decreases 6 - count,
        {
            count += 1;
        }
        count
    }

    /// A descriptor describes a parameter if it gives the parameter's name,
    /// default, kind, scale and rendering, without a unit.
    open spec fn describes(id: usize, descriptor: ParameterDescriptor<T>) -> bool {
        &&& descriptor.spec_name() == Self::spec_name(id)
        &&& descriptor.spec_default_user_value() == Self::spec_default_user_value::<T>(id)
        &&& descriptor.spec_value_type() == Self::spec_value_type(id)
        &&& descriptor.spec_value_converter() == Self::spec_value_converter::<T>(id)
        &&& descriptor.spec_display_kind() == Self::spec_display_kind(id)
        &&& descriptor.spec_display_unit() == Seq::<char>::empty()
    }

    fn parameter(id: usize) -> (descriptor: ParameterDescriptor<T>) {
        match Parameters::from_usize(id).unwrap() {
            Parameters::Dampening => ParameterDescriptor::Float(
                FloatParameter::new("Dampening").string_converter(
                    DisplayKind::Percent,
                ).default_user_value(constant(1, 2)),
            ),
            Parameters::Width => ParameterDescriptor::Float(
                FloatParameter::new("Width").string_converter(
                    DisplayKind::Percent,
                ).default_user_value(constant(1, 2)),
            ),
            Parameters::RoomSize => ParameterDescriptor::Float(
                FloatParameter::new("Room Size").string_converter(
                    DisplayKind::Percent,
                ).default_user_value(constant(1, 2)),
            ),
            Parameters::Freeze => ParameterDescriptor::Bool(BoolParameter::new("Freeze")),
            Parameters::Dry => ParameterDescriptor::Float(
                FloatParameter::new("Dry").string_converter(
                    DisplayKind::Percent,
                ).default_user_value(constant(0, 1)),
            ),
            Parameters::Wet => ParameterDescriptor::Float(
                FloatParameter::new("Wet").string_converter(
                    DisplayKind::Percent,
                ).default_user_value(constant(1, 1)),
            ),
        }
    }
}

impl<T: Float> AudioModule<T> for FreeverbModule {
    type Processor = FreeverbProcessor<T>;

    /// A processor can be made for every rate at which no delay line is
    /// empty.
    open spec fn supports(sample_rate: usize) -> bool {
        crate::freeverb::spec_supports_rate(sample_rate as int)
    }

    open spec fn created(sample_rate: usize) -> FreeverbState<T> {
        FreeverbState::<T>::initial(sample_rate as int)
    }

    fn can_create(sample_rate: usize) -> (supported: bool) {
        supports_rate(sample_rate)
    }

    fn create_processor(sample_rate: usize) -> (processor: FreeverbProcessor<T>) {
        FreeverbProcessor::new(sample_rate)
    }
}

} // verus!

verus! {

/// The scale of every parameter of the reverberator is faithful: a domain
/// value converted to the normalized one and back is the value again, in a
/// sample type in which zero and one behave as in exact arithmetic.
pub proof fn lemma_parameter_scales_round_trip<T: Float>(
    id: usize,
    descriptor: ParameterDescriptor<T>,
    x: T,
)
    requires
        crate::float::exact_units::<T>(),
        id < 6,
        <FreeverbModule as ParameterProvider<T>>::describes(id, descriptor),
    ensures
        descriptor.spec_value_converter().spec_linear_to_user(
            descriptor.spec_value_converter().spec_user_to_linear(x),
        ) == x,
{
    // Each scale is the identity or the linear scale from zero to one, and
    // the range of that one is one.
    assert(crate::float::one::<T>().sub_spec(crate::float::zero::<T>())
        == crate::float::one::<T>());
}

} // verus!

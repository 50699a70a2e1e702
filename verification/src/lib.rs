//! A Freeverb reverberator whose filter network is verified.
//!
//! The crate holds the delay line, the all-pass and comb filters built on
//! it, the stereo reverberator that composes them, the parameter model
//! through which a control surface describes and scales its controls, and
//! the hand-over of commands from the control thread to the audio thread.
//!
//! Everything is generic over the sample type, which implements [`Float`].
pub mod all_pass;
pub mod comb;
pub mod command;
pub mod command_queue;
pub mod delay_line;
pub mod float;
pub mod freeverb;
pub mod freeverb_module;
pub mod module;
pub mod parameter;
pub mod processor;
pub mod string_converter;
pub mod tuning;
pub mod value_converter;

pub use crate::all_pass::AllPass;
pub use crate::comb::Comb;
pub use crate::command::{Command, CommandHandler};
pub use crate::command_queue::{apply, drain_commands, run_period};
pub use crate::delay_line::DelayLine;
pub use crate::float::{Float, Ratio};
pub use crate::freeverb::{adjust_length, supports_rate, Freeverb};
pub use crate::freeverb_module::{FreeverbModule, FreeverbProcessor, Parameters};
pub use crate::module::{AudioModule, ParameterProvider};
pub use crate::parameter::{
    float_string_converter, linear_value_converter, log_value_converter,
    percent_string_converter, BoolParameter, FloatParameter, Parameter, ParameterDescriptor,
    ValueType,
};
pub use crate::processor::AudioProcessor;
pub use crate::string_converter::{
    BoolStringConverter, DefaultStringConverter, DisplayKind, DisplayStrategy,
    FloatStringConverter, PercentStringConverter, StringConverter,
};
pub use crate::value_converter::{
    ConversionKind, ConversionStrategy, DefaultValueConverter, LinearValueConverter,
    LogValueConverter, ValueConverter,
};

//! Descriptors of the parameters that a control surface can show and change.
//!
//! A descriptor gives a parameter's name, the kind of value it takes, its
//! default, the scale between its normalized and its domain value, and the
//! way its domain value is shown as text.
use crate::float::{constant, Float};
use crate::string_converter::{
    BoolStringConverter, DefaultStringConverter, DisplayKind, DisplayStrategy,
    FloatStringConverter, PercentStringConverter,
};
use crate::value_converter::{
    ConversionKind, ConversionStrategy, DefaultValueConverter, LinearValueConverter,
    LogValueConverter,
};
use vstd::prelude::*;
use vstd::std_specs::ops::*;

verus! {

/// The kind of value that a parameter takes.
#[derive(Clone, Copy, Debug, PartialEq, Eq, Structural)]
pub enum ValueType {
    Float,
    Bool,
}

/// What a control surface can ask of a parameter.
pub trait Parameter<T: Float> {
    /// The name shown for the parameter.
    spec fn spec_name(&self) -> Seq<char>;

    /// The default, as a domain value.
    spec fn spec_default_user_value(&self) -> T;

    /// The kind of value that the parameter takes.
    spec fn spec_value_type(&self) -> ValueType;

    /// The scale between normalized and domain values.
    spec fn spec_value_converter(&self) -> ConversionStrategy<T>;

    /// Which rendering shows a domain value as text.
    spec fn spec_display_kind(&self) -> DisplayKind;

    /// The unit that the rendering puts behind the number, if it puts one.
    spec fn spec_display_unit(&self) -> Seq<char>;

    /// Returns the name shown for the parameter.
    fn name(&self) -> (name: String)
        ensures
            name@ == self.spec_name(),
    ;

    /// Returns the default, as a domain value.
    fn default_user_value(&self) -> (value: T)
        requires
            crate::float::obeys_arithmetic::<T>(),
        ensures
            value == self.spec_default_user_value(),
    ;

    /// Returns the kind of value that the parameter takes.
    fn value_type(&self) -> (kind: ValueType)
        ensures
            kind == self.spec_value_type(),
    ;

    /// Makes the scale between normalized and domain values.
    fn make_value_converter(&self) -> (converter: ConversionStrategy<T>)
        requires
            crate::float::obeys_arithmetic::<T>(),
        ensures
            converter == self.spec_value_converter(),
    ;

    /// Makes the rendering of domain values as text.
    fn make_string_converter(&self) -> (converter: DisplayStrategy)
        ensures
            converter.kind() == self.spec_display_kind(),
            converter.unit() == self.spec_display_unit(),
    ;
}

/// A parameter that is either off or on. Its domain value is zero for off
/// and one for on, on the identity scale, shown as a whole number.
pub struct BoolParameter {
    pub name: String,
    pub default_user_value: bool,
}

impl BoolParameter {
    /// Makes a parameter called `name` that is off by default.
    pub fn new(name: &str) -> (parameter: Self)
        ensures
            parameter.name@ == name@,
            !parameter.default_user_value,
    {
        BoolParameter { name: String::from_str(name), default_user_value: false }
    }

    /// Returns the parameter with its default replaced by `default`.
    pub fn default_user_value(self, default: bool) -> (parameter: Self)
        ensures
            parameter.name == self.name,
            parameter.default_user_value == default,
    {
        BoolParameter { name: self.name, default_user_value: default }
    }
}

impl<T: Float> Parameter<T> for BoolParameter {
    open spec fn spec_name(&self) -> Seq<char> {
        self.name@
    }

    open spec fn spec_default_user_value(&self) -> T {
        if self.default_user_value {
            crate::float::one::<T>()
        } else {
            crate::float::zero::<T>()
        }
    }

    open spec fn spec_value_type(&self) -> ValueType {
        ValueType::Bool
    }

    open spec fn spec_value_converter(&self) -> ConversionStrategy<T> {
        ConversionStrategy::Identity(DefaultValueConverter {  })
    }

    open spec fn spec_display_kind(&self) -> DisplayKind {
        DisplayKind::Integer
    }

    open spec fn spec_display_unit(&self) -> Seq<char> {
        Seq::empty()
    }

    fn name(&self) -> (name: String) {
        self.name.clone()
    }

    fn default_user_value(&self) -> (value: T) {
        if self.default_user_value {
            constant(1, 1)
        } else {
            constant(0, 1)
        }
    }

    fn value_type(&self) -> (kind: ValueType) {
        ValueType::Bool
    }

    fn make_value_converter(&self) -> (converter: ConversionStrategy<T>) {
        ConversionStrategy::Identity(DefaultValueConverter {  })
    }

    fn make_string_converter(&self) -> (converter: DisplayStrategy) {
        DisplayStrategy::Integer(DefaultStringConverter {  })
    }
}

/// A parameter that takes a number from a range.
pub struct FloatParameter<T> {
    pub name: String,
    pub unit: String,
    pub min_user_value: T,
    pub max_user_value: T,
    pub default_user_value: T,
    pub value_converter_maker: ConversionKind,
    pub string_converter_maker: DisplayKind,
}

impl<T: Float> FloatParameter<T> {
    /// Makes a parameter called `name`, without a unit, that ranges from
    /// zero to one on the linear scale, with zero as its default, shown as a
    /// whole number with the unit.
    pub fn new(name: &str) -> (parameter: Self)
        requires
            crate::float::obeys_arithmetic::<T>(),
        ensures
            parameter.name@ == name@,
            parameter.unit@ == Seq::<char>::empty(),
            parameter.min_user_value == crate::float::zero::<T>(),
            parameter.max_user_value == crate::float::one::<T>(),
            parameter.default_user_value == crate::float::zero::<T>(),
            parameter.value_converter_maker == ConversionKind::Linear,
            parameter.string_converter_maker == DisplayKind::IntegerWithUnit,
    {
        FloatParameter {
            name: String::from_str(name),
            unit: String::new(),
            min_user_value: constant(0, 1),
            max_user_value: constant(1, 1),
            default_user_value: constant(0, 1),
            value_converter_maker: ConversionKind::Linear,
            string_converter_maker: DisplayKind::IntegerWithUnit,
        }
    }

    /// Returns the parameter with its unit replaced by `unit`.
    pub fn unit(self, unit: &str) -> (parameter: Self)
        ensures
            parameter.unit@ == unit@,
            parameter.name == self.name,
            parameter.min_user_value == self.min_user_value,
            parameter.max_user_value == self.max_user_value,
            parameter.default_user_value == self.default_user_value,
            parameter.value_converter_maker == self.value_converter_maker,
            parameter.string_converter_maker == self.string_converter_maker,
    {
        FloatParameter { unit: String::from_str(unit), ..self }
    }

    /// Returns the parameter with its range replaced by `min` to `max`.
    pub fn range(self, min: T, max: T) -> (parameter: Self)
        ensures
            parameter == (FloatParameter { min_user_value: min, max_user_value: max, ..self }),
    {
        FloatParameter { min_user_value: min, max_user_value: max, ..self }
    }

    /// Returns the parameter with its default replaced by `default`.
    pub fn default_user_value(self, default: T) -> (parameter: Self)
        ensures
            parameter == (FloatParameter { default_user_value: default, ..self }),
    {
        FloatParameter { default_user_value: default, ..self }
    }

    /// Returns the parameter with its scale replaced by `converter`.
    pub fn value_converter(self, converter: ConversionKind) -> (parameter: Self)
        ensures
            parameter == (FloatParameter { value_converter_maker: converter, ..self }),
    {
        FloatParameter { value_converter_maker: converter, ..self }
    }

    /// Returns the parameter with its rendering replaced by `converter`.
    pub fn string_converter(self, converter: DisplayKind) -> (parameter: Self)
        ensures
            parameter == (FloatParameter { string_converter_maker: converter, ..self }),
    {
        FloatParameter { string_converter_maker: converter, ..self }
    }
}

/// Makes the linear scale over the range of `parameter`.
pub fn linear_value_converter<T: Float>(parameter: &FloatParameter<T>) -> (converter:
    ConversionStrategy<T>)
    requires
        crate::float::obeys_arithmetic::<T>(),
    ensures
        converter == parameter.spec_value_converter_of(ConversionKind::Linear),
{
    ConversionStrategy::Linear(
        LinearValueConverter::new(parameter.min_user_value, parameter.max_user_value),
    )
}

/// Makes the logarithmic scale over the range of `parameter`.
pub fn log_value_converter<T: Float>(parameter: &FloatParameter<T>) -> (converter:
    ConversionStrategy<T>)
    requires
        crate::float::obeys_arithmetic::<T>(),
    ensures
        converter == parameter.spec_value_converter_of(ConversionKind::Logarithmic),
{
    ConversionStrategy::Logarithmic(
        LogValueConverter::new(parameter.min_user_value, parameter.max_user_value),
    )
}

/// Makes the rendering as a whole number followed by the unit of
/// `parameter`.
pub fn float_string_converter<T: Float>(parameter: &FloatParameter<T>) -> (converter:
    DisplayStrategy)
    ensures
        converter.kind() == DisplayKind::IntegerWithUnit,
        converter.unit() == parameter.unit@,
{
    DisplayStrategy::IntegerWithUnit(FloatStringConverter::new(parameter.unit.clone()))
}

/// Makes the rendering as a percentage, which is the same for every
/// parameter.
pub fn percent_string_converter<T: Float>(parameter: &FloatParameter<T>) -> (converter:
    DisplayStrategy)
    ensures
        converter.kind() == DisplayKind::Percent,
        converter.unit() == Seq::<char>::empty(),
{
    DisplayStrategy::Percent(PercentStringConverter {  })
}

impl<T: Float> FloatParameter<T> {
    /// The scale named `kind` over the range of this parameter.
    pub open spec fn spec_value_converter_of(&self, kind: ConversionKind) -> ConversionStrategy<
        T,
    > {
        match kind {
            ConversionKind::Identity => ConversionStrategy::Identity(DefaultValueConverter {  }),
            ConversionKind::Linear => ConversionStrategy::Linear(
                LinearValueConverter {
                    min_user_value: self.min_user_value,
                    user_value_range: self.max_user_value.sub_spec(self.min_user_value),
                },
            ),
            ConversionKind::Logarithmic => ConversionStrategy::Logarithmic(
                LogValueConverter {
                    log_min_user_value: crate::float::log2_of(self.min_user_value),
                    log_user_value_range: crate::float::log2_of(self.max_user_value).sub_spec(
                        crate::float::log2_of(self.min_user_value),
                    ),
                },
            ),
        }
    }
}

impl<T: Float> Parameter<T> for FloatParameter<T> {
    open spec fn spec_name(&self) -> Seq<char> {
        self.name@
    }

    open spec fn spec_default_user_value(&self) -> T {
        self.default_user_value
    }

    open spec fn spec_value_type(&self) -> ValueType {
        ValueType::Float
    }

    open spec fn spec_value_converter(&self) -> ConversionStrategy<T> {
        self.spec_value_converter_of(self.value_converter_maker)
    }

    open spec fn spec_display_kind(&self) -> DisplayKind {
        self.string_converter_maker
    }

    open spec fn spec_display_unit(&self) -> Seq<char> {
        if self.string_converter_maker == DisplayKind::IntegerWithUnit {
            self.unit@
        } else {
            Seq::empty()
        }
    }

    fn name(&self) -> (name: String) {
        self.name.clone()
    }

    fn default_user_value(&self) -> (value: T) {
        self.default_user_value
    }

    fn value_type(&self) -> (kind: ValueType) {
        ValueType::Float
    }

    fn make_value_converter(&self) -> (converter: ConversionStrategy<T>) {
        match self.value_converter_maker {
            ConversionKind::Identity => ConversionStrategy::Identity(DefaultValueConverter {  }),
            ConversionKind::Linear => linear_value_converter(self),
            ConversionKind::Logarithmic => log_value_converter(self),
        }
    }

    fn make_string_converter(&self) -> (converter: DisplayStrategy) {
        match self.string_converter_maker {
            DisplayKind::Integer => DisplayStrategy::Integer(DefaultStringConverter {  }),
            DisplayKind::IntegerWithUnit => float_string_converter(self),
            DisplayKind::Percent => percent_string_converter(self),
            DisplayKind::OnOff => DisplayStrategy::OnOff(BoolStringConverter {  }),
        }
    }
}

/// The descriptor of a parameter of either kind.
pub enum ParameterDescriptor<T> {
    Bool(BoolParameter),
    Float(FloatParameter<T>),
}

impl<T: Float> Parameter<T> for ParameterDescriptor<T> {
    open spec fn spec_name(&self) -> Seq<char> {
        match self {
            ParameterDescriptor::Bool(parameter) => Parameter::<T>::spec_name(parameter),
            ParameterDescriptor::Float(parameter) => parameter.spec_name(),
        }
    }

    open spec fn spec_default_user_value(&self) -> T {
        match self {
            ParameterDescriptor::Bool(parameter) => parameter.spec_default_user_value(),
            ParameterDescriptor::Float(parameter) => parameter.spec_default_user_value(),
        }
    }

    open spec fn spec_value_type(&self) -> ValueType {
        match self {
            ParameterDescriptor::Bool(parameter) => Parameter::<T>::spec_value_type(parameter),
            ParameterDescriptor::Float(parameter) => parameter.spec_value_type(),
        }
    }

    open spec fn spec_value_converter(&self) -> ConversionStrategy<T> {
        match self {
            ParameterDescriptor::Bool(parameter) => parameter.spec_value_converter(),
            ParameterDescriptor::Float(parameter) => parameter.spec_value_converter(),
        }
    }

    open spec fn spec_display_kind(&self) -> DisplayKind {
        match self {
            ParameterDescriptor::Bool(parameter) => Parameter::<T>::spec_display_kind(parameter),
            ParameterDescriptor::Float(parameter) => parameter.spec_display_kind(),
        }
    }

    open spec fn spec_display_unit(&self) -> Seq<char> {
        match self {
            ParameterDescriptor::Bool(parameter) => Parameter::<T>::spec_display_unit(parameter),
            ParameterDescriptor::Float(parameter) => parameter.spec_display_unit(),
        }
    }

    fn name(&self) -> (name: String) {
        match self {
            ParameterDescriptor::Bool(parameter) => Parameter::<T>::name(parameter),
            ParameterDescriptor::Float(parameter) => parameter.name(),
        }
    }

    fn default_user_value(&self) -> (value: T) {
        match self {
            ParameterDescriptor::Bool(parameter) => Parameter::<T>::default_user_value(parameter),
            ParameterDescriptor::Float(parameter) => Parameter::<T>::default_user_value(
                parameter,
            ),
        }
    }

    fn value_type(&self) -> (kind: ValueType) {
        match self {
            ParameterDescriptor::Bool(parameter) => Parameter::<T>::value_type(parameter),
            ParameterDescriptor::Float(parameter) => parameter.value_type(),
        }
    }

    fn make_value_converter(&self) -> (converter: ConversionStrategy<T>) {
        match self {
            ParameterDescriptor::Bool(parameter) => parameter.make_value_converter(),
            ParameterDescriptor::Float(parameter) => parameter.make_value_converter(),
        }
    }

    fn make_string_converter(&self) -> (converter: DisplayStrategy) {
        match self {
            ParameterDescriptor::Bool(parameter) => Parameter::<T>::make_string_converter(
                parameter,
            ),
            ParameterDescriptor::Float(parameter) => parameter.make_string_converter(),
        }
    }
}

} // verus!

//! Typed property descriptors and values.
//!
//! A [`Property`] describes what values one control accepts: its kind, its
//! bounds or its list of variants, its default, and whether it can be put in
//! automatic mode or is read-only. A [`PropertyValue`] is a concrete value, and
//! [`Property::validate`] decides whether a value may be assigned to a control.
use crate::duration::Duration;
use crate::float::FloatBits;
use crate::GenCamPixelBpp;
use vstd::prelude::*;

verus! {

/// Result type for property operations.
pub type PropertyResult<T> = Result<T, PropertyError>;

/// The kind of value a control takes.
#[derive(Clone, Copy, Debug, PartialEq, Eq, Hash, Structural)]
#[non_exhaustive]
pub enum PropertyType {
    /// A command: invoked, never assigned.
    Command,
    /// A boolean.
    Bool,
    /// A signed 64-bit integer.
    Int,
    /// A binary64 floating-point number.
    Float,
    /// An unsigned 64-bit integer.
    Unsigned,
    /// A pixel format ([`GenCamPixelBpp`]).
    PixelFmt,
    /// A time interval ([`Duration`]).
    Duration,
    /// One of a list of strings.
    EnumStr,
    /// One of a list of signed integers.
    EnumInt,
    /// One of a list of unsigned integers.
    EnumUnsigned,
}

impl PropertyType {
    /// The kinds whose values are bounded by a minimum and a maximum.
    pub open spec fn is_numeric(self) -> bool {
        self == PropertyType::Int || self == PropertyType::Float || self == PropertyType::Unsigned
            || self == PropertyType::Duration
    }

    /// The kinds whose values are taken from a list of variants.
    pub open spec fn is_enumerated(self) -> bool {
        self == PropertyType::PixelFmt || self == PropertyType::EnumStr || self
            == PropertyType::EnumInt || self == PropertyType::EnumUnsigned
    }
}

/// A property value.
#[derive(Debug, PartialEq, Eq)]
#[non_exhaustive]
pub enum PropertyValue {
    /// A command.
    Command,
    /// A boolean value.
    Bool(bool),
    /// An integer value.
    Int(i64),
    /// A floating-point value.
    Float(FloatBits),
    /// An unsigned integer value.
    Unsigned(u64),
    /// A pixel format value.
    PixelFmt(GenCamPixelBpp),
    /// A duration value.
    Duration(Duration),
    /// A choice among strings.
    EnumStr(String),
    /// A choice among integers.
    EnumInt(i64),
    /// A choice among unsigned integers.
    EnumUnsigned(u64),
}

/// What a [`PropertyValue`] holds.
pub ghost enum ValueView {
    Command,
    Bool(bool),
    Int(i64),
    Float(FloatBits),
    Unsigned(u64),
    PixelFmt(GenCamPixelBpp),
    Duration(Duration),
    EnumStr(Seq<char>),
    EnumInt(i64),
    EnumUnsigned(u64),
}

impl ValueView {
    /// The kind of the value.
    pub open spec fn type_tag(self) -> PropertyType {
        match self {
            ValueView::Command => PropertyType::Command,
            ValueView::Bool(_) => PropertyType::Bool,
            ValueView::Int(_) => PropertyType::Int,
            ValueView::Float(_) => PropertyType::Float,
            ValueView::Unsigned(_) => PropertyType::Unsigned,
            ValueView::PixelFmt(_) => PropertyType::PixelFmt,
            ValueView::Duration(_) => PropertyType::Duration,
            ValueView::EnumStr(_) => PropertyType::EnumStr,
            ValueView::EnumInt(_) => PropertyType::EnumInt,
            ValueView::EnumUnsigned(_) => PropertyType::EnumUnsigned,
        }
    }
}

impl View for PropertyValue {
    type V = ValueView;

    open spec fn view(&self) -> ValueView {
        match *self {
            PropertyValue::Command => ValueView::Command,
            PropertyValue::Bool(b) => ValueView::Bool(b),
            PropertyValue::Int(x) => ValueView::Int(x),
            PropertyValue::Float(x) => ValueView::Float(x),
            PropertyValue::Unsigned(x) => ValueView::Unsigned(x),
            PropertyValue::PixelFmt(x) => ValueView::PixelFmt(x),
            PropertyValue::Duration(x) => ValueView::Duration(x),
            PropertyValue::EnumStr(s) => ValueView::EnumStr(s@),
            PropertyValue::EnumInt(x) => ValueView::EnumInt(x),
            PropertyValue::EnumUnsigned(x) => ValueView::EnumUnsigned(x),
        }
    }
}

impl Clone for PropertyValue {
    fn clone(&self) -> (r: Self)
        ensures
            r == *self,
    {
        match self {
            PropertyValue::Command => PropertyValue::Command,
            PropertyValue::Bool(b) => PropertyValue::Bool(*b),
            PropertyValue::Int(x) => PropertyValue::Int(*x),
            PropertyValue::Float(x) => PropertyValue::Float(*x),
            PropertyValue::Unsigned(x) => PropertyValue::Unsigned(*x),
            PropertyValue::PixelFmt(x) => PropertyValue::PixelFmt(*x),
            PropertyValue::Duration(x) => PropertyValue::Duration(*x),
            PropertyValue::EnumStr(s) => PropertyValue::EnumStr(s.clone()),
            PropertyValue::EnumInt(x) => PropertyValue::EnumInt(*x),
            PropertyValue::EnumUnsigned(x) => PropertyValue::EnumUnsigned(*x),
        }
    }
}

impl PropertyValue {
    /// The kind of the value.
    pub fn get_type(&self) -> (r: PropertyType)
        ensures
            r == self@.type_tag(),
    {
        match self {
            PropertyValue::Command => PropertyType::Command,
            PropertyValue::Bool(_) => PropertyType::Bool,
            PropertyValue::Int(_) => PropertyType::Int,
            PropertyValue::Float(_) => PropertyType::Float,
            PropertyValue::Unsigned(_) => PropertyType::Unsigned,
            PropertyValue::PixelFmt(_) => PropertyType::PixelFmt,
            PropertyValue::Duration(_) => PropertyType::Duration,
            PropertyValue::EnumStr(_) => PropertyType::EnumStr,
            PropertyValue::EnumInt(_) => PropertyType::EnumInt,
            PropertyValue::EnumUnsigned(_) => PropertyType::EnumUnsigned,
        }
    }
}


/// Property value error.
#[derive(Debug, PartialEq, Eq)]
pub enum PropertyError {
    /// Property not found.
    NotFound,
    /// Read only property.
    ReadOnly,
    /// Property not an enum.
    NotEnum,
    /// Property is not a number.
    NotNumber,
    /// Value out of range.
    ValueOutOfRange {
        /// The minimum value.
        min: PropertyValue,
        /// The maximum value.
        max: PropertyValue,
        /// The supplied value.
        value: PropertyValue,
    },
    /// Value not contained in the enum list.
    ValueNotSupported,
    /// Property is an enum, hence does not support a step.
    IsEnum,
    /// Auto mode not supported.
    AutoNotSupported,
    /// Invalid control type.
    InvalidControlType {
        /// The expected type.
        expected: PropertyType,
        /// The received type.
        received: PropertyType,
    },
    /// Empty enum list.
    EmptyEnumList,
}

impl Clone for PropertyError {
    fn clone(&self) -> (r: Self)
        ensures
            r == *self,
    {
        match self {
            PropertyError::NotFound => PropertyError::NotFound,
            PropertyError::ReadOnly => PropertyError::ReadOnly,
            PropertyError::NotEnum => PropertyError::NotEnum,
            PropertyError::NotNumber => PropertyError::NotNumber,
            PropertyError::ValueOutOfRange { min, max, value } => PropertyError::ValueOutOfRange {
                min: min.clone(),
                max: max.clone(),
                value: value.clone(),
            },
            PropertyError::ValueNotSupported => PropertyError::ValueNotSupported,
            PropertyError::IsEnum => PropertyError::IsEnum,
            PropertyError::AutoNotSupported => PropertyError::AutoNotSupported,
            PropertyError::InvalidControlType { expected, received } => {
                PropertyError::InvalidControlType { expected: *expected, received: *received }
            },
            PropertyError::EmptyEnumList => PropertyError::EmptyEnumList,
        }
    }
}

/// The limits of a property: one variant per kind of value.
#[derive(Debug, PartialEq, Eq)]
#[non_exhaustive]
#[allow(inconsistent_fields)]
pub enum PropertyLims {
    /// A command. It has no limits and takes no value.
    Command,
    /// A boolean property.
    Bool {
        /// The default value.
        default: bool,
    },
    /// An integer property.
    Int {
        /// The minimum value.
        min: i64,
        /// The maximum value.
        max: i64,
        /// The step size.
        step: i64,
        /// The default value.
        default: i64,
    },
    /// A floating-point property.
    Float {
        /// The minimum value.
        min: FloatBits,
        /// The maximum value.
        max: FloatBits,
        /// The step size.
        step: FloatBits,
        /// The default value.
        default: FloatBits,
    },
    /// An unsigned integer property.
    Unsigned {
        /// The minimum value.
        min: u64,
        /// The maximum value.
        max: u64,
        /// The step size.
        step: u64,
        /// The default value.
        default: u64,
    },
    /// A duration property.
    Duration {
        /// The minimum value.
        min: Duration,
        /// The maximum value.
        max: Duration,
        /// The step size.
        step: Duration,
        /// The default value.
        default: Duration,
    },
    /// A pixel format property.
    PixelFmt {
        /// The variants of the property.
        variants: Vec<GenCamPixelBpp>,
        /// The default value.
        default: GenCamPixelBpp,
    },
    /// An enum string property.
    EnumStr {
        /// The variants of the property.
        variants: Vec<String>,
        /// The default value.
        default: String,
    },
    /// An enum integer property.
    EnumInt {
        /// The variants of the property.
        variants: Vec<i64>,
        /// The default value.
        default: i64,
    },
    /// An enum unsigned integer property.
    EnumUnsigned {
        /// The variants of the property.
        variants: Vec<u64>,
        /// The default value.
        default: u64,
    },
}

/// What a [`PropertyLims`] holds.
#[allow(inconsistent_fields)]
pub ghost enum LimsView {
    Command,
    Bool { default: bool },
    Int { min: i64, max: i64, step: i64, default: i64 },
    Float { min: FloatBits, max: FloatBits, step: FloatBits, default: FloatBits },
    Unsigned { min: u64, max: u64, step: u64, default: u64 },
    Duration { min: Duration, max: Duration, step: Duration, default: Duration },
    PixelFmt { variants: Seq<GenCamPixelBpp>, default: GenCamPixelBpp },
    EnumStr { variants: Seq<Seq<char>>, default: Seq<char> },
    EnumInt { variants: Seq<i64>, default: i64 },
    EnumUnsigned { variants: Seq<u64>, default: u64 },
}

/// The contents of a list of strings.
pub open spec fn str_views(strings: Seq<String>) -> Seq<Seq<char>> {
    strings.map_values(|s: String| s@)
}

impl View for PropertyLims {
    type V = LimsView;

    open spec fn view(&self) -> LimsView {
        match *self {
            PropertyLims::Command => LimsView::Command,
            PropertyLims::Bool { default } => LimsView::Bool { default },
            PropertyLims::Int { min, max, step, default } => LimsView::Int {
                min,
                max,
                step,
                default,
            },
            PropertyLims::Float { min, max, step, default } => LimsView::Float {
                min,
                max,
                step,
                default,
            },
            PropertyLims::Unsigned { min, max, step, default } => LimsView::Unsigned {
                min,
                max,
                step,
                default,
            },
            PropertyLims::Duration { min, max, step, default } => LimsView::Duration {
                min,
                max,
                step,
                default,
            },
            PropertyLims::PixelFmt { variants, default } => LimsView::PixelFmt {
                variants: variants@,
                default,
            },
            PropertyLims::EnumStr { variants, default } => LimsView::EnumStr {
                variants: str_views(variants@),
                default: default@,
            },
            PropertyLims::EnumInt { variants, default } => LimsView::EnumInt {
                variants: variants@,
                default,
            },
            PropertyLims::EnumUnsigned { variants, default } => LimsView::EnumUnsigned {
                variants: variants@,
                default,
            },
        }
    }
}

impl LimsView {
    /// The kind of value the limits are for.
    pub open spec fn type_tag(self) -> PropertyType {
        match self {
            LimsView::Command => PropertyType::Command,
            LimsView::Bool { .. } => PropertyType::Bool,
            LimsView::Int { .. } => PropertyType::Int,
            LimsView::Float { .. } => PropertyType::Float,
            LimsView::Unsigned { .. } => PropertyType::Unsigned,
            LimsView::Duration { .. } => PropertyType::Duration,
            LimsView::PixelFmt { .. } => PropertyType::PixelFmt,
            LimsView::EnumStr { .. } => PropertyType::EnumStr,
            LimsView::EnumInt { .. } => PropertyType::EnumInt,
            LimsView::EnumUnsigned { .. } => PropertyType::EnumUnsigned,
        }
    }

    /// The value lies within the limits: it is of the kind the limits are
    /// for, and between the bounds (numeric kinds) or among the variants
    /// (enumerated kinds). Every boolean lies within the limits of a boolean
    /// property; nothing lies within those of a command.
    pub open spec fn admits(self, value: ValueView) -> bool {
        match (self, value) {
            (LimsView::Bool { .. }, ValueView::Bool(_)) => true,
            (LimsView::Int { min, max, .. }, ValueView::Int(x)) => min <= x <= max,
            (LimsView::Float { min, max, .. }, ValueView::Float(x)) => min.le_spec(x) && x.le_spec(
                max,
            ),
            (LimsView::Unsigned { min, max, .. }, ValueView::Unsigned(x)) => min <= x <= max,
            (LimsView::Duration { min, max, .. }, ValueView::Duration(x)) => min.le_spec(x)
                && x.le_spec(max),
            (LimsView::PixelFmt { variants, .. }, ValueView::PixelFmt(x)) => variants.contains(x),
            (LimsView::EnumStr { variants, .. }, ValueView::EnumStr(s)) => variants.contains(s),
            (LimsView::EnumInt { variants, .. }, ValueView::EnumInt(x)) => variants.contains(x),
            (LimsView::EnumUnsigned { variants, .. }, ValueView::EnumUnsigned(x)) => {
                variants.contains(x)
            },
            _ => false,
        }
    }

    /// The lower bound, for the numeric kinds.
    pub open spec fn min(self) -> Option<ValueView> {
        match self {
            LimsView::Int { min, .. } => Some(ValueView::Int(min)),
            LimsView::Float { min, .. } => Some(ValueView::Float(min)),
            LimsView::Unsigned { min, .. } => Some(ValueView::Unsigned(min)),
            LimsView::Duration { min, .. } => Some(ValueView::Duration(min)),
            _ => None,
        }
    }

    /// The upper bound, for the numeric kinds.
    pub open spec fn max(self) -> Option<ValueView> {
        match self {
            LimsView::Int { max, .. } => Some(ValueView::Int(max)),
            LimsView::Float { max, .. } => Some(ValueView::Float(max)),
            LimsView::Unsigned { max, .. } => Some(ValueView::Unsigned(max)),
            LimsView::Duration { max, .. } => Some(ValueView::Duration(max)),
            _ => None,
        }
    }

    /// The step, for the numeric kinds.
    pub open spec fn step(self) -> Option<ValueView> {
        match self {
            LimsView::Int { step, .. } => Some(ValueView::Int(step)),
            LimsView::Float { step, .. } => Some(ValueView::Float(step)),
            LimsView::Unsigned { step, .. } => Some(ValueView::Unsigned(step)),
            LimsView::Duration { step, .. } => Some(ValueView::Duration(step)),
            _ => None,
        }
    }

    /// The default value. The default of a command is the command itself.
    pub open spec fn default_value(self) -> ValueView {
        match self {
            LimsView::Command => ValueView::Command,
            LimsView::Bool { default } => ValueView::Bool(default),
            LimsView::Int { default, .. } => ValueView::Int(default),
            LimsView::Float { default, .. } => ValueView::Float(default),
            LimsView::Unsigned { default, .. } => ValueView::Unsigned(default),
            LimsView::Duration { default, .. } => ValueView::Duration(default),
            LimsView::PixelFmt { default, .. } => ValueView::PixelFmt(default),
            LimsView::EnumStr { default, .. } => ValueView::EnumStr(default),
            LimsView::EnumInt { default, .. } => ValueView::EnumInt(default),
            LimsView::EnumUnsigned { default, .. } => ValueView::EnumUnsigned(default),
        }
    }

    /// The variants as values, for the enumerated kinds.
    pub open spec fn variants(self) -> Option<Seq<ValueView>> {
        match self {
            LimsView::PixelFmt { variants, .. } => Some(
                variants.map_values(|x: GenCamPixelBpp| ValueView::PixelFmt(x)),
            ),
            LimsView::EnumStr { variants, .. } => Some(
                variants.map_values(|s: Seq<char>| ValueView::EnumStr(s)),
            ),
            LimsView::EnumInt { variants, .. } => Some(
                variants.map_values(|x: i64| ValueView::EnumInt(x)),
            ),
            LimsView::EnumUnsigned { variants, .. } => Some(
                variants.map_values(|x: u64| ValueView::EnumUnsigned(x)),
            ),
            _ => None,
        }
    }
}


impl PropertyLims {
    /// The error that rejects a value which does not lie within the limits.
    ///
    /// A value of another kind is an invalid control type; a value of the
    /// right kind is out of range for the numeric kinds, and not supported for
    /// the others.
    pub open spec fn rejection(self, value: PropertyValue) -> PropertyError {
        if value@.type_tag() != self@.type_tag() {
            PropertyError::InvalidControlType {
                expected: self@.type_tag(),
                received: value@.type_tag(),
            }
        } else {
            match self {
                PropertyLims::Int { min, max, .. } => PropertyError::ValueOutOfRange {
                    min: PropertyValue::Int(min),
                    max: PropertyValue::Int(max),
                    value,
                },
                PropertyLims::Float { min, max, .. } => PropertyError::ValueOutOfRange {
                    min: PropertyValue::Float(min),
                    max: PropertyValue::Float(max),
                    value,
                },
                PropertyLims::Unsigned { min, max, .. } => PropertyError::ValueOutOfRange {
                    min: PropertyValue::Unsigned(min),
                    max: PropertyValue::Unsigned(max),
                    value,
                },
                PropertyLims::Duration { min, max, .. } => PropertyError::ValueOutOfRange {
                    min: PropertyValue::Duration(min),
                    max: PropertyValue::Duration(max),
                    value,
                },
                _ => PropertyError::ValueNotSupported,
            }
        }
    }

    /// The outcome of validating a value against the limits.
    pub open spec fn verdict(self, value: PropertyValue) -> PropertyResult<()> {
        if self@.admits(value@) {
            Ok(())
        } else {
            Err(self.rejection(value))
        }
    }

    /// The kind of value the limits are for.
    pub fn get_type(&self) -> (r: PropertyType)
        ensures
            r == self@.type_tag(),
    {
        match self {
            PropertyLims::Command => PropertyType::Command,
            PropertyLims::Bool { .. } => PropertyType::Bool,
            PropertyLims::Int { .. } => PropertyType::Int,
            PropertyLims::Float { .. } => PropertyType::Float,
            PropertyLims::Unsigned { .. } => PropertyType::Unsigned,
            PropertyLims::Duration { .. } => PropertyType::Duration,
            PropertyLims::PixelFmt { .. } => PropertyType::PixelFmt,
            PropertyLims::EnumStr { .. } => PropertyType::EnumStr,
            PropertyLims::EnumInt { .. } => PropertyType::EnumInt,
            PropertyLims::EnumUnsigned { .. } => PropertyType::EnumUnsigned,
        }
    }
}

/// The error of a query for the step of a property that has none: an
/// enumerated property is an enumeration, any other is not a number.
pub open spec fn step_error(kind: PropertyType) -> PropertyError {
    if kind.is_enumerated() {
        PropertyError::IsEnum
    } else {
        PropertyError::NotNumber
    }
}

/// The contents of a list of values.
pub open spec fn value_views(values: Seq<PropertyValue>) -> Seq<ValueView> {
    values.map_values(|v: PropertyValue| v@)
}

fn lists_bpp(variants: &Vec<GenCamPixelBpp>, x: GenCamPixelBpp) -> (r: bool)
    ensures
        r == variants@.contains(x),
{
    let mut i: usize = 0;
    while i < variants.len()
        invariant
            i <= variants.len(),
            forall|j: int| 0 <= j < i ==> variants@[j] != x,
        decreases variants.len() - i,
    {
        if variants[i] == x {
            return true;
        }
        i += 1;
    }
    false
}

fn lists_str(variants: &Vec<String>, s: &String) -> (r: bool)
    ensures
        r == str_views(variants@).contains(s@),
{
    let mut i: usize = 0;
    while i < variants.len()
        invariant
            i <= variants.len(),
            forall|j: int| 0 <= j < i ==> str_views(variants@)[j] != s@,
        decreases variants.len() - i,
    {
        if variants[i] == *s {
            assert(str_views(variants@)[i as int] == s@);
            return true;
        }
        i += 1;
    }
    false
}

fn lists_int(variants: &Vec<i64>, x: i64) -> (r: bool)
    ensures
        r == variants@.contains(x),
{
    let mut i: usize = 0;
    while i < variants.len()
        invariant
            i <= variants.len(),
            forall|j: int| 0 <= j < i ==> variants@[j] != x,
        decreases variants.len() - i,
    {
        if variants[i] == x {
            return true;
        }
        i += 1;
    }
    false
}

fn lists_unsigned(variants: &Vec<u64>, x: u64) -> (r: bool)
    ensures
        r == variants@.contains(x),
{
    let mut i: usize = 0;
    while i < variants.len()
        invariant
            i <= variants.len(),
            forall|j: int| 0 <= j < i ==> variants@[j] != x,
        decreases variants.len() - i,
    {
        if variants[i] == x {
            return true;
        }
        i += 1;
    }
    false
}

/// A property: the limits of a control, whether the camera may adjust it on
/// its own, and whether it is read-only.
#[derive(Debug, PartialEq, Eq)]
pub struct Property {
    auto: bool,
    rdonly: bool,
    prop: PropertyLims,
}

/// What a [`Property`] holds.
pub ghost struct PropertyView {
    pub lims: LimsView,
    pub supports_auto: bool,
    pub read_only: bool,
}

impl View for Property {
    type V = PropertyView;

    open spec fn view(&self) -> PropertyView {
        PropertyView {
            lims: self.lims()@,
            supports_auto: self.auto_flag(),
            read_only: self.read_only_flag(),
        }
    }
}

impl Property {
    /// The limits of the property.
    pub closed spec fn lims(self) -> PropertyLims {
        self.prop
    }

    /// Whether the property supports auto mode.
    pub closed spec fn auto_flag(self) -> bool {
        self.auto
    }

    /// Whether the property is read-only.
    pub closed spec fn read_only_flag(self) -> bool {
        self.rdonly
    }

    /// Create a new property.
    pub fn new(prop: PropertyLims, auto: bool, rdonly: bool) -> (r: Self)
        ensures
            r.lims() == prop,
            r.auto_flag() == auto,
            r.read_only_flag() == rdonly,
    {
        Property { auto, rdonly, prop }
    }

    /// Get the type of the property.
    pub fn get_type(&self) -> (r: PropertyType)
        ensures
            r == self@.lims.type_tag(),
    {
        self.prop.get_type()
    }

    /// Check if the property supports auto mode.
    pub fn supports_auto(&self) -> (r: bool)
        ensures
            r == self@.supports_auto,
    {
        self.auto
    }

    /// Check if the property is read-only.
    pub fn is_read_only(&self) -> (r: bool)
        ensures
            r == self@.read_only,
    {
        self.rdonly
    }

    /// Validate a property value.
    ///
    /// The value is accepted exactly if it lies within the limits. Otherwise
    /// the error says why: the value is of another kind than the property, or
    /// it is out of range (numeric kinds), or it is not among the variants
    /// (enumerated kinds). A command takes no value at all.
    pub fn validate(&self, value: &PropertyValue) -> (r: PropertyResult<()>)
        ensures
            r is Ok <==> self@.lims.admits(value@),
            r == self.lims().verdict(*value),
    {
        match (&self.prop, value) {
            (PropertyLims::Bool { .. }, PropertyValue::Bool(_)) => Ok(()),
            (PropertyLims::Int { min, max, .. }, PropertyValue::Int(x)) => {
                if *min <= *x && *x <= *max {
                    Ok(())
                } else {
                    Err(
                        PropertyError::ValueOutOfRange {
                            min: PropertyValue::Int(*min),
                            max: PropertyValue::Int(*max),
                            value: PropertyValue::Int(*x),
                        },
                    )
                }
            },
            (PropertyLims::Float { min, max, .. }, PropertyValue::Float(x)) => {
                if min.total_le(x) && x.total_le(max) {
                    Ok(())
                } else {
                    Err(
                        PropertyError::ValueOutOfRange {
                            min: PropertyValue::Float(*min),
                            max: PropertyValue::Float(*max),
                            value: PropertyValue::Float(*x),
                        },
                    )
                }
            },
            (PropertyLims::Unsigned { min, max, .. }, PropertyValue::Unsigned(x)) => {
                if *min <= *x && *x <= *max {
                    Ok(())
                } else {
                    Err(
                        PropertyError::ValueOutOfRange {
                            min: PropertyValue::Unsigned(*min),
                            max: PropertyValue::Unsigned(*max),
                            value: PropertyValue::Unsigned(*x),
                        },
                    )
                }
            },
            (PropertyLims::Duration { min, max, .. }, PropertyValue::Duration(x)) => {
                if min.le(x) && x.le(max) {
                    Ok(())
                } else {
                    Err(
                        PropertyError::ValueOutOfRange {
                            min: PropertyValue::Duration(*min),
                            max: PropertyValue::Duration(*max),
                            value: PropertyValue::Duration(*x),
                        },
                    )
                }
            },
            (PropertyLims::PixelFmt { variants, .. }, PropertyValue::PixelFmt(x)) => {
                if lists_bpp(variants, *x) {
                    Ok(())
                } else {
                    Err(PropertyError::ValueNotSupported)
                }
            },
            (PropertyLims::EnumStr { variants, .. }, PropertyValue::EnumStr(s)) => {
                if lists_str(variants, s) {
                    Ok(())
                } else {
                    Err(PropertyError::ValueNotSupported)
                }
            },
            (PropertyLims::EnumInt { variants, .. }, PropertyValue::EnumInt(x)) => {
                if lists_int(variants, *x) {
                    Ok(())
                } else {
                    Err(PropertyError::ValueNotSupported)
                }
            },
            (PropertyLims::EnumUnsigned { variants, .. }, PropertyValue::EnumUnsigned(x)) => {
                if lists_unsigned(variants, *x) {
                    Ok(())
                } else {
                    Err(PropertyError::ValueNotSupported)
                }
            },
            (PropertyLims::Command, PropertyValue::Command) => Err(
                PropertyError::ValueNotSupported,
            ),
            _ => Err(
                PropertyError::InvalidControlType {
                    expected: self.prop.get_type(),
                    received: value.get_type(),
                },
            ),
        }
    }

    /// Get the minimum value of the property.
    ///
    /// Only the numeric kinds have one.
    pub fn get_min(&self) -> (r: PropertyResult<PropertyValue>)
        ensures
            match self@.lims.min() {
                Some(m) => r matches Ok(v) && v@ == m,
                None => r == Err::<PropertyValue, PropertyError>(PropertyError::NotNumber),
            },
    {
        match &self.prop {
            PropertyLims::Int { min, .. } => Ok(PropertyValue::Int(*min)),
            PropertyLims::Float { min, .. } => Ok(PropertyValue::Float(*min)),
            PropertyLims::Unsigned { min, .. } => Ok(PropertyValue::Unsigned(*min)),
            PropertyLims::Duration { min, .. } => Ok(PropertyValue::Duration(*min)),
            _ => Err(PropertyError::NotNumber),
        }
    }

    /// Get the maximum value of the property.
    ///
    /// Only the numeric kinds have one.
    pub fn get_max(&self) -> (r: PropertyResult<PropertyValue>)
        ensures
            match self@.lims.max() {
                Some(m) => r matches Ok(v) && v@ == m,
                None => r == Err::<PropertyValue, PropertyError>(PropertyError::NotNumber),
            },
    {
        match &self.prop {
            PropertyLims::Int { max, .. } => Ok(PropertyValue::Int(*max)),
            PropertyLims::Float { max, .. } => Ok(PropertyValue::Float(*max)),
            PropertyLims::Unsigned { max, .. } => Ok(PropertyValue::Unsigned(*max)),
            PropertyLims::Duration { max, .. } => Ok(PropertyValue::Duration(*max)),
            _ => Err(PropertyError::NotNumber),
        }
    }

    /// Get the step value of the property.
    ///
    /// Only the numeric kinds have one. The enumerated kinds answer that they
    /// are enumerations, the other kinds that they are not numbers.
    pub fn get_step(&self) -> (r: PropertyResult<PropertyValue>)
        ensures
            match self@.lims.step() {
                Some(s) => r matches Ok(v) && v@ == s,
                None => r == Err::<PropertyValue, PropertyError>(
                    step_error(self@.lims.type_tag()),
                ),
            },
    {
        match &self.prop {
            PropertyLims::Int { step, .. } => Ok(PropertyValue::Int(*step)),
            PropertyLims::Float { step, .. } => Ok(PropertyValue::Float(*step)),
            PropertyLims::Unsigned { step, .. } => Ok(PropertyValue::Unsigned(*step)),
            PropertyLims::Duration { step, .. } => Ok(PropertyValue::Duration(*step)),
            PropertyLims::PixelFmt { .. } => Err(PropertyError::IsEnum),
            PropertyLims::EnumStr { .. } => Err(PropertyError::IsEnum),
            PropertyLims::EnumInt { .. } => Err(PropertyError::IsEnum),
            PropertyLims::EnumUnsigned { .. } => Err(PropertyError::IsEnum),
            _ => Err(PropertyError::NotNumber),
        }
    }

    /// Get the default value of the property.
    pub fn get_default(&self) -> (r: PropertyResult<PropertyValue>)
        ensures
            r matches Ok(v) && v@ == self@.lims.default_value(),
    {
        match &self.prop {
            PropertyLims::Command => Ok(PropertyValue::Command),
            PropertyLims::Bool { default } => Ok(PropertyValue::Bool(*default)),
            PropertyLims::Int { default, .. } => Ok(PropertyValue::Int(*default)),
            PropertyLims::Float { default, .. } => Ok(PropertyValue::Float(*default)),
            PropertyLims::Unsigned { default, .. } => Ok(PropertyValue::Unsigned(*default)),
            PropertyLims::Duration { default, .. } => Ok(PropertyValue::Duration(*default)),
            PropertyLims::PixelFmt { default, .. } => Ok(PropertyValue::PixelFmt(*default)),
            PropertyLims::EnumStr { default, .. } => Ok(PropertyValue::EnumStr(default.clone())),
            PropertyLims::EnumInt { default, .. } => Ok(PropertyValue::EnumInt(*default)),
            PropertyLims::EnumUnsigned { default, .. } => Ok(
                PropertyValue::EnumUnsigned(*default),
            ),
        }
    }

    /// Get the variants of the property.
    ///
    /// Only the enumerated kinds have them.
    pub fn get_variants(&self) -> (r: PropertyResult<Vec<PropertyValue>>)
        ensures
            match self@.lims.variants() {
                Some(list) => r matches Ok(v) && value_views(v@) == list,
                None => r == Err::<Vec<PropertyValue>, PropertyError>(PropertyError::NotEnum),
            },
    {
        match &self.prop {
            PropertyLims::PixelFmt { variants, .. } => {
                let mut out: Vec<PropertyValue> = Vec::new();
                let mut i: usize = 0;
                while i < variants.len()
                    invariant
                        i <= variants.len(),
                        out.len() == i,
                        forall|j: int|
                            0 <= j < i ==> (#[trigger] out@[j])@ == ValueView::PixelFmt(
                                variants@[j],
                            ),
                    decreases variants.len() - i,
                {
                    out.push(PropertyValue::PixelFmt(variants[i]));
                    i += 1;
                }
                assert(value_views(out@) =~= self@.lims.variants().unwrap());
                Ok(out)
            },
            PropertyLims::EnumStr { variants, .. } => {
                let mut out: Vec<PropertyValue> = Vec::new();
                let mut i: usize = 0;
                while i < variants.len()
                    invariant
                        i <= variants.len(),
                        out.len() == i,
                        forall|j: int|
                            0 <= j < i ==> (#[trigger] out@[j])@ == ValueView::EnumStr(
                                variants@[j]@,
                            ),
                    decreases variants.len() - i,
                {
                    out.push(PropertyValue::EnumStr(variants[i].clone()));
                    i += 1;
                }
                assert(value_views(out@) =~= self@.lims.variants().unwrap());
                Ok(out)
            },
            PropertyLims::EnumInt { variants, .. } => {
                let mut out: Vec<PropertyValue> = Vec::new();
                let mut i: usize = 0;
                while i < variants.len()
                    invariant
                        i <= variants.len(),
                        out.len() == i,
                        forall|j: int|
                            0 <= j < i ==> (#[trigger] out@[j])@ == ValueView::EnumInt(
                                variants@[j],
                            ),
                    decreases variants.len() - i,
                {
                    out.push(PropertyValue::EnumInt(variants[i]));
                    i += 1;
                }
                assert(value_views(out@) =~= self@.lims.variants().unwrap());
                Ok(out)
            },
            PropertyLims::EnumUnsigned { variants, .. } => {
                let mut out: Vec<PropertyValue> = Vec::new();
                let mut i: usize = 0;
                while i < variants.len()
                    invariant
                        i <= variants.len(),
                        out.len() == i,
                        forall|j: int|
                            0 <= j < i ==> (#[trigger] out@[j])@ == ValueView::EnumUnsigned(
                                variants@[j],
                            ),
                    decreases variants.len() - i,
                {
                    out.push(PropertyValue::EnumUnsigned(variants[i]));
                    i += 1;
                }
                assert(value_views(out@) =~= self@.lims.variants().unwrap());
                Ok(out)
            },
            _ => Err(PropertyError::NotEnum),
        }
    }
}


impl Clone for PropertyLims {
    fn clone(&self) -> (r: Self)
        ensures
            r@ == self@,
    {
        match self {
            PropertyLims::Command => PropertyLims::Command,
            PropertyLims::Bool { default } => PropertyLims::Bool { default: *default },
            PropertyLims::Int { min, max, step, default } => PropertyLims::Int {
                min: *min,
                max: *max,
                step: *step,
                default: *default,
            },
            PropertyLims::Float { min, max, step, default } => PropertyLims::Float {
                min: *min,
                max: *max,
                step: *step,
                default: *default,
            },
            PropertyLims::Unsigned { min, max, step, default } => PropertyLims::Unsigned {
                min: *min,
                max: *max,
                step: *step,
                default: *default,
            },
            PropertyLims::Duration { min, max, step, default } => PropertyLims::Duration {
                min: *min,
                max: *max,
                step: *step,
                default: *default,
            },
            PropertyLims::PixelFmt { variants, default } => PropertyLims::PixelFmt {
                variants: variants.clone(),
                default: *default,
            },
            PropertyLims::EnumStr { variants, default } => {
                let copy = variants.clone();
                assert(str_views(copy@) =~= str_views(variants@));
                PropertyLims::EnumStr { variants: copy, default: default.clone() }
            },
            PropertyLims::EnumInt { variants, default } => PropertyLims::EnumInt {
                variants: variants.clone(),
                default: *default,
            },
            PropertyLims::EnumUnsigned { variants, default } => PropertyLims::EnumUnsigned {
                variants: variants.clone(),
                default: *default,
            },
        }
    }
}

impl Clone for Property {
    fn clone(&self) -> (r: Self)
        ensures
            r@ == self@,
    {
        Property { auto: self.auto, rdonly: self.rdonly, prop: self.prop.clone() }
    }
}

impl From<()> for PropertyValue {
    fn from(_unit: ()) -> (r: Self) {
        PropertyValue::Command
    }
}

impl vstd::std_specs::convert::FromSpecImpl<()> for PropertyValue {
    open spec fn obeys_from_spec() -> bool {
        true
    }

    open spec fn from_spec(_unit: ()) -> Self {
        PropertyValue::Command
    }
}

impl From<bool> for PropertyValue {
    fn from(val: bool) -> (r: Self) {
        PropertyValue::Bool(val)
    }
}

impl vstd::std_specs::convert::FromSpecImpl<bool> for PropertyValue {
    open spec fn obeys_from_spec() -> bool {
        true
    }

    open spec fn from_spec(val: bool) -> Self {
        PropertyValue::Bool(val)
    }
}

impl From<i64> for PropertyValue {
    fn from(val: i64) -> (r: Self) {
        PropertyValue::Int(val)
    }
}

impl vstd::std_specs::convert::FromSpecImpl<i64> for PropertyValue {
    open spec fn obeys_from_spec() -> bool {
        true
    }

    open spec fn from_spec(val: i64) -> Self {
        PropertyValue::Int(val)
    }
}

impl From<u64> for PropertyValue {
    fn from(val: u64) -> (r: Self) {
        PropertyValue::Unsigned(val)
    }
}

impl vstd::std_specs::convert::FromSpecImpl<u64> for PropertyValue {
    open spec fn obeys_from_spec() -> bool {
        true
    }

    open spec fn from_spec(val: u64) -> Self {
        PropertyValue::Unsigned(val)
    }
}

impl From<FloatBits> for PropertyValue {
    fn from(val: FloatBits) -> (r: Self) {
        PropertyValue::Float(val)
    }
}

impl vstd::std_specs::convert::FromSpecImpl<FloatBits> for PropertyValue {
    open spec fn obeys_from_spec() -> bool {
        true
    }

    open spec fn from_spec(val: FloatBits) -> Self {
        PropertyValue::Float(val)
    }
}

impl From<Duration> for PropertyValue {
    fn from(val: Duration) -> (r: Self) {
        PropertyValue::Duration(val)
    }
}

impl vstd::std_specs::convert::FromSpecImpl<Duration> for PropertyValue {
    open spec fn obeys_from_spec() -> bool {
        true
    }

    open spec fn from_spec(val: Duration) -> Self {
        PropertyValue::Duration(val)
    }
}

impl From<GenCamPixelBpp> for PropertyValue {
    fn from(val: GenCamPixelBpp) -> (r: Self) {
        PropertyValue::PixelFmt(val)
    }
}

impl vstd::std_specs::convert::FromSpecImpl<GenCamPixelBpp> for PropertyValue {
    open spec fn obeys_from_spec() -> bool {
        true
    }

    open spec fn from_spec(val: GenCamPixelBpp) -> Self {
        PropertyValue::PixelFmt(val)
    }
}

impl From<String> for PropertyValue {
    fn from(val: String) -> (r: Self) {
        PropertyValue::EnumStr(val)
    }
}

impl vstd::std_specs::convert::FromSpecImpl<String> for PropertyValue {
    open spec fn obeys_from_spec() -> bool {
        true
    }

    open spec fn from_spec(val: String) -> Self {
        PropertyValue::EnumStr(val)
    }
}

impl From<&PropertyValue> for PropertyType {
    fn from(prop: &PropertyValue) -> (r: Self) {
        prop.get_type()
    }
}

impl vstd::std_specs::convert::FromSpecImpl<&PropertyValue> for PropertyType {
    open spec fn obeys_from_spec() -> bool {
        true
    }

    open spec fn from_spec(prop: &PropertyValue) -> Self {
        prop@.type_tag()
    }
}

impl From<&PropertyLims> for PropertyType {
    fn from(prop: &PropertyLims) -> (r: Self) {
        prop.get_type()
    }
}

impl vstd::std_specs::convert::FromSpecImpl<&PropertyLims> for PropertyType {
    open spec fn obeys_from_spec() -> bool {
        true
    }

    open spec fn from_spec(prop: &PropertyLims) -> Self {
        prop@.type_tag()
    }
}


impl From<&str> for PropertyValue {
    fn from(val: &str) -> (r: Self)
        ensures
            r@ == ValueView::EnumStr(val@),
    {
        PropertyValue::EnumStr(val.to_owned())
    }
}

impl vstd::std_specs::convert::FromSpecImpl<&str> for PropertyValue {
    open spec fn obeys_from_spec() -> bool {
        false
    }

    open spec fn from_spec(val: &str) -> Self {
        PropertyValue::Command
    }
}

/// A value within the limits is accepted. A value outside them is rejected:
/// as an invalid control type if it is of another kind than the property,
/// else as out of range for a numeric property and as not supported for any
/// other.
pub proof fn lemma_validation_verdict(lims: PropertyLims, value: PropertyValue)
    ensures
        lims@.admits(value@) ==> lims.verdict(value) is Ok,
        !lims@.admits(value@) ==> (lims.verdict(value) matches Err(e) && (if value@.type_tag()
            != lims@.type_tag() {
            e is InvalidControlType
        } else if lims@.type_tag().is_numeric() {
            e is ValueOutOfRange
        } else {
            e is ValueNotSupported
        })),
{
}

/// A value whose kind differs from the kind of the property is rejected as an
/// invalid control type, which names both kinds.
pub proof fn lemma_validation_discriminates_kinds(lims: PropertyLims, value: PropertyValue)
    requires
        value@.type_tag() != lims@.type_tag(),
    ensures
        !lims@.admits(value@),
        lims.verdict(value) == Err::<(), PropertyError>(
            PropertyError::InvalidControlType {
                expected: lims@.type_tag(),
                received: value@.type_tag(),
            },
        ),
{
}

/// Each variant that an enumerated property lists lies within its limits.
pub proof fn lemma_listed_variants_are_admitted(lims: LimsView, i: int)
    requires
        lims.variants() is Some,
        0 <= i < lims.variants().unwrap().len(),
    ensures
        lims.admits(lims.variants().unwrap()[i]),
{
    match lims {
        LimsView::PixelFmt { variants, .. } => {
            assert(variants[i] == variants[i]);
        },
        LimsView::EnumStr { variants, .. } => {
            assert(variants[i] == variants[i]);
        },
        LimsView::EnumInt { variants, .. } => {
            assert(variants[i] == variants[i]);
        },
        LimsView::EnumUnsigned { variants, .. } => {
            assert(variants[i] == variants[i]);
        },
        _ => {},
    }
}

} // verus!

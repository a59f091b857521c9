//! A decoded value with its declared type and its missing-value tag.

use crate::sas::is_missing::{is_tagged_missing, tag_byte, tag_marks_missing};
use crate::types::builder::BuilderError;
use crate::types::readstat::enums::{ReadStatType, ReadStatValueType};
use vstd::prelude::*;

verus! {

/// Whether a 64-bit pattern is a NaN: the exponent bits are all set and
/// the fraction is not zero.
pub open spec fn double_bits_are_nan(bits: u64) -> bool {
    bits & 0x7ff0_0000_0000_0000 == 0x7ff0_0000_0000_0000 && bits & 0x000f_ffff_ffff_ffff != 0
}

/// Whether a 32-bit pattern is a NaN: the exponent bits are all set and
/// the fraction is not zero.
pub open spec fn float_bits_are_nan(bits: u32) -> bool {
    bits & 0x7f80_0000 == 0x7f80_0000 && bits & 0x007f_ffff != 0
}

/// Whether a value is missing whatever its tag: a floating-point NaN, or
/// an empty string.
pub open spec fn system_missing(value: ReadStatValueType) -> bool {
    match value {
        ReadStatValueType::Double(bits) => double_bits_are_nan(bits),
        ReadStatValueType::Float(bits) => float_bits_are_nan(bits),
        ReadStatValueType::String(text) => text@.len() == 0,
        _ => false,
    }
}

/// Whether the variant of a value is the one that a declared type asks
/// for. A string reference is held as a string.
pub open spec fn variant_matches(type_: ReadStatType, value: ReadStatValueType) -> bool {
    match value {
        ReadStatValueType::String(_) => type_ == ReadStatType::String || type_
            == ReadStatType::StringRef,
        ReadStatValueType::Int8(_) => type_ == ReadStatType::Int8,
        ReadStatValueType::Int16(_) => type_ == ReadStatType::Int16,
        ReadStatValueType::Int32(_) => type_ == ReadStatType::Int32,
        ReadStatValueType::Int64(_) => type_ == ReadStatType::Int64,
        ReadStatValueType::UInt8(_) => type_ == ReadStatType::UInt8,
        ReadStatValueType::UInt16(_) => type_ == ReadStatType::UInt16,
        ReadStatValueType::UInt32(_) => type_ == ReadStatType::UInt32,
        ReadStatValueType::UInt64(_) => type_ == ReadStatType::UInt64,
        ReadStatValueType::Float(_) => type_ == ReadStatType::Float,
        ReadStatValueType::Double(_) => type_ == ReadStatType::Double,
    }
}

/// A decoded value.
#[derive(Debug, Clone, PartialEq)]
pub struct ReadStatValue {
    pub type_: ReadStatType,
    pub tags: Vec<String>,
    pub value: ReadStatValueType,
}

impl ReadStatValue {
    /// A value is well formed where it carries at most one tag and its
    /// variant is the one that its declared type asks for.
    pub open spec fn wf(&self) -> bool {
        self.tags@.len() <= 1 && variant_matches(self.type_, self.value)
    }

    /// Makes a value of the given fields.
    pub fn new(type_: ReadStatType, tags: Vec<String>, value: ReadStatValueType) -> (r: Self)
        ensures
            r.type_ == type_,
            r.tags == tags,
            r.value == value,
    {
        Self { type_, tags, value }
    }

    /// A builder as its `default` makes it.
    pub fn builder() -> (r: ReadStatValueBuilder)
        ensures
            r.is_initial(),
    {
        ReadStatValueBuilder::default()
    }

    /// Tells whether the value is well formed.
    pub fn is_well_formed(&self) -> (r: bool)
        ensures
            r == self.wf(),
    {
        let matches = match &self.value {
            ReadStatValueType::String(_) => {
                self.type_ == ReadStatType::String || self.type_ == ReadStatType::StringRef
            },
            ReadStatValueType::Int8(_) => self.type_ == ReadStatType::Int8,
            ReadStatValueType::Int16(_) => self.type_ == ReadStatType::Int16,
            ReadStatValueType::Int32(_) => self.type_ == ReadStatType::Int32,
            ReadStatValueType::Int64(_) => self.type_ == ReadStatType::Int64,
            ReadStatValueType::UInt8(_) => self.type_ == ReadStatType::UInt8,
            ReadStatValueType::UInt16(_) => self.type_ == ReadStatType::UInt16,
            ReadStatValueType::UInt32(_) => self.type_ == ReadStatType::UInt32,
            ReadStatValueType::UInt64(_) => self.type_ == ReadStatType::UInt64,
            ReadStatValueType::Float(_) => self.type_ == ReadStatType::Float,
            ReadStatValueType::Double(_) => self.type_ == ReadStatType::Double,
        };
        self.tags.len() <= 1 && matches
    }

    /// Whether the value is missing whatever its tag.
    pub fn is_system_missing(&self) -> (r: bool)
        ensures
            r == system_missing(self.value),
    {
        match &self.value {
            ReadStatValueType::Double(bits) => {
                (*bits & 0x7ff0_0000_0000_0000) == 0x7ff0_0000_0000_0000 && (*bits
                    & 0x000f_ffff_ffff_ffff) != 0
            },
            ReadStatValueType::Float(bits) => {
                (*bits & 0x7f80_0000) == 0x7f80_0000 && (*bits & 0x007f_ffff) != 0
            },
            ReadStatValueType::String(text) => text.as_str().is_empty(),
            _ => false,
        }
    }

    /// Whether the tag of the value marks it as missing.
    pub fn is_tagged_missing_by_sas(&self) -> (r: bool)
        ensures
            r == tag_marks_missing(tag_byte(self.tags@)),
    {
        is_tagged_missing(self)
    }

    /// Whether the value is missing, by what it holds or by its tag.
    pub fn is_missing(&self) -> (r: bool)
        ensures
            r == (system_missing(self.value) || tag_marks_missing(tag_byte(self.tags@))),
    {
        self.is_system_missing() || self.is_tagged_missing_by_sas()
    }
}

/// Collects the fields of a value, one by one.
#[derive(Debug, Clone)]
pub struct ReadStatValueBuilder {
    pub type_: Option<ReadStatType>,
    pub tags: Option<Vec<String>>,
    pub value: Option<ReadStatValueType>,
}

impl ReadStatValueBuilder {
    /// Whether the builder is as `default` makes it: every field set to its
    /// starting value.
    pub open spec fn is_initial(self) -> bool {
        &&& self.type_ == Some(ReadStatType::Double)
        &&& self.tags is Some
        &&& self.tags.unwrap()@ == Seq::<String>::empty()
        &&& self.value == Some(ReadStatValueType::Double(0))
    }

    /// The name of the first field that is not set, if there is one.
    pub open spec fn missing(self) -> Option<Seq<char>> {
        if self.type_ is None {
            Some("type_"@)
        } else if self.tags is None {
            Some("tags"@)
        } else if self.value is None {
            Some("value"@)
        } else {
            None
        }
    }

    /// A builder with every field set to its starting value.
    pub fn default() -> (r: Self)
        ensures
            r.is_initial(),
    {
        Self {
            type_: Some(ReadStatType::Double),
            tags: Some(Vec::new()),
            value: Some(ReadStatValueType::Double(0)),
        }
    }

    /// Sets `type_`.
    pub fn type_(self, value: ReadStatType) -> (r: Self)
        ensures
            r == (ReadStatValueBuilder { type_: Some(value), ..self }),
    {
        let mut builder = self;
        builder.type_ = Some(value);
        builder
    }

    /// Sets `tags`.
    pub fn tags(self, value: Vec<String>) -> (r: Self)
        ensures
            r == (ReadStatValueBuilder { tags: Some(value), ..self }),
    {
        let mut builder = self;
        builder.tags = Some(value);
        builder
    }

    /// Sets `value`.
    pub fn value(self, value: ReadStatValueType) -> (r: Self)
        ensures
            r == (ReadStatValueBuilder { value: Some(value), ..self }),
    {
        let mut builder = self;
        builder.value = Some(value);
        builder
    }

    /// Builds a value from the fields, or names the first field that is not set.
    pub fn build(self) -> (r: Result<ReadStatValue, BuilderError>)
        ensures
            match self.missing() {
                None => r == Ok::<ReadStatValue, BuilderError>(
                    ReadStatValue {
                        type_: self.type_.unwrap(),
                        tags: self.tags.unwrap(),
                        value: self.value.unwrap(),
                    },
                ),
                Some(name) => r is Err && r.unwrap_err().field_name() == name,
            },
    {
        let type_ = match self.type_ {
            Some(value) => value,
            None => return Err(BuilderError::UninitializedField("type_")),
        };
        let tags = match self.tags {
            Some(value) => value,
            None => return Err(BuilderError::UninitializedField("tags")),
        };
        let value = match self.value {
            Some(value) => value,
            None => return Err(BuilderError::UninitializedField("value")),
        };
        Ok(ReadStatValue { type_, tags, value })
    }
}

} // verus!

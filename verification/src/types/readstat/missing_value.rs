//! A value that counts as missing.

use crate::types::builder::BuilderError;
use crate::types::readstat::enums::ReadStatType;
use crate::types::readstat::value::ReadStatValue;
use vstd::prelude::*;

verus! {

/// A value that counts as missing.
#[derive(Debug, Clone, PartialEq)]
pub struct ReadStatMissingValue {
    pub value: ReadStatValue,
    pub type_: ReadStatType,
}

impl ReadStatMissingValue {
    /// Makes a value of the given fields.
    pub fn new(value: ReadStatValue, type_: ReadStatType) -> (r: Self)
        ensures
            r == (ReadStatMissingValue { value, type_ }),
    {
        Self { value, type_ }
    }

    /// A builder as its `default` makes it.
    pub fn builder() -> (r: ReadStatMissingValueBuilder)
        ensures
            r.is_initial(),
    {
        ReadStatMissingValueBuilder::default()
    }
}

/// Collects the fields of a missing value, one by one.
#[derive(Debug, Clone)]
pub struct ReadStatMissingValueBuilder {
    pub value: Option<ReadStatValue>,
    pub type_: Option<ReadStatType>,
}

impl Default for ReadStatMissingValueBuilder {
    /// A builder with no field set.
    fn default() -> (r: Self)
        ensures
            r.is_initial(),
    {
        Self {
            value: None,
            type_: None,
        }
    }
}

impl ReadStatMissingValueBuilder {
    /// Whether the builder is as `default` makes it: no field set.
    pub open spec fn is_initial(self) -> bool {
        &&& self.value is None
        &&& self.type_ is None
    }

    /// The name of the first field that is not set, if there is one.
    pub open spec fn missing(self) -> Option<Seq<char>> {
        if self.value is None {
            Some("value"@)
        } else if self.type_ is None {
            Some("type_"@)
        } else {
            None
        }
    }

    /// Sets `value`.
    pub fn value(self, value: ReadStatValue) -> (r: Self)
        ensures
            r == (ReadStatMissingValueBuilder { value: Some(value), ..self }),
    {
        let mut builder = self;
        builder.value = Some(value);
        builder
    }

    /// Sets `type_`.
    pub fn type_(self, value: ReadStatType) -> (r: Self)
        ensures
            r == (ReadStatMissingValueBuilder { type_: Some(value), ..self }),
    {
        let mut builder = self;
        builder.type_ = Some(value);
        builder
    }

    /// Builds a missing value from the fields, or names the first field that is not set.
    pub fn build(self) -> (r: Result<ReadStatMissingValue, BuilderError>)
        ensures
            match self.missing() {
                None => r == Ok::<ReadStatMissingValue, BuilderError>(
                    ReadStatMissingValue {
                        value: self.value.unwrap(),
                        type_: self.type_.unwrap(),
                    },
                ),
                Some(name) => r is Err && r.unwrap_err().field_name() == name,
            },
    {
        let value = match self.value {
            Some(value) => value,
            None => return Err(BuilderError::UninitializedField("value")),
        };
        let type_ = match self.type_ {
            Some(value) => value,
            None => return Err(BuilderError::UninitializedField("type_")),
        };
        Ok(ReadStatMissingValue { value, type_ })
    }
}

} // verus!

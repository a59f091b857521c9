//! The ranges of values that count as missing.

use crate::types::builder::BuilderError;
use crate::types::readstat::value::ReadStatValue;
use vstd::prelude::*;

verus! {

/// The ranges of values that count as missing.
#[derive(Debug, Clone, PartialEq)]
pub struct ReadStatMissingRanges {
    pub missing_ranges: Vec<ReadStatValue>,
    pub missing_ranges_count: u32,
}

impl ReadStatMissingRanges {
    /// Makes a value of the given fields.
    pub fn new(missing_ranges: Vec<ReadStatValue>, missing_ranges_count: u32) -> (r: Self)
        ensures
            r == (ReadStatMissingRanges { missing_ranges, missing_ranges_count }),
    {
        Self { missing_ranges, missing_ranges_count }
    }

    /// A builder as its `default` makes it.
    pub fn builder() -> (r: ReadStatMissingRangesBuilder)
        ensures
            r.is_initial(),
    {
        ReadStatMissingRangesBuilder::default()
    }
}

/// Collects the fields of a set of missing ranges, one by one.
#[derive(Debug, Clone)]
pub struct ReadStatMissingRangesBuilder {
    pub missing_ranges: Option<Vec<ReadStatValue>>,
    pub missing_ranges_count: Option<u32>,
}

impl ReadStatMissingRangesBuilder {
    /// Whether the builder is as `default` makes it: every field set to its
    /// starting value.
    pub open spec fn is_initial(self) -> bool {
        &&& self.missing_ranges is Some
        &&& self.missing_ranges.unwrap()@ == Seq::<ReadStatValue>::empty()
        &&& self.missing_ranges_count == Some(0u32)
    }

    /// The name of the first field that is not set, if there is one.
    pub open spec fn missing(self) -> Option<Seq<char>> {
        if self.missing_ranges is None {
            Some("missing_ranges"@)
        } else if self.missing_ranges_count is None {
            Some("missing_ranges_count"@)
        } else {
            None
        }
    }

    /// A builder with every field set to its starting value.
    pub fn default() -> (r: Self)
        ensures
            r.is_initial(),
    {
        Self {
            missing_ranges: Some(Vec::with_capacity(32)),
            missing_ranges_count: Some(0u32),
        }
    }

    /// Sets `missing_ranges`.
    pub fn missing_ranges(self, value: Vec<ReadStatValue>) -> (r: Self)
        ensures
            r == (ReadStatMissingRangesBuilder { missing_ranges: Some(value), ..self }),
    {
        let mut builder = self;
        builder.missing_ranges = Some(value);
        builder
    }

    /// Sets `missing_ranges_count`.
    pub fn missing_ranges_count(self, value: u32) -> (r: Self)
        ensures
            r == (ReadStatMissingRangesBuilder { missing_ranges_count: Some(value), ..self }),
    {
        let mut builder = self;
        builder.missing_ranges_count = Some(value);
        builder
    }

    /// Builds a set of missing ranges from the fields, or names the first field that is not set.
    pub fn build(self) -> (r: Result<ReadStatMissingRanges, BuilderError>)
        ensures
            match self.missing() {
                None => r == Ok::<ReadStatMissingRanges, BuilderError>(
                    ReadStatMissingRanges {
                        missing_ranges: self.missing_ranges.unwrap(),
                        missing_ranges_count: self.missing_ranges_count.unwrap(),
                    },
                ),
                Some(name) => r is Err && r.unwrap_err().field_name() == name,
            },
    {
        let missing_ranges = match self.missing_ranges {
            Some(value) => value,
            None => return Err(BuilderError::UninitializedField("missing_ranges")),
        };
        let missing_ranges_count = match self.missing_ranges_count {
            Some(value) => value,
            None => return Err(BuilderError::UninitializedField("missing_ranges_count")),
        };
        Ok(ReadStatMissingRanges { missing_ranges, missing_ranges_count })
    }
}

} // verus!

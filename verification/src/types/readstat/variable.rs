//! A variable of a file.

use crate::types::builder::BuilderError;
use crate::types::readstat::enums::{ReadStatAlignment, ReadStatMeasure, ReadStatType};
use crate::types::readstat::label_set::ReadStatLabelSet;
use crate::types::readstat::missing_ranges::ReadStatMissingRanges;
use crate::types::readstat::value::ReadStatValue;
use crate::types::readstat::value_label::ReadStatValueLabel;
use crate::types::sas::label_name::SasLabelName;
use vstd::prelude::*;

verus! {

/// A variable: a column of a file, with how it is stored and shown.
#[derive(Debug, Clone, PartialEq)]
pub struct ReadStatVariable {
    pub type_: ReadStatType,
    pub index: u32,
    pub name: String,
    pub format: String,
    pub label: String,
    pub label_set: ReadStatLabelSet,
    pub offset: u64,
    pub storage_width: u64,
    pub user_width: u64,
    pub missing_ranges: ReadStatMissingRanges,
    pub measure: Option<ReadStatMeasure>,
    pub alignment: Option<ReadStatAlignment>,
    pub display_width: u64,
    pub display_decimals: u64,
    pub skip: bool,
    pub index_after_skipping: u32,
}

/// Whether a label set is the one that a variable starts with: of type
/// `Double`, named `label`, with an empty label and no variables.
pub open spec fn is_plain_label_set(set: ReadStatLabelSet) -> bool {
    &&& set.type_ == ReadStatType::Double
    &&& set.name.name@ == "label"@
    &&& set.value_labels.is_empty()
    &&& set.value_labels_count == 0
    &&& set.value_labels_capacity == 0
    &&& set.variables is None
    &&& set.variable_count is None
    &&& set.variable_capacity is None
}

impl ReadStatVariable {
    /// Makes a value of the given fields.
    pub fn new(
        type_: ReadStatType,
        index: u32,
        name: String,
        format: String,
        label: String,
        label_set: ReadStatLabelSet,
        offset: u64,
        storage_width: u64,
        user_width: u64,
        missing_ranges: ReadStatMissingRanges,
        measure: Option<ReadStatMeasure>,
        alignment: Option<ReadStatAlignment>,
        display_width: u64,
        display_decimals: u64,
        skip: bool,
        index_after_skipping: u32,
    ) -> (r: Self)
        ensures
            r == (ReadStatVariable {
                type_,
                index,
                name,
                format,
                label,
                label_set,
                offset,
                storage_width,
                user_width,
                missing_ranges,
                measure,
                alignment,
                display_width,
                display_decimals,
                skip,
                index_after_skipping,
            }),
    {
        Self {
            type_,
            index,
            name,
            format,
            label,
            label_set,
            offset,
            storage_width,
            user_width,
            missing_ranges,
            measure,
            alignment,
            display_width,
            display_decimals,
            skip,
            index_after_skipping,
        }
    }

    /// A builder as its `default` makes it.
    pub fn builder() -> (r: ReadStatVariableBuilder)
        ensures
            r.is_initial(),
    {
        ReadStatVariableBuilder::default()
    }
}

/// Collects the fields of a variable, one by one.
#[derive(Debug, Clone)]
pub struct ReadStatVariableBuilder {
    pub type_: Option<ReadStatType>,
    pub index: Option<u32>,
    pub name: Option<String>,
    pub format: Option<String>,
    pub label: Option<String>,
    pub label_set: Option<ReadStatLabelSet>,
    pub offset: Option<u64>,
    pub storage_width: Option<u64>,
    pub user_width: Option<u64>,
    pub missing_ranges: Option<ReadStatMissingRanges>,
    pub measure: Option<Option<ReadStatMeasure>>,
    pub alignment: Option<Option<ReadStatAlignment>>,
    pub display_width: Option<u64>,
    pub display_decimals: Option<u64>,
    pub skip: Option<bool>,
    pub index_after_skipping: Option<u32>,
}

impl ReadStatVariableBuilder {
    /// Whether the builder is as `default` makes it: every field set to its
    /// starting value.
    pub open spec fn is_initial(self) -> bool {
        &&& self.type_ == Some(ReadStatType::Double)
        &&& self.index == Some(0u32)
        &&& self.name is Some
        &&& self.name.unwrap()@ == Seq::<char>::empty()
        &&& self.format is Some
        &&& self.format.unwrap()@ == Seq::<char>::empty()
        &&& self.label is Some
        &&& self.label.unwrap()@ == Seq::<char>::empty()
        &&& self.label_set is Some
        &&& is_plain_label_set(self.label_set.unwrap())
        &&& self.offset == Some(0u64)
        &&& self.storage_width == Some(0u64)
        &&& self.user_width == Some(0u64)
        &&& self.missing_ranges is Some
        &&& self.missing_ranges.unwrap().missing_ranges@ == Seq::<ReadStatValue>::empty()
        &&& self.missing_ranges.unwrap().missing_ranges_count == 0
        &&& self.measure == Some(Some(ReadStatMeasure::Nominal))
        &&& self.alignment == Some(Some(ReadStatAlignment::Left))
        &&& self.display_width == Some(0u64)
        &&& self.display_decimals == Some(0u64)
        &&& self.skip == Some(false)
        &&& self.index_after_skipping == Some(0u32)
    }

    /// The name of the first field that is not set, if there is one.
    pub open spec fn missing(self) -> Option<Seq<char>> {
        if self.type_ is None {
            Some("type_"@)
        } else if self.index is None {
            Some("index"@)
        } else if self.name is None {
            Some("name"@)
        } else if self.format is None {
            Some("format"@)
        } else if self.label is None {
            Some("label"@)
        } else if self.label_set is None {
            Some("label_set"@)
        } else if self.offset is None {
            Some("offset"@)
        } else if self.storage_width is None {
            Some("storage_width"@)
        } else if self.user_width is None {
            Some("user_width"@)
        } else if self.missing_ranges is None {
            Some("missing_ranges"@)
        } else if self.measure is None {
            Some("measure"@)
        } else if self.alignment is None {
            Some("alignment"@)
        } else if self.display_width is None {
            Some("display_width"@)
        } else if self.display_decimals is None {
            Some("display_decimals"@)
        } else if self.skip is None {
            Some("skip"@)
        } else if self.index_after_skipping is None {
            Some("index_after_skipping"@)
        } else {
            None
        }
    }

    /// A builder with every field set to its starting value.
    pub fn default() -> (r: Self)
        ensures
            r.is_initial(),
    {
        Self {
            type_: Some(ReadStatType::Double),
            index: Some(0u32),
            name: Some(String::new()),
            format: Some(String::new()),
            label: Some(String::new()),
            label_set: Some(ReadStatLabelSet::new(
                    ReadStatType::Double,
                    SasLabelName::from_str("label"),
                    ReadStatValueLabel::new(
                        String::new(),
                        0,
                        0,
                        0,
                        String::new(),
                        0,
                        Vec::new(),
                    ),
                    0,
                    0,
                )),
            offset: Some(0u64),
            storage_width: Some(0u64),
            user_width: Some(0u64),
            missing_ranges: Some(ReadStatMissingRanges::new(Vec::new(), 0)),
            measure: Some(Some(ReadStatMeasure::Nominal)),
            alignment: Some(Some(ReadStatAlignment::Left)),
            display_width: Some(0u64),
            display_decimals: Some(0u64),
            skip: Some(false),
            index_after_skipping: Some(0u32),
        }
    }

    /// Sets `type_`.
    pub fn type_(self, value: ReadStatType) -> (r: Self)
        ensures
            r == (ReadStatVariableBuilder { type_: Some(value), ..self }),
    {
        let mut builder = self;
        builder.type_ = Some(value);
        builder
    }

    /// Sets `index`.
    pub fn index(self, value: u32) -> (r: Self)
        ensures
            r == (ReadStatVariableBuilder { index: Some(value), ..self }),
    {
        let mut builder = self;
        builder.index = Some(value);
        builder
    }

    /// Sets `name`.
    pub fn name(self, value: String) -> (r: Self)
        ensures
            r == (ReadStatVariableBuilder { name: Some(value), ..self }),
    {
        let mut builder = self;
        builder.name = Some(value);
        builder
    }

    /// Sets `format`.
    pub fn format(self, value: String) -> (r: Self)
        ensures
            r == (ReadStatVariableBuilder { format: Some(value), ..self }),
    {
        let mut builder = self;
        builder.format = Some(value);
        builder
    }

    /// Sets `label`.
    pub fn label(self, value: String) -> (r: Self)
        ensures
            r == (ReadStatVariableBuilder { label: Some(value), ..self }),
    {
        let mut builder = self;
        builder.label = Some(value);
        builder
    }

    /// Sets `label_set`.
    pub fn label_set(self, value: ReadStatLabelSet) -> (r: Self)
        ensures
            r == (ReadStatVariableBuilder { label_set: Some(value), ..self }),
    {
        let mut builder = self;
        builder.label_set = Some(value);
        builder
    }

    /// Sets `offset`.
    pub fn offset(self, value: u64) -> (r: Self)
        ensures
            r == (ReadStatVariableBuilder { offset: Some(value), ..self }),
    {
        let mut builder = self;
        builder.offset = Some(value);
        builder
    }

    /// Sets `storage_width`.
    pub fn storage_width(self, value: u64) -> (r: Self)
        ensures
            r == (ReadStatVariableBuilder { storage_width: Some(value), ..self }),
    {
        let mut builder = self;
        builder.storage_width = Some(value);
        builder
    }

    /// Sets `user_width`.
    pub fn user_width(self, value: u64) -> (r: Self)
        ensures
            r == (ReadStatVariableBuilder { user_width: Some(value), ..self }),
    {
        let mut builder = self;
        builder.user_width = Some(value);
        builder
    }

    /// Sets `missing_ranges`.
    pub fn missing_ranges(self, value: ReadStatMissingRanges) -> (r: Self)
        ensures
            r == (ReadStatVariableBuilder { missing_ranges: Some(value), ..self }),
    {
        let mut builder = self;
        builder.missing_ranges = Some(value);
        builder
    }

    /// Sets `measure`.
    pub fn measure(self, value: Option<ReadStatMeasure>) -> (r: Self)
        ensures
            r == (ReadStatVariableBuilder { measure: Some(value), ..self }),
    {
        let mut builder = self;
        builder.measure = Some(value);
        builder
    }

    /// Sets `alignment`.
    pub fn alignment(self, value: Option<ReadStatAlignment>) -> (r: Self)
        ensures
            r == (ReadStatVariableBuilder { alignment: Some(value), ..self }),
    {
        let mut builder = self;
        builder.alignment = Some(value);
        builder
    }

    /// Sets `display_width`.
    pub fn display_width(self, value: u64) -> (r: Self)
        ensures
            r == (ReadStatVariableBuilder { display_width: Some(value), ..self }),
    {
        let mut builder = self;
        builder.display_width = Some(value);
        builder
    }

    /// Sets `display_decimals`.
    pub fn display_decimals(self, value: u64) -> (r: Self)
        ensures
            r == (ReadStatVariableBuilder { display_decimals: Some(value), ..self }),
    {
        let mut builder = self;
        builder.display_decimals = Some(value);
        builder
    }

    /// Sets `skip`.
    pub fn skip(self, value: bool) -> (r: Self)
        ensures
            r == (ReadStatVariableBuilder { skip: Some(value), ..self }),
    {
        let mut builder = self;
        builder.skip = Some(value);
        builder
    }

    /// Sets `index_after_skipping`.
    pub fn index_after_skipping(self, value: u32) -> (r: Self)
        ensures
            r == (ReadStatVariableBuilder { index_after_skipping: Some(value), ..self }),
    {
        let mut builder = self;
        builder.index_after_skipping = Some(value);
        builder
    }

    /// Builds a variable from the fields, or names the first field that is not set.
    pub fn build(self) -> (r: Result<ReadStatVariable, BuilderError>)
        ensures
            match self.missing() {
                None => r == Ok::<ReadStatVariable, BuilderError>(
                    ReadStatVariable {
                        type_: self.type_.unwrap(),
                        index: self.index.unwrap(),
                        name: self.name.unwrap(),
                        format: self.format.unwrap(),
                        label: self.label.unwrap(),
                        label_set: self.label_set.unwrap(),
                        offset: self.offset.unwrap(),
                        storage_width: self.storage_width.unwrap(),
                        user_width: self.user_width.unwrap(),
                        missing_ranges: self.missing_ranges.unwrap(),
                        measure: self.measure.unwrap(),
                        alignment: self.alignment.unwrap(),
                        display_width: self.display_width.unwrap(),
                        display_decimals: self.display_decimals.unwrap(),
                        skip: self.skip.unwrap(),
                        index_after_skipping: self.index_after_skipping.unwrap(),
                    },
                ),
                Some(name) => r is Err && r.unwrap_err().field_name() == name,
            },
    {
        let type_ = match self.type_ {
            Some(value) => value,
            None => return Err(BuilderError::UninitializedField("type_")),
        };
        let index = match self.index {
            Some(value) => value,
            None => return Err(BuilderError::UninitializedField("index")),
        };
        let name = match self.name {
            Some(value) => value,
            None => return Err(BuilderError::UninitializedField("name")),
        };
        let format = match self.format {
            Some(value) => value,
            None => return Err(BuilderError::UninitializedField("format")),
        };
        let label = match self.label {
            Some(value) => value,
            None => return Err(BuilderError::UninitializedField("label")),
        };
        let label_set = match self.label_set {
            Some(value) => value,
            None => return Err(BuilderError::UninitializedField("label_set")),
        };
        let offset = match self.offset {
            Some(value) => value,
            None => return Err(BuilderError::UninitializedField("offset")),
        };
        let storage_width = match self.storage_width {
            Some(value) => value,
            None => return Err(BuilderError::UninitializedField("storage_width")),
        };
        let user_width = match self.user_width {
            Some(value) => value,
            None => return Err(BuilderError::UninitializedField("user_width")),
        };
        let missing_ranges = match self.missing_ranges {
            Some(value) => value,
            None => return Err(BuilderError::UninitializedField("missing_ranges")),
        };
        let measure = match self.measure {
            Some(value) => value,
            None => return Err(BuilderError::UninitializedField("measure")),
        };
        let alignment = match self.alignment {
            Some(value) => value,
            None => return Err(BuilderError::UninitializedField("alignment")),
        };
        let display_width = match self.display_width {
            Some(value) => value,
            None => return Err(BuilderError::UninitializedField("display_width")),
        };
        let display_decimals = match self.display_decimals {
            Some(value) => value,
            None => return Err(BuilderError::UninitializedField("display_decimals")),
        };
        let skip = match self.skip {
            Some(value) => value,
            None => return Err(BuilderError::UninitializedField("skip")),
        };
        let index_after_skipping = match self.index_after_skipping {
            Some(value) => value,
            None => return Err(BuilderError::UninitializedField("index_after_skipping")),
        };
        Ok(ReadStatVariable {
            type_,
            index,
            name,
            format,
            label,
            label_set,
            offset,
            storage_width,
            user_width,
            missing_ranges,
            measure,
            alignment,
            display_width,
            display_decimals,
            skip,
            index_after_skipping,
        })
    }
}

} // verus!

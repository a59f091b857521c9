//! A set of value labels.

use crate::types::builder::BuilderError;
use crate::types::readstat::enums::ReadStatType;
use crate::types::readstat::value_label::ReadStatValueLabel;
use crate::types::sas::label_name::SasLabelName;
use vstd::prelude::*;

verus! {

/// A set of value labels, and the variables that use it.
#[derive(Debug, Clone, PartialEq)]
pub struct ReadStatLabelSet {
    pub type_: ReadStatType,
    pub name: SasLabelName,
    pub value_labels: ReadStatValueLabel,
    pub value_labels_count: u32,
    pub value_labels_capacity: u32,
    pub variables: Option<Vec<SasLabelName>>,
    pub variable_count: Option<u32>,
    pub variable_capacity: Option<u32>,
}

impl ReadStatLabelSet {
    /// Makes a value of the given fields, with no variables yet.
    pub fn new(
        type_: ReadStatType,
        name: SasLabelName,
        value_labels: ReadStatValueLabel,
        value_labels_count: u32,
        value_labels_capacity: u32,
    ) -> (r: Self)
        ensures
            r == (ReadStatLabelSet {
                type_,
                name,
                value_labels,
                value_labels_count,
                value_labels_capacity,
                variables: None,
                variable_count: None,
                variable_capacity: None,
            }),
    {
        Self {
            type_,
            name,
            value_labels,
            value_labels_count,
            value_labels_capacity,
            variables: None,
            variable_count: None,
            variable_capacity: None,
        }
    }
}

/// Collects the fields of a label set, one by one.
#[derive(Debug, Clone)]
pub struct ReadStatLabelSetBuilder {
    pub type_: Option<ReadStatType>,
    pub name: Option<SasLabelName>,
    pub value_labels: Option<ReadStatValueLabel>,
    pub value_labels_count: Option<u32>,
    pub value_labels_capacity: Option<u32>,
    pub variables: Option<Option<Vec<SasLabelName>>>,
    pub variable_count: Option<Option<u32>>,
    pub variable_capacity: Option<Option<u32>>,
}

impl Default for ReadStatLabelSetBuilder {
    /// A builder with no field set.
    fn default() -> (r: Self)
        ensures
            r.is_initial(),
    {
        Self {
            type_: None,
            name: None,
            value_labels: None,
            value_labels_count: None,
            value_labels_capacity: None,
            variables: None,
            variable_count: None,
            variable_capacity: None,
        }
    }
}

impl ReadStatLabelSetBuilder {
    /// Whether the builder is as `default` makes it: no field set.
    pub open spec fn is_initial(self) -> bool {
        &&& self.type_ is None
        &&& self.name is None
        &&& self.value_labels is None
        &&& self.value_labels_count is None
        &&& self.value_labels_capacity is None
        &&& self.variables is None
        &&& self.variable_count is None
        &&& self.variable_capacity is None
    }

    /// The name of the first field that is not set, if there is one.
    pub open spec fn missing(self) -> Option<Seq<char>> {
        if self.type_ is None {
            Some("type_"@)
        } else if self.name is None {
            Some("name"@)
        } else if self.value_labels is None {
            Some("value_labels"@)
        } else if self.value_labels_count is None {
            Some("value_labels_count"@)
        } else if self.value_labels_capacity is None {
            Some("value_labels_capacity"@)
        } else if self.variables is None {
            Some("variables"@)
        } else if self.variable_count is None {
            Some("variable_count"@)
        } else if self.variable_capacity is None {
            Some("variable_capacity"@)
        } else {
            None
        }
    }

    /// Sets `type_`.
    pub fn type_(self, value: ReadStatType) -> (r: Self)
        ensures
            r == (ReadStatLabelSetBuilder { type_: Some(value), ..self }),
    {
        let mut builder = self;
        builder.type_ = Some(value);
        builder
    }

    /// Sets `name`.
    pub fn name(self, value: SasLabelName) -> (r: Self)
        ensures
            r == (ReadStatLabelSetBuilder { name: Some(value), ..self }),
    {
        let mut builder = self;
        builder.name = Some(value);
        builder
    }

    /// Sets `value_labels`.
    pub fn value_labels(self, value: ReadStatValueLabel) -> (r: Self)
        ensures
            r == (ReadStatLabelSetBuilder { value_labels: Some(value), ..self }),
    {
        let mut builder = self;
        builder.value_labels = Some(value);
        builder
    }

    /// Sets `value_labels_count`.
    pub fn value_labels_count(self, value: u32) -> (r: Self)
        ensures
            r == (ReadStatLabelSetBuilder { value_labels_count: Some(value), ..self }),
    {
        let mut builder = self;
        builder.value_labels_count = Some(value);
        builder
    }

    /// Sets `value_labels_capacity`.
    pub fn value_labels_capacity(self, value: u32) -> (r: Self)
        ensures
            r == (ReadStatLabelSetBuilder { value_labels_capacity: Some(value), ..self }),
    {
        let mut builder = self;
        builder.value_labels_capacity = Some(value);
        builder
    }

    /// Sets `variables`.
    pub fn variables(self, value: Option<Vec<SasLabelName>>) -> (r: Self)
        ensures
            r == (ReadStatLabelSetBuilder { variables: Some(value), ..self }),
    {
        let mut builder = self;
        builder.variables = Some(value);
        builder
    }

    /// Sets `variable_count`.
    pub fn variable_count(self, value: Option<u32>) -> (r: Self)
        ensures
            r == (ReadStatLabelSetBuilder { variable_count: Some(value), ..self }),
    {
        let mut builder = self;
        builder.variable_count = Some(value);
        builder
    }

    /// Sets `variable_capacity`.
    pub fn variable_capacity(self, value: Option<u32>) -> (r: Self)
        ensures
            r == (ReadStatLabelSetBuilder { variable_capacity: Some(value), ..self }),
    {
        let mut builder = self;
        builder.variable_capacity = Some(value);
        builder
    }

    /// Builds a label set from the fields, or names the first field that is not set.
    pub fn build(self) -> (r: Result<ReadStatLabelSet, BuilderError>)
        ensures
            match self.missing() {
                None => r == Ok::<ReadStatLabelSet, BuilderError>(
                    ReadStatLabelSet {
                        type_: self.type_.unwrap(),
                        name: self.name.unwrap(),
                        value_labels: self.value_labels.unwrap(),
                        value_labels_count: self.value_labels_count.unwrap(),
                        value_labels_capacity: self.value_labels_capacity.unwrap(),
                        variables: self.variables.unwrap(),
                        variable_count: self.variable_count.unwrap(),
                        variable_capacity: self.variable_capacity.unwrap(),
                    },
                ),
                Some(name) => r is Err && r.unwrap_err().field_name() == name,
            },
    {
        let type_ = match self.type_ {
            Some(value) => value,
            None => return Err(BuilderError::UninitializedField("type_")),
        };
        let name = match self.name {
            Some(value) => value,
            None => return Err(BuilderError::UninitializedField("name")),
        };
        let value_labels = match self.value_labels {
            Some(value) => value,
            None => return Err(BuilderError::UninitializedField("value_labels")),
        };
        let value_labels_count = match self.value_labels_count {
            Some(value) => value,
            None => return Err(BuilderError::UninitializedField("value_labels_count")),
        };
        let value_labels_capacity = match self.value_labels_capacity {
            Some(value) => value,
            None => return Err(BuilderError::UninitializedField("value_labels_capacity")),
        };
        let variables = match self.variables {
            Some(value) => value,
            None => return Err(BuilderError::UninitializedField("variables")),
        };
        let variable_count = match self.variable_count {
            Some(value) => value,
            None => return Err(BuilderError::UninitializedField("variable_count")),
        };
        let variable_capacity = match self.variable_capacity {
            Some(value) => value,
            None => return Err(BuilderError::UninitializedField("variable_capacity")),
        };
        Ok(ReadStatLabelSet {
            type_,
            name,
            value_labels,
            value_labels_count,
            value_labels_capacity,
            variables,
            variable_count,
            variable_capacity,
        })
    }
}

} // verus!

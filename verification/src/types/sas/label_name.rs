//! The name of a set of value labels.

use crate::types::builder::BuilderError;
use vstd::prelude::*;

verus! {

/// The name of a set of value labels.
#[derive(Debug, Clone, PartialEq)]
pub struct SasLabelName {
    pub name: String,
}

impl SasLabelName {
    /// Makes a value of the given fields.
    pub fn new(name: String) -> (r: Self)
        ensures
            r == (SasLabelName { name }),
    {
        Self { name }
    }

    /// Makes a label name of a text.
    pub fn from_str(name: &str) -> (r: Self)
        ensures
            r.name@ == name@,
    {
        Self { name: name.to_string() }
    }

    /// A builder as its `default` makes it.
    pub fn builder() -> (r: SasLabelNameBuilder)
        ensures
            r.is_initial(),
    {
        SasLabelNameBuilder::default()
    }
}

/// Collects the fields of a label name, one by one.
#[derive(Debug, Clone)]
pub struct SasLabelNameBuilder {
    pub name: Option<String>,
}

impl Default for SasLabelNameBuilder {
    /// A builder with no field set.
    fn default() -> (r: Self)
        ensures
            r.is_initial(),
    {
        Self {
            name: None,
        }
    }
}

impl SasLabelNameBuilder {
    /// Whether the builder is as `default` makes it: no field set.
    pub open spec fn is_initial(self) -> bool {
        &&& self.name is None
    }

    /// The name of the first field that is not set, if there is one.
    pub open spec fn missing(self) -> Option<Seq<char>> {
        if self.name is None {
            Some("name"@)
        } else {
            None
        }
    }

    /// Sets `name`.
    pub fn name(self, value: String) -> (r: Self)
        ensures
            r == (SasLabelNameBuilder { name: Some(value), ..self }),
    {
        let mut builder = self;
        builder.name = Some(value);
        builder
    }

    /// Builds a label name from the fields, or names the first field that is not set.
    pub fn build(self) -> (r: Result<SasLabelName, BuilderError>)
        ensures
            match self.missing() {
                None => r == Ok::<SasLabelName, BuilderError>(
                    SasLabelName {
                        name: self.name.unwrap(),
                    },
                ),
                Some(name) => r is Err && r.unwrap_err().field_name() == name,
            },
    {
        let name = match self.name {
            Some(value) => value,
            None => return Err(BuilderError::UninitializedField("name")),
        };
        Ok(SasLabelName { name })
    }
}

} // verus!

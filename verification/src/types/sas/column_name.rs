//! The name of a column.

use crate::types::builder::BuilderError;
use crate::types::sas::name::{all_name_chars, is_legal_name, only_name_chars};
use vstd::prelude::*;
use vstd::string::StringSliceAdditionalSpecFns;

verus! {

/// The greatest length of a column name, in bytes.
pub const MAX_COLUMN_NAME_LENGTH: usize = 32;

/// The name of a column.
#[derive(Debug, Clone, PartialEq)]
pub struct SasColumnName {
    pub name: String,
}

impl SasColumnName {
    /// Makes a column name of a text that is accepted as one, and says of
    /// another text why it is not: too long first, an illegal character
    /// second.
    pub fn from_str(name: &str) -> (r: Result<Self, &'static str>)
        ensures
            is_legal_name(name, MAX_COLUMN_NAME_LENGTH as nat) ==> r is Ok && r.unwrap().name@ == name@,
            name.spec_bytes().len() > MAX_COLUMN_NAME_LENGTH ==> r is Err && r.unwrap_err()@
                == "Column name is too long"@,
            name.spec_bytes().len() <= MAX_COLUMN_NAME_LENGTH && !all_name_chars(name@) ==> r is Err
                && r.unwrap_err()@ == "Column name contains illegal characters"@,
    {
        if name.as_bytes().len() > MAX_COLUMN_NAME_LENGTH {
            return Err("Column name is too long");
        }
        if !only_name_chars(name) {
            return Err("Column name contains illegal characters");
        }
        Ok(Self { name: name.to_string() })
    }

    /// Makes a value of the given fields.
    pub fn new(name: String) -> (r: Self)
        ensures
            r == (SasColumnName { name }),
    {
        Self { name }
    }

    /// A builder as its `default` makes it.
    pub fn builder() -> (r: SasColumnNameBuilder)
        ensures
            r.is_initial(),
    {
        SasColumnNameBuilder::default()
    }
}

/// Collects the fields of a column name, one by one.
#[derive(Debug, Clone)]
pub struct SasColumnNameBuilder {
    pub name: Option<String>,
}

impl Default for SasColumnNameBuilder {
    /// A builder with no field set.
    fn default() -> (r: Self)
        ensures
            r.is_initial(),
    {
        Self {
            name: None,
        }
    }
}

impl SasColumnNameBuilder {
    /// Whether the builder is as `default` makes it: no field set.
    pub open spec fn is_initial(self) -> bool {
        &&& self.name is None
    }

    /// The name of the first field that is not set, if there is one.
    pub open spec fn missing(self) -> Option<Seq<char>> {
        if self.name is None {
            Some("name"@)
        } else {
            None
        }
    }

    /// Sets `name`.
    pub fn name(self, value: String) -> (r: Self)
        ensures
            r == (SasColumnNameBuilder { name: Some(value), ..self }),
    {
        let mut builder = self;
        builder.name = Some(value);
        builder
    }

    /// Builds a column name from the fields, or names the first field that is not set.
    pub fn build(self) -> (r: Result<SasColumnName, BuilderError>)
        ensures
            match self.missing() {
                None => r == Ok::<SasColumnName, BuilderError>(
                    SasColumnName {
                        name: self.name.unwrap(),
                    },
                ),
                Some(name) => r is Err && r.unwrap_err().field_name() == name,
            },
    {
        let name = match self.name {
            Some(value) => value,
            None => return Err(BuilderError::UninitializedField("name")),
        };
        Ok(SasColumnName { name })
    }
}

} // verus!

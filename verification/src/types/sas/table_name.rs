//! The name of a table.

use crate::types::builder::BuilderError;
use crate::types::sas::name::{all_name_chars, is_legal_name, only_name_chars};
use vstd::prelude::*;
use vstd::string::StringSliceAdditionalSpecFns;

verus! {

/// The greatest length of a table name, in bytes.
pub const MAX_TABLE_NAME_LENGTH: usize = 32;

/// The name of a table.
#[derive(Debug, Clone, PartialEq)]
pub struct SasTableName {
    pub name: String,
}

impl SasTableName {
    /// Makes a table name of a text that is accepted as one, and says of
    /// another text why it is not: too long first, an illegal character
    /// second.
    pub fn from_str(name: &str) -> (r: Result<Self, &'static str>)
        ensures
            is_legal_name(name, MAX_TABLE_NAME_LENGTH as nat) ==> r is Ok && r.unwrap().name@ == name@,
            name.spec_bytes().len() > MAX_TABLE_NAME_LENGTH ==> r is Err && r.unwrap_err()@
                == "Table name is too long"@,
            name.spec_bytes().len() <= MAX_TABLE_NAME_LENGTH && !all_name_chars(name@) ==> r is Err
                && r.unwrap_err()@ == "Table name contains illegal characters"@,
    {
        if name.as_bytes().len() > MAX_TABLE_NAME_LENGTH {
            return Err("Table name is too long");
        }
        if !only_name_chars(name) {
            return Err("Table name contains illegal characters");
        }
        Ok(Self { name: name.to_string() })
    }

    /// Makes a value of the given fields.
    pub fn new(name: String) -> (r: Self)
        ensures
            r == (SasTableName { name }),
    {
        Self { name }
    }

    /// A builder as its `default` makes it.
    pub fn builder() -> (r: SasTableNameBuilder)
        ensures
            r.is_initial(),
    {
        SasTableNameBuilder::default()
    }
}

/// Collects the fields of a table name, one by one.
#[derive(Debug, Clone)]
pub struct SasTableNameBuilder {
    pub name: Option<String>,
}

impl Default for SasTableNameBuilder {
    /// A builder with no field set.
    fn default() -> (r: Self)
        ensures
            r.is_initial(),
    {
        Self {
            name: None,
        }
    }
}

impl SasTableNameBuilder {
    /// Whether the builder is as `default` makes it: no field set.
    pub open spec fn is_initial(self) -> bool {
        &&& self.name is None
    }

    /// The name of the first field that is not set, if there is one.
    pub open spec fn missing(self) -> Option<Seq<char>> {
        if self.name is None {
            Some("name"@)
        } else {
            None
        }
    }

    /// Sets `name`.
    pub fn name(self, value: String) -> (r: Self)
        ensures
            r == (SasTableNameBuilder { name: Some(value), ..self }),
    {
        let mut builder = self;
        builder.name = Some(value);
        builder
    }

    /// Builds a table name from the fields, or names the first field that is not set.
    pub fn build(self) -> (r: Result<SasTableName, BuilderError>)
        ensures
            match self.missing() {
                None => r == Ok::<SasTableName, BuilderError>(
                    SasTableName {
                        name: self.name.unwrap(),
                    },
                ),
                Some(name) => r is Err && r.unwrap_err().field_name() == name,
            },
    {
        let name = match self.name {
            Some(value) => value,
            None => return Err(BuilderError::UninitializedField("name")),
        };
        Ok(SasTableName { name })
    }
}

} // verus!

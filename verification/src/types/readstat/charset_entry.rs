//! An entry of a table of character sets.

use crate::types::builder::BuilderError;
use vstd::prelude::*;

verus! {

/// A character set: its code and its name.
#[derive(Debug, Clone, PartialEq)]
pub struct ReadStatCharsetEntry {
    pub code: i32,
    pub name: String,
}

impl ReadStatCharsetEntry {
    /// Makes a value of the given fields.
    pub fn new(code: i32, name: String) -> (r: Self)
        ensures
            r == (ReadStatCharsetEntry { code, name }),
    {
        Self { code, name }
    }

    /// A builder as its `default` makes it.
    pub fn builder() -> (r: ReadStatCharsetEntryBuilder)
        ensures
            r.is_initial(),
    {
        ReadStatCharsetEntryBuilder::default()
    }
}

/// Collects the fields of a charset entry, one by one.
#[derive(Debug, Clone)]
pub struct ReadStatCharsetEntryBuilder {
    pub code: Option<i32>,
    pub name: Option<String>,
}

impl ReadStatCharsetEntryBuilder {
    /// Whether the builder is as `default` makes it: every field set to its
    /// starting value.
    pub open spec fn is_initial(self) -> bool {
        &&& self.code == Some(0i32)
        &&& self.name is Some
        &&& self.name.unwrap()@ == Seq::<char>::empty()
    }

    /// The name of the first field that is not set, if there is one.
    pub open spec fn missing(self) -> Option<Seq<char>> {
        if self.code is None {
            Some("code"@)
        } else if self.name is None {
            Some("name"@)
        } else {
            None
        }
    }

    /// A builder with every field set to its starting value.
    pub fn default() -> (r: Self)
        ensures
            r.is_initial(),
    {
        Self {
            code: Some(0i32),
            name: Some(String::new()),
        }
    }

    /// Sets `code`.
    pub fn code(self, value: i32) -> (r: Self)
        ensures
            r == (ReadStatCharsetEntryBuilder { code: Some(value), ..self }),
    {
        let mut builder = self;
        builder.code = Some(value);
        builder
    }

    /// Sets `name`.
    pub fn name(self, value: String) -> (r: Self)
        ensures
            r == (ReadStatCharsetEntryBuilder { name: Some(value), ..self }),
    {
        let mut builder = self;
        builder.name = Some(value);
        builder
    }

    /// Builds a charset entry from the fields, or names the first field that is not set.
    pub fn build(self) -> (r: Result<ReadStatCharsetEntry, BuilderError>)
        ensures
            match self.missing() {
                None => r == Ok::<ReadStatCharsetEntry, BuilderError>(
                    ReadStatCharsetEntry {
                        code: self.code.unwrap(),
                        name: self.name.unwrap(),
                    },
                ),
                Some(name) => r is Err && r.unwrap_err().field_name() == name,
            },
    {
        let code = match self.code {
            Some(value) => value,
            None => return Err(BuilderError::UninitializedField("code")),
        };
        let name = match self.name {
            Some(value) => value,
            None => return Err(BuilderError::UninitializedField("name")),
        };
        Ok(ReadStatCharsetEntry { code, name })
    }
}

} // verus!

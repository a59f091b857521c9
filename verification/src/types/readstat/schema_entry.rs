//! An entry of a schema.

use crate::types::builder::BuilderError;
use crate::types::readstat::variable::ReadStatVariable;
use vstd::prelude::*;

verus! {

/// An entry of a schema: where a variable stands in an observation.
#[derive(Debug, Clone, PartialEq)]
pub struct ReadStatSchemaEntry {
    pub row: u32,
    pub col: u32,
    pub len: u32,
    pub skip: bool,
    pub variable: ReadStatVariable,
    pub labelset: String,
    pub decimal_separator: char,
}

impl ReadStatSchemaEntry {
    /// Makes a value of the given fields.
    pub fn new(
        row: u32,
        col: u32,
        len: u32,
        skip: bool,
        variable: ReadStatVariable,
        labelset: String,
        decimal_separator: char,
    ) -> (r: Self)
        ensures
            r == (ReadStatSchemaEntry {
                row,
                col,
                len,
                skip,
                variable,
                labelset,
                decimal_separator,
            }),
    {
        Self { row, col, len, skip, variable, labelset, decimal_separator }
    }
}

/// Collects the fields of a schema entry, one by one.
#[derive(Debug, Clone)]
pub struct ReadStatSchemaEntryBuilder {
    pub row: Option<u32>,
    pub col: Option<u32>,
    pub len: Option<u32>,
    pub skip: Option<bool>,
    pub variable: Option<ReadStatVariable>,
    pub labelset: Option<String>,
    pub decimal_separator: Option<char>,
}

impl Default for ReadStatSchemaEntryBuilder {
    /// A builder with no field set.
    fn default() -> (r: Self)
        ensures
            r.is_initial(),
    {
        Self {
            row: None,
            col: None,
            len: None,
            skip: None,
            variable: None,
            labelset: None,
            decimal_separator: None,
        }
    }
}

impl ReadStatSchemaEntryBuilder {
    /// Whether the builder is as `default` makes it: no field set.
    pub open spec fn is_initial(self) -> bool {
        &&& self.row is None
        &&& self.col is None
        &&& self.len is None
        &&& self.skip is None
        &&& self.variable is None
        &&& self.labelset is None
        &&& self.decimal_separator is None
    }

    /// The name of the first field that is not set, if there is one.
    pub open spec fn missing(self) -> Option<Seq<char>> {
        if self.row is None {
            Some("row"@)
        } else if self.col is None {
            Some("col"@)
        } else if self.len is None {
            Some("len"@)
        } else if self.skip is None {
            Some("skip"@)
        } else if self.variable is None {
            Some("variable"@)
        } else if self.labelset is None {
            Some("labelset"@)
        } else if self.decimal_separator is None {
            Some("decimal_separator"@)
        } else {
            None
        }
    }

    /// Sets `row`.
    pub fn row(self, value: u32) -> (r: Self)
        ensures
            r == (ReadStatSchemaEntryBuilder { row: Some(value), ..self }),
    {
        let mut builder = self;
        builder.row = Some(value);
        builder
    }

    /// Sets `col`.
    pub fn col(self, value: u32) -> (r: Self)
        ensures
            r == (ReadStatSchemaEntryBuilder { col: Some(value), ..self }),
    {
        let mut builder = self;
        builder.col = Some(value);
        builder
    }

    /// Sets `len`.
    pub fn len(self, value: u32) -> (r: Self)
        ensures
            r == (ReadStatSchemaEntryBuilder { len: Some(value), ..self }),
    {
        let mut builder = self;
        builder.len = Some(value);
        builder
    }

    /// Sets `skip`.
    pub fn skip(self, value: bool) -> (r: Self)
        ensures
            r == (ReadStatSchemaEntryBuilder { skip: Some(value), ..self }),
    {
        let mut builder = self;
        builder.skip = Some(value);
        builder
    }

    /// Sets `variable`.
    pub fn variable(self, value: ReadStatVariable) -> (r: Self)
        ensures
            r == (ReadStatSchemaEntryBuilder { variable: Some(value), ..self }),
    {
        let mut builder = self;
        builder.variable = Some(value);
        builder
    }

    /// Sets `labelset`.
    pub fn labelset(self, value: String) -> (r: Self)
        ensures
            r == (ReadStatSchemaEntryBuilder { labelset: Some(value), ..self }),
    {
        let mut builder = self;
        builder.labelset = Some(value);
        builder
    }

    /// Sets `decimal_separator`.
    pub fn decimal_separator(self, value: char) -> (r: Self)
        ensures
            r == (ReadStatSchemaEntryBuilder { decimal_separator: Some(value), ..self }),
    {
        let mut builder = self;
        builder.decimal_separator = Some(value);
        builder
    }

    /// Builds a schema entry from the fields, or names the first field that is not set.
    pub fn build(self) -> (r: Result<ReadStatSchemaEntry, BuilderError>)
        ensures
            match self.missing() {
                None => r == Ok::<ReadStatSchemaEntry, BuilderError>(
                    ReadStatSchemaEntry {
                        row: self.row.unwrap(),
                        col: self.col.unwrap(),
                        len: self.len.unwrap(),
                        skip: self.skip.unwrap(),
                        variable: self.variable.unwrap(),
                        labelset: self.labelset.unwrap(),
                        decimal_separator: self.decimal_separator.unwrap(),
                    },
                ),
                Some(name) => r is Err && r.unwrap_err().field_name() == name,
            },
    {
        let row = match self.row {
            Some(value) => value,
            None => return Err(BuilderError::UninitializedField("row")),
        };
        let col = match self.col {
            Some(value) => value,
            None => return Err(BuilderError::UninitializedField("col")),
        };
        let len = match self.len {
            Some(value) => value,
            None => return Err(BuilderError::UninitializedField("len")),
        };
        let skip = match self.skip {
            Some(value) => value,
            None => return Err(BuilderError::UninitializedField("skip")),
        };
        let variable = match self.variable {
            Some(value) => value,
            None => return Err(BuilderError::UninitializedField("variable")),
        };
        let labelset = match self.labelset {
            Some(value) => value,
            None => return Err(BuilderError::UninitializedField("labelset")),
        };
        let decimal_separator = match self.decimal_separator {
            Some(value) => value,
            None => return Err(BuilderError::UninitializedField("decimal_separator")),
        };
        Ok(ReadStatSchemaEntry { row, col, len, skip, variable, labelset, decimal_separator })
    }
}

} // verus!

//! The schema of a text file.

use crate::types::builder::BuilderError;
use crate::types::readstat::schema_entry::ReadStatSchemaEntry;
use vstd::prelude::*;

verus! {

/// A schema: how the observations of a text file are laid out.
#[derive(Debug, Clone, PartialEq)]
pub struct ReadStatSchema {
    pub filename: String,
    pub rows_per_observation: u32,
    pub cols_per_observation: u32,
    pub first_line: u32,
    pub entry_count: u32,
    pub field_delimiter: char,
    pub entries: Vec<ReadStatSchemaEntry>,
}

impl ReadStatSchema {
    /// Makes a value of the given fields.
    pub fn new(
        filename: String,
        rows_per_observation: u32,
        cols_per_observation: u32,
        first_line: u32,
        entry_count: u32,
        field_delimiter: char,
        entries: Vec<ReadStatSchemaEntry>,
    ) -> (r: Self)
        ensures
            r == (ReadStatSchema {
                filename,
                rows_per_observation,
                cols_per_observation,
                first_line,
                entry_count,
                field_delimiter,
                entries,
            }),
    {
        Self {
            filename,
            rows_per_observation,
            cols_per_observation,
            first_line,
            entry_count,
            field_delimiter,
            entries,
        }
    }

    /// A builder as its `default` makes it.
    pub fn builder() -> (r: ReadStatSchemaBuilder)
        ensures
            r.is_initial(),
    {
        ReadStatSchemaBuilder::default()
    }
}

/// Collects the fields of a schema, one by one.
#[derive(Debug, Clone)]
pub struct ReadStatSchemaBuilder {
    pub filename: Option<String>,
    pub rows_per_observation: Option<u32>,
    pub cols_per_observation: Option<u32>,
    pub first_line: Option<u32>,
    pub entry_count: Option<u32>,
    pub field_delimiter: Option<char>,
    pub entries: Option<Vec<ReadStatSchemaEntry>>,
}

impl ReadStatSchemaBuilder {
    /// Whether the builder is as `default` makes it: every field set to its
    /// starting value.
    pub open spec fn is_initial(self) -> bool {
        &&& self.filename is Some
        &&& self.filename.unwrap()@ == Seq::<char>::empty()
        &&& self.rows_per_observation == Some(0u32)
        &&& self.cols_per_observation == Some(0u32)
        &&& self.first_line == Some(0u32)
        &&& self.entry_count == Some(0u32)
        &&& self.field_delimiter == Some(' ')
        &&& self.entries is Some
        &&& self.entries.unwrap()@ == Seq::<ReadStatSchemaEntry>::empty()
    }

    /// The name of the first field that is not set, if there is one.
    pub open spec fn missing(self) -> Option<Seq<char>> {
        if self.filename is None {
            Some("filename"@)
        } else if self.rows_per_observation is None {
            Some("rows_per_observation"@)
        } else if self.cols_per_observation is None {
            Some("cols_per_observation"@)
        } else if self.first_line is None {
            Some("first_line"@)
        } else if self.entry_count is None {
            Some("entry_count"@)
        } else if self.field_delimiter is None {
            Some("field_delimiter"@)
        } else if self.entries is None {
            Some("entries"@)
        } else {
            None
        }
    }

    /// A builder with every field set to its starting value.
    pub fn default() -> (r: Self)
        ensures
            r.is_initial(),
    {
        Self {
            filename: Some(String::new()),
            rows_per_observation: Some(0u32),
            cols_per_observation: Some(0u32),
            first_line: Some(0u32),
            entry_count: Some(0u32),
            field_delimiter: Some(' '),
            entries: Some(Vec::with_capacity(32)),
        }
    }

    /// Sets `filename`.
    pub fn filename(self, value: String) -> (r: Self)
        ensures
            r == (ReadStatSchemaBuilder { filename: Some(value), ..self }),
    {
        let mut builder = self;
        builder.filename = Some(value);
        builder
    }

    /// Sets `rows_per_observation`.
    pub fn rows_per_observation(self, value: u32) -> (r: Self)
        ensures
            r == (ReadStatSchemaBuilder { rows_per_observation: Some(value), ..self }),
    {
        let mut builder = self;
        builder.rows_per_observation = Some(value);
        builder
    }

    /// Sets `cols_per_observation`.
    pub fn cols_per_observation(self, value: u32) -> (r: Self)
        ensures
            r == (ReadStatSchemaBuilder { cols_per_observation: Some(value), ..self }),
    {
        let mut builder = self;
        builder.cols_per_observation = Some(value);
        builder
    }

    /// Sets `first_line`.
    pub fn first_line(self, value: u32) -> (r: Self)
        ensures
            r == (ReadStatSchemaBuilder { first_line: Some(value), ..self }),
    {
        let mut builder = self;
        builder.first_line = Some(value);
        builder
    }

    /// Sets `entry_count`.
    pub fn entry_count(self, value: u32) -> (r: Self)
        ensures
            r == (ReadStatSchemaBuilder { entry_count: Some(value), ..self }),
    {
        let mut builder = self;
        builder.entry_count = Some(value);
        builder
    }

    /// Sets `field_delimiter`.
    pub fn field_delimiter(self, value: char) -> (r: Self)
        ensures
            r == (ReadStatSchemaBuilder { field_delimiter: Some(value), ..self }),
    {
        let mut builder = self;
        builder.field_delimiter = Some(value);
        builder
    }

    /// Sets `entries`.
    pub fn entries(self, value: Vec<ReadStatSchemaEntry>) -> (r: Self)
        ensures
            r == (ReadStatSchemaBuilder { entries: Some(value), ..self }),
    {
        let mut builder = self;
        builder.entries = Some(value);
        builder
    }

    /// Builds a schema from the fields, or names the first field that is not set.
    pub fn build(self) -> (r: Result<ReadStatSchema, BuilderError>)
        ensures
            match self.missing() {
                None => r == Ok::<ReadStatSchema, BuilderError>(
                    ReadStatSchema {
                        filename: self.filename.unwrap(),
                        rows_per_observation: self.rows_per_observation.unwrap(),
                        cols_per_observation: self.cols_per_observation.unwrap(),
                        first_line: self.first_line.unwrap(),
                        entry_count: self.entry_count.unwrap(),
                        field_delimiter: self.field_delimiter.unwrap(),
                        entries: self.entries.unwrap(),
                    },
                ),
                Some(name) => r is Err && r.unwrap_err().field_name() == name,
            },
    {
        let filename = match self.filename {
            Some(value) => value,
            None => return Err(BuilderError::UninitializedField("filename")),
        };
        let rows_per_observation = match self.rows_per_observation {
            Some(value) => value,
            None => return Err(BuilderError::UninitializedField("rows_per_observation")),
        };
        let cols_per_observation = match self.cols_per_observation {
            Some(value) => value,
            None => return Err(BuilderError::UninitializedField("cols_per_observation")),
        };
        let first_line = match self.first_line {
            Some(value) => value,
            None => return Err(BuilderError::UninitializedField("first_line")),
        };
        let entry_count = match self.entry_count {
            Some(value) => value,
            None => return Err(BuilderError::UninitializedField("entry_count")),
        };
        let field_delimiter = match self.field_delimiter {
            Some(value) => value,
            None => return Err(BuilderError::UninitializedField("field_delimiter")),
        };
        let entries = match self.entries {
            Some(value) => value,
            None => return Err(BuilderError::UninitializedField("entries")),
        };
        Ok(ReadStatSchema {
            filename,
            rows_per_observation,
            cols_per_observation,
            first_line,
            entry_count,
            field_delimiter,
            entries,
        })
    }
}

} // verus!

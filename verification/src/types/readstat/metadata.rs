//! The metadata of a file.

use crate::types::builder::BuilderError;
use crate::types::readstat::enums::{
    ReadStatCompression, ReadStatEncoding, ReadStatEndianness, ReadStatFileLabel,
};
use crate::types::sas::name::{all_name_chars, lemma_name_takes_a_byte_each};
use crate::types::sas::table_name::SasTableName;
use datetime::Instant;
use vstd::prelude::*;
use vstd::string::StringSliceAdditionalSpecFns;

verus! {

/// `datetime::Instant`, a point in time. The library carries such a value
/// and never looks into it.
#[verifier::external_type_specification]
#[verifier::external_body]
pub struct ExInstant(datetime::Instant);

/// The derived `Clone` of `datetime::Instant`, a `Copy` type: the clone is
/// the instant itself.
pub assume_specification[ <Instant as Clone>::clone ](instant: &Instant) -> (r: Instant)
    ensures
        r == *instant,
;

/// `datetime::Instant::now`: the time of the system clock. Nothing is
/// claimed of it.
#[verifier::external_body]
fn current_instant() -> Instant {
    Instant::now()
}

/// The table name that metadata starts with.
fn default_table_name() -> (r: SasTableName)
    ensures
        r.name@ == "table"@,
{
    proof {
        reveal_strlit("table");
        let text = "table"@;
        assert(text.len() == 5);
        assert(text[0] == 't' && text[1] == 'a' && text[2] == 'b' && text[3] == 'l' && text[4] == 'e');
        assert(all_name_chars(text));
        lemma_name_takes_a_byte_each(text);
    }
    SasTableName::from_str("table").unwrap()
}

/// What a file says of itself.
#[derive(Debug, Clone)]
pub struct ReadStatMetadata {
    pub row_count: u128,
    pub var_count: u128,
    pub created_at: Instant,
    pub modified_at: Instant,
    pub file_format_version: u16,
    pub compression: ReadStatCompression,
    pub endianness: ReadStatEndianness,
    pub table_name: SasTableName,
    pub file_label: ReadStatFileLabel,
    pub file_encoding: ReadStatEncoding,
    pub is_64bit: bool,
}

impl ReadStatMetadata {
    /// Makes a value of the given fields.
    pub fn new(
        row_count: u128,
        var_count: u128,
        created_at: Instant,
        modified_at: Instant,
        file_format_version: u16,
        compression: ReadStatCompression,
        endianness: ReadStatEndianness,
        table_name: SasTableName,
        file_label: ReadStatFileLabel,
        file_encoding: ReadStatEncoding,
        is_64bit: bool,
    ) -> (r: Self)
        ensures
            r == (ReadStatMetadata {
                row_count,
                var_count,
                created_at,
                modified_at,
                file_format_version,
                compression,
                endianness,
                table_name,
                file_label,
                file_encoding,
                is_64bit,
            }),
    {
        Self {
            row_count,
            var_count,
            created_at,
            modified_at,
            file_format_version,
            compression,
            endianness,
            table_name,
            file_label,
            file_encoding,
            is_64bit,
        }
    }

    /// A builder as its `default` makes it.
    pub fn builder() -> (r: ReadStatMetadataBuilder)
        ensures
            r.is_initial(),
    {
        ReadStatMetadataBuilder::default()
    }
}

/// Collects the fields of metadata, one by one.
#[derive(Debug, Clone)]
pub struct ReadStatMetadataBuilder {
    pub row_count: Option<u128>,
    pub var_count: Option<u128>,
    pub created_at: Option<Instant>,
    pub modified_at: Option<Instant>,
    pub file_format_version: Option<u16>,
    pub compression: Option<ReadStatCompression>,
    pub endianness: Option<ReadStatEndianness>,
    pub table_name: Option<SasTableName>,
    pub file_label: Option<ReadStatFileLabel>,
    pub file_encoding: Option<ReadStatEncoding>,
    pub is_64bit: Option<bool>,
}

impl ReadStatMetadataBuilder {
    /// Whether the builder is as `default` makes it: every field set to its
    /// starting value.
    pub open spec fn is_initial(self) -> bool {
        &&& self.row_count == Some(0u128)
        &&& self.var_count == Some(0u128)
        &&& self.created_at is Some
        &&& self.modified_at is Some
        &&& self.file_format_version == Some(0u16)
        &&& self.compression == Some(ReadStatCompression::Uncompressed)
        &&& self.endianness == Some(ReadStatEndianness::Little)
        &&& self.table_name is Some
        &&& self.table_name.unwrap().name@ == "table"@
        &&& self.file_label == Some(ReadStatFileLabel::Sas)
        &&& self.file_encoding == Some(ReadStatEncoding::Latin1)
        &&& self.is_64bit == Some(false)
    }

    /// The name of the first field that is not set, if there is one.
    pub open spec fn missing(self) -> Option<Seq<char>> {
        if self.row_count is None {
            Some("row_count"@)
        } else if self.var_count is None {
            Some("var_count"@)
        } else if self.created_at is None {
            Some("created_at"@)
        } else if self.modified_at is None {
            Some("modified_at"@)
        } else if self.file_format_version is None {
            Some("file_format_version"@)
        } else if self.compression is None {
            Some("compression"@)
        } else if self.endianness is None {
            Some("endianness"@)
        } else if self.table_name is None {
            Some("table_name"@)
        } else if self.file_label is None {
            Some("file_label"@)
        } else if self.file_encoding is None {
            Some("file_encoding"@)
        } else if self.is_64bit is None {
            Some("is_64bit"@)
        } else {
            None
        }
    }

    /// A builder with every field set to its starting value.
    pub fn default() -> (r: Self)
        ensures
            r.is_initial(),
    {
        let table_name = default_table_name();
        Self {
            row_count: Some(0u128),
            var_count: Some(0u128),
            created_at: Some(current_instant()),
            modified_at: Some(current_instant()),
            file_format_version: Some(0u16),
            compression: Some(ReadStatCompression::Uncompressed),
            endianness: Some(ReadStatEndianness::Little),
            table_name: Some(table_name),
            file_label: Some(ReadStatFileLabel::Sas),
            file_encoding: Some(ReadStatEncoding::Latin1),
            is_64bit: Some(false),
        }
    }

    /// Sets `row_count`.
    pub fn row_count(self, value: u128) -> (r: Self)
        ensures
            r == (ReadStatMetadataBuilder { row_count: Some(value), ..self }),
    {
        let mut builder = self;
        builder.row_count = Some(value);
        builder
    }

    /// Sets `var_count`.
    pub fn var_count(self, value: u128) -> (r: Self)
        ensures
            r == (ReadStatMetadataBuilder { var_count: Some(value), ..self }),
    {
        let mut builder = self;
        builder.var_count = Some(value);
        builder
    }

    /// Sets `created_at`.
    pub fn created_at(self, value: Instant) -> (r: Self)
        ensures
            r == (ReadStatMetadataBuilder { created_at: Some(value), ..self }),
    {
        let mut builder = self;
        builder.created_at = Some(value);
        builder
    }

    /// Sets `modified_at`.
    pub fn modified_at(self, value: Instant) -> (r: Self)
        ensures
            r == (ReadStatMetadataBuilder { modified_at: Some(value), ..self }),
    {
        let mut builder = self;
        builder.modified_at = Some(value);
        builder
    }

    /// Sets `file_format_version`.
    pub fn file_format_version(self, value: u16) -> (r: Self)
        ensures
            r == (ReadStatMetadataBuilder { file_format_version: Some(value), ..self }),
    {
        let mut builder = self;
        builder.file_format_version = Some(value);
        builder
    }

    /// Sets `compression`.
    pub fn compression(self, value: ReadStatCompression) -> (r: Self)
        ensures
            r == (ReadStatMetadataBuilder { compression: Some(value), ..self }),
    {
        let mut builder = self;
        builder.compression = Some(value);
        builder
    }

    /// Sets `endianness`.
    pub fn endianness(self, value: ReadStatEndianness) -> (r: Self)
        ensures
            r == (ReadStatMetadataBuilder { endianness: Some(value), ..self }),
    {
        let mut builder = self;
        builder.endianness = Some(value);
        builder
    }

    /// Sets `table_name`.
    pub fn table_name(self, value: SasTableName) -> (r: Self)
        ensures
            r == (ReadStatMetadataBuilder { table_name: Some(value), ..self }),
    {
        let mut builder = self;
        builder.table_name = Some(value);
        builder
    }

    /// Sets `file_label`.
    pub fn file_label(self, value: ReadStatFileLabel) -> (r: Self)
        ensures
            r == (ReadStatMetadataBuilder { file_label: Some(value), ..self }),
    {
        let mut builder = self;
        builder.file_label = Some(value);
        builder
    }

    /// Sets `file_encoding`.
    pub fn file_encoding(self, value: ReadStatEncoding) -> (r: Self)
        ensures
            r == (ReadStatMetadataBuilder { file_encoding: Some(value), ..self }),
    {
        let mut builder = self;
        builder.file_encoding = Some(value);
        builder
    }

    /// Sets `is_64bit`.
    pub fn is_64bit(self, value: bool) -> (r: Self)
        ensures
            r == (ReadStatMetadataBuilder { is_64bit: Some(value), ..self }),
    {
        let mut builder = self;
        builder.is_64bit = Some(value);
        builder
    }

    /// Builds metadata from the fields, or names the first field that is not set.
    pub fn build(self) -> (r: Result<ReadStatMetadata, BuilderError>)
        ensures
            match self.missing() {
                None => r == Ok::<ReadStatMetadata, BuilderError>(
                    ReadStatMetadata {
                        row_count: self.row_count.unwrap(),
                        var_count: self.var_count.unwrap(),
                        created_at: self.created_at.unwrap(),
                        modified_at: self.modified_at.unwrap(),
                        file_format_version: self.file_format_version.unwrap(),
                        compression: self.compression.unwrap(),
                        endianness: self.endianness.unwrap(),
                        table_name: self.table_name.unwrap(),
                        file_label: self.file_label.unwrap(),
                        file_encoding: self.file_encoding.unwrap(),
                        is_64bit: self.is_64bit.unwrap(),
                    },
                ),
                Some(name) => r is Err && r.unwrap_err().field_name() == name,
            },
    {
        let row_count = match self.row_count {
            Some(value) => value,
            None => return Err(BuilderError::UninitializedField("row_count")),
        };
        let var_count = match self.var_count {
            Some(value) => value,
            None => return Err(BuilderError::UninitializedField("var_count")),
        };
        let created_at = match self.created_at {
            Some(value) => value,
            None => return Err(BuilderError::UninitializedField("created_at")),
        };
        let modified_at = match self.modified_at {
            Some(value) => value,
            None => return Err(BuilderError::UninitializedField("modified_at")),
        };
        let file_format_version = match self.file_format_version {
            Some(value) => value,
            None => return Err(BuilderError::UninitializedField("file_format_version")),
        };
        let compression = match self.compression {
            Some(value) => value,
            None => return Err(BuilderError::UninitializedField("compression")),
        };
        let endianness = match self.endianness {
            Some(value) => value,
            None => return Err(BuilderError::UninitializedField("endianness")),
        };
        let table_name = match self.table_name {
            Some(value) => value,
            None => return Err(BuilderError::UninitializedField("table_name")),
        };
        let file_label = match self.file_label {
            Some(value) => value,
            None => return Err(BuilderError::UninitializedField("file_label")),
        };
        let file_encoding = match self.file_encoding {
            Some(value) => value,
            None => return Err(BuilderError::UninitializedField("file_encoding")),
        };
        let is_64bit = match self.is_64bit {
            Some(value) => value,
            None => return Err(BuilderError::UninitializedField("is_64bit")),
        };
        Ok(ReadStatMetadata {
            row_count,
            var_count,
            created_at,
            modified_at,
            file_format_version,
            compression,
            endianness,
            table_name,
            file_label,
            file_encoding,
            is_64bit,
        })
    }
}

} // verus!

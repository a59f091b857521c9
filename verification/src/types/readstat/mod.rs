//! Format-independent records: values, variables, schemas, metadata.

pub mod charset_entry;
pub mod enums;
pub mod error_message;
pub mod label_set;
pub mod metadata;
pub mod missing_ranges;
pub mod missing_value;
pub mod schema;
pub mod schema_entry;
pub mod value;
pub mod value_label;
pub mod variable;

pub use charset_entry::{ReadStatCharsetEntry, ReadStatCharsetEntryBuilder};
pub use enums::{
    ReadStatAlignment, ReadStatCompression, ReadStatEncoding, ReadStatEndianness, ReadStatError,
    ReadStatFileLabel, ReadStatHandler, ReadStatIoFlags, ReadStatMeasure, ReadStatType,
    ReadStatTypeClass, ReadStatValueType, ReadStatVendor,
};
pub use error_message::readstat_error_message;
pub use label_set::{ReadStatLabelSet, ReadStatLabelSetBuilder};
pub use metadata::{ReadStatMetadata, ReadStatMetadataBuilder};
pub use missing_ranges::{ReadStatMissingRanges, ReadStatMissingRangesBuilder};
pub use missing_value::{ReadStatMissingValue, ReadStatMissingValueBuilder};
pub use schema::{ReadStatSchema, ReadStatSchemaBuilder};
pub use schema_entry::{ReadStatSchemaEntry, ReadStatSchemaEntryBuilder};
pub use value::{ReadStatValue, ReadStatValueBuilder};
pub use value_label::{ReadStatValueLabel, ReadStatValueLabelBuilder};
pub use variable::{ReadStatVariable, ReadStatVariableBuilder};

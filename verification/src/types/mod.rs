//! The record types that describe a file and its values.

pub mod builder;
pub mod readstat;
pub mod sas;

pub use builder::BuilderError;
pub use readstat::{
    readstat_error_message, ReadStatAlignment, ReadStatCharsetEntry, ReadStatCompression,
    ReadStatEncoding, ReadStatEndianness, ReadStatError, ReadStatFileLabel, ReadStatHandler,
    ReadStatIoFlags, ReadStatLabelSet, ReadStatMeasure, ReadStatMetadata, ReadStatMissingRanges,
    ReadStatMissingValue, ReadStatSchema, ReadStatSchemaEntry, ReadStatType, ReadStatTypeClass,
    ReadStatValue, ReadStatValueLabel, ReadStatValueType, ReadStatVariable, ReadStatVendor,
};
pub use sas::{
    build_charset_lookup, sas_to_unix, SasAlignmentOffset, SasColumnName, SasColumnType,
    SasCompression, SasCompressionSignature, SasEndian, SasFileFormat, SasFileHeaderSize,
    SasFileMagicNumber, SasHeader, SasHeaderEnd, SasHeaderStart, SasLabelName, SasPageHeaderSize,
    SasPageSize, SasPageType, SasStringEncoding, SasSubheaderPointerSize, SasSubheaderSignature,
    SasTableName,
};

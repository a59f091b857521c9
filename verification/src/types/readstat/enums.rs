//! The enumerations of the record types.

use vstd::prelude::*;

verus! {

/// What a handler tells the reader to do next.
#[derive(Debug, Clone, Copy, PartialEq, Eq, Structural)]
pub enum ReadStatHandler {
    Okay,
    Abort,
    SkipVariable,
}

impl ReadStatHandler {
    /// The number that stands for a variant.
    pub open spec fn code_of(self) -> int {
        match self {
            ReadStatHandler::Okay => 0,
            ReadStatHandler::Abort => -1,
            ReadStatHandler::SkipVariable => 1,
        }
    }

    /// The number that stands for the variant.
    pub fn code(&self) -> (r: i32)
        ensures
            r == self.code_of(),
    {
        match self {
            ReadStatHandler::Okay => 0,
            ReadStatHandler::Abort => -1,
            ReadStatHandler::SkipVariable => 1,
        }
    }
}

/// The declared type of a value.
#[derive(Debug, Clone, Copy, PartialEq, Eq, Structural)]
pub enum ReadStatType {
    String,
    Int8,
    Int16,
    Int32,
    Int64,
    UInt8,
    UInt16,
    UInt32,
    UInt64,
    Float,
    Double,
    StringRef,
}

/// A character encoding of text fields.
#[derive(Debug, Clone, Copy, PartialEq, Eq, Structural)]
pub enum ReadStatEncoding {
    Utf8,
    Latin1,
    Windows1252,
    Ascii,
}

/// The family of file that a label belongs to.
#[derive(Debug, Clone, Copy, PartialEq, Eq, Structural)]
pub enum ReadStatFileLabel {
    Sas,
    Xport,
}

/// The two classes of value types.
#[derive(Debug, Clone, Copy, PartialEq, Eq, Structural)]
pub enum ReadStatTypeClass {
    String,
    Numeric,
}

/// The level of measurement of a variable.
#[derive(Debug, Clone, Copy, PartialEq, Eq, Structural)]
pub enum ReadStatMeasure {
    Nominal,
    Ordinal,
    Scale,
}

/// How a variable is aligned for display.
#[derive(Debug, Clone, Copy, PartialEq, Eq, Structural)]
pub enum ReadStatAlignment {
    Left,
    Center,
    Right,
}

/// How the rows of a file are compressed.
#[derive(Debug, Clone, Copy, PartialEq, Eq, Structural)]
pub enum ReadStatCompression {
    Uncompressed,
    Rows,
    Binary,
}

/// The byte order that a file declares.
#[derive(Debug, Clone, Copy, PartialEq, Eq, Structural)]
pub enum ReadStatEndianness {
    Little,
    Big,
}

/// What can go wrong while a file is read or written.
#[derive(Debug, Clone, Copy, PartialEq, Eq, Structural)]
pub enum ReadStatError {
    Open,
    Read,
    Malloc,
    UserAbort,
    Parse,
    UnsupportedCompression,
    UnsupportedCharset,
    ColumnCountMismatch,
    RowCountMismatch,
    RowWidthMismatch,
    BadFormatString,
    ValueTypeMismatch,
    Write,
    WriterNotInitialized,
    Seek,
    Convert,
    ConvertBadString,
    ConvertShortString,
    ConvertLongString,
    NumericValueOutOfRange,
    TaggedValueOutOfRange,
    StringValueTooLong,
    TaggedValuesNotSupported,
    UnsupportedFileFormatVersion,
    NameBeginsWithIllegalCharacter,
    NameContainsIllegalCharacter,
    NameIsReservedKeyword,
    NameIsTooLong,
    BadTimestampString,
    BadFrequencyWeight,
    TooManyMissingValueDefinitions,
    NoteIsTooLong,
    StringRefsNotSupported,
    StringRefIsRequired,
    RowIsTooWideForPage,
    TooFewColumns,
    TooManyColumns,
    NameIsZeroLength,
    BadTimestampValue,
}

/// The position that a seek offset is relative to.
#[derive(Debug, Clone, Copy, PartialEq, Eq, Structural)]
pub enum ReadStatIoFlags {
    SeekSet,
    SeekCurrent,
    SeekEnd,
}

/// The software that wrote a file.
#[derive(Debug, Clone, Copy, PartialEq, Eq, Structural)]
pub enum ReadStatVendor {
    StatTransfer,
    Sas,
}

/// A decoded value. A floating-point value is held as its IEEE 754 bit
/// pattern.
#[derive(Debug, Clone, PartialEq)]
pub enum ReadStatValueType {
    String(String),
    Int8(i8),
    Int16(i16),
    Int32(i32),
    Int64(i64),
    UInt8(u8),
    UInt16(u16),
    UInt32(u32),
    UInt64(u64),
    Float(u32),
    Double(u64),
}

} // verus!

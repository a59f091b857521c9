//! The messages that describe an error.

use crate::types::readstat::enums::ReadStatError;
use vstd::prelude::*;

verus! {

/// The character of a decimal digit.
pub open spec fn digit_char(digit: nat) -> char {
    (digit + 0x30) as u8 as char
}

/// The decimal digits of a number, without leading zeros.
pub open spec fn decimal_digits(n: nat) -> Seq<char>
    decreases n,
{
    if n < 10 {
        seq![digit_char(n)]
    } else {
        decimal_digits(n / 10).push(digit_char(n % 10))
    }
}

/// A number written in decimal, with a minus sign where it is negative.
pub open spec fn decimal_text(v: int) -> Seq<char> {
    if v < 0 {
        seq!['-'] + decimal_digits((-v) as nat)
    } else {
        decimal_digits(v as nat)
    }
}

/// What a message says of an error, up to the error code.
pub open spec fn error_text(err: ReadStatError) -> Seq<char> {
    match err {
        ReadStatError::Open => "Error opening file: "@,
        ReadStatError::Read => "Error reading file: "@,
        ReadStatError::Malloc => "Error allocating memory: "@,
        ReadStatError::UserAbort => "User aborted: "@,
        ReadStatError::Parse => "Error parsing file: "@,
        ReadStatError::UnsupportedCompression => "Unsupported compression: "@,
        ReadStatError::UnsupportedCharset => "Unsupported charset: "@,
        ReadStatError::ColumnCountMismatch => "Column count mismatch: "@,
        ReadStatError::RowCountMismatch => "Row count mismatch: "@,
        ReadStatError::RowWidthMismatch => "Row width mismatch: "@,
        ReadStatError::BadFormatString => "Bad format string: "@,
        ReadStatError::ValueTypeMismatch => "Value type mismatch: "@,
        ReadStatError::Write => "Error writing file: "@,
        ReadStatError::WriterNotInitialized => "Writer not initialized: "@,
        ReadStatError::Seek => "Error seeking file: "@,
        ReadStatError::Convert => "Error converting value: "@,
        ReadStatError::ConvertBadString => "Error converting bad string: "@,
        ReadStatError::ConvertShortString => "Error converting short string: "@,
        ReadStatError::ConvertLongString => "Error converting long string: "@,
        ReadStatError::NumericValueOutOfRange => "Numeric value out of range: "@,
        ReadStatError::TaggedValueOutOfRange => "Tagged value out of range: "@,
        ReadStatError::StringValueTooLong => "String value too long: "@,
        ReadStatError::TaggedValuesNotSupported => "Tagged values not supported: "@,
        ReadStatError::UnsupportedFileFormatVersion => "Unsupported file format version: "@,
        ReadStatError::NameBeginsWithIllegalCharacter => "Name begins with illegal character: "@,
        ReadStatError::NameContainsIllegalCharacter => "Name contains illegal character: "@,
        ReadStatError::NameIsReservedKeyword => "Name is reserved keyword: "@,
        ReadStatError::NameIsTooLong => "Name is too long: "@,
        ReadStatError::BadTimestampString => "Bad timestamp string: "@,
        ReadStatError::BadFrequencyWeight => "Bad frequency weight: "@,
        ReadStatError::TooManyMissingValueDefinitions => "Too many missing value definitions: "@,
        ReadStatError::NoteIsTooLong => "Note is too long: "@,
        ReadStatError::StringRefsNotSupported => "String refs not supported: "@,
        ReadStatError::StringRefIsRequired => "String ref is required: "@,
        ReadStatError::RowIsTooWideForPage => "Row is too wide for page: "@,
        ReadStatError::TooFewColumns => "Too few columns: "@,
        ReadStatError::TooManyColumns => "Too many columns: "@,
        ReadStatError::NameIsZeroLength => "Name is zero length: "@,
        ReadStatError::BadTimestampValue => "Bad timestamp value: "@,
    }
}

/// `format!` of a text followed by an `i32`. The contract claims that the
/// result is the text followed by the number in decimal, with a minus sign
/// where it is negative, as `Display` writes an `i32`.
#[verifier::external_body]
fn text_with_number(text: &str, number: i32) -> (r: String)
    ensures
        r@ == text@ + decimal_text(number as int),
{
    format!("{}{}", text, number)
}

/// The message for an error and its code.
pub fn readstat_error_message(err: ReadStatError, error_code: i32) -> (r: String)
    ensures
        r@ == error_text(err) + decimal_text(error_code as int),
{
    let text = match err {
        ReadStatError::Open => "Error opening file: ",
        ReadStatError::Read => "Error reading file: ",
        ReadStatError::Malloc => "Error allocating memory: ",
        ReadStatError::UserAbort => "User aborted: ",
        ReadStatError::Parse => "Error parsing file: ",
        ReadStatError::UnsupportedCompression => "Unsupported compression: ",
        ReadStatError::UnsupportedCharset => "Unsupported charset: ",
        ReadStatError::ColumnCountMismatch => "Column count mismatch: ",
        ReadStatError::RowCountMismatch => "Row count mismatch: ",
        ReadStatError::RowWidthMismatch => "Row width mismatch: ",
        ReadStatError::BadFormatString => "Bad format string: ",
        ReadStatError::ValueTypeMismatch => "Value type mismatch: ",
        ReadStatError::Write => "Error writing file: ",
        ReadStatError::WriterNotInitialized => "Writer not initialized: ",
        ReadStatError::Seek => "Error seeking file: ",
        ReadStatError::Convert => "Error converting value: ",
        ReadStatError::ConvertBadString => "Error converting bad string: ",
        ReadStatError::ConvertShortString => "Error converting short string: ",
        ReadStatError::ConvertLongString => "Error converting long string: ",
        ReadStatError::NumericValueOutOfRange => "Numeric value out of range: ",
        ReadStatError::TaggedValueOutOfRange => "Tagged value out of range: ",
        ReadStatError::StringValueTooLong => "String value too long: ",
        ReadStatError::TaggedValuesNotSupported => "Tagged values not supported: ",
        ReadStatError::UnsupportedFileFormatVersion => "Unsupported file format version: ",
        ReadStatError::NameBeginsWithIllegalCharacter => "Name begins with illegal character: ",
        ReadStatError::NameContainsIllegalCharacter => "Name contains illegal character: ",
        ReadStatError::NameIsReservedKeyword => "Name is reserved keyword: ",
        ReadStatError::NameIsTooLong => "Name is too long: ",
        ReadStatError::BadTimestampString => "Bad timestamp string: ",
        ReadStatError::BadFrequencyWeight => "Bad frequency weight: ",
        ReadStatError::TooManyMissingValueDefinitions => "Too many missing value definitions: ",
        ReadStatError::NoteIsTooLong => "Note is too long: ",
        ReadStatError::StringRefsNotSupported => "String refs not supported: ",
        ReadStatError::StringRefIsRequired => "String ref is required: ",
        ReadStatError::RowIsTooWideForPage => "Row is too wide for page: ",
        ReadStatError::TooFewColumns => "Too few columns: ",
        ReadStatError::TooManyColumns => "Too many columns: ",
        ReadStatError::NameIsZeroLength => "Name is zero length: ",
        ReadStatError::BadTimestampValue => "Bad timestamp value: ",
    };
    text_with_number(text, error_code)
}

} // verus!

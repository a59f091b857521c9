//! Records and constants of the SAS7BDAT format.

pub mod charset;
pub mod column_name;
pub mod header;
pub mod label_name;
pub mod name;
pub mod sas_enums;
pub mod subheader_signature;
pub mod table_name;
pub mod time;

pub use charset::build_charset_lookup;
pub use column_name::{SasColumnName, SasColumnNameBuilder};
pub use header::{
    SasHeader, SasHeaderBuilder, SasHeaderEnd, SasHeaderEndBuilder, SasHeaderStart,
    SasHeaderStartBuilder,
};
pub use label_name::{SasLabelName, SasLabelNameBuilder};
pub use sas_enums::{
    SasAlignmentOffset, SasColumnType, SasCompression, SasCompressionSignature, SasEndian,
    SasFileFormat, SasFileHeaderSize, SasFileMagicNumber, SasPageHeaderSize, SasPageSize,
    SasPageType, SasStringEncoding, SasSubheaderPointerSize,
};
pub use subheader_signature::{SasSubheaderSignature, SasSubheaderSignatureBuilder};
pub use table_name::{SasTableName, SasTableNameBuilder};
pub use time::sas_to_unix;

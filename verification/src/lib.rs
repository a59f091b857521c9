//! Decoding of raw values from SAS7BDAT / XPORT style binary files: byte
//! order, fixed-width unsigned reads, complement conversion, missing-value
//! classification, timestamps and charset names, together with the record
//! types that describe a file.

pub mod constants;
pub mod sas;
pub mod types;

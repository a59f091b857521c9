//! The constants of the format, as enumerations.

use vstd::prelude::*;

verus! {

/// The byte order that a file header declares.
#[derive(Debug, Clone, Copy, PartialEq, Eq, Structural)]
pub enum SasEndian {
    Big,
    Little,
}

impl Default for SasEndian {
    fn default() -> (r: Self)
        ensures
            r == SasEndian::Big,
    {
        SasEndian::Big
    }
}

impl SasEndian {
    /// The header byte that stands for a byte order.
    pub open spec fn hex_of(self) -> int {
        match self {
            SasEndian::Big => 0x00,
            SasEndian::Little => 0x01,
        }
    }

    /// The header byte that stands for the byte order.
    pub fn to_hex(&self) -> (r: u8)
        ensures
            r == self.hex_of(),
    {
        match self {
            SasEndian::Big => 0x00,
            SasEndian::Little => 0x01,
        }
    }
}

/// The family of system that wrote a file.
#[derive(Debug, Clone, Copy, PartialEq, Eq, Structural)]
pub enum SasFileFormat {
    Unix,
    Windows,
}

impl SasFileFormat {
    /// The number that stands for a variant in a file.
    pub open spec fn code_of(self) -> int {
        match self {
            SasFileFormat::Unix => 1,
            SasFileFormat::Windows => 2,
        }
    }

    /// The number that stands for the variant.
    pub fn code(&self) -> (r: u32)
        ensures
            r == self.code_of(),
    {
        match self {
            SasFileFormat::Unix => 1,
            SasFileFormat::Windows => 2,
        }
    }
}

/// The header byte that tells how far fields are shifted for alignment.
#[derive(Debug, Clone, Copy, PartialEq, Eq, Structural)]
pub enum SasAlignmentOffset {
    Offset0,
    Offset4,
}

impl SasAlignmentOffset {
    /// The number that stands for a variant in a file.
    pub open spec fn code_of(self) -> int {
        match self {
            SasAlignmentOffset::Offset0 => 0x22,
            SasAlignmentOffset::Offset4 => 0x33,
        }
    }

    /// The number that stands for the variant.
    pub fn code(&self) -> (r: u32)
        ensures
            r == self.code_of(),
    {
        match self {
            SasAlignmentOffset::Offset0 => 0x22,
            SasAlignmentOffset::Offset4 => 0x33,
        }
    }
}

/// The two types of column.
#[derive(Debug, Clone, Copy, PartialEq, Eq, Structural)]
pub enum SasColumnType {
    Numeric,
    Character,
}

impl SasColumnType {
    /// The number that stands for a variant in a file.
    pub open spec fn code_of(self) -> int {
        match self {
            SasColumnType::Numeric => 0x01,
            SasColumnType::Character => 0x02,
        }
    }

    /// The number that stands for the variant.
    pub fn code(&self) -> (r: u32)
        ensures
            r == self.code_of(),
    {
        match self {
            SasColumnType::Numeric => 0x01,
            SasColumnType::Character => 0x02,
        }
    }
}

/// The kinds of page.
#[derive(Debug, Clone, Copy, PartialEq, Eq, Structural)]
pub enum SasPageType {
    Meta,
    Data,
    Mix,
    Amd,
    Meta2,
    Comp,
}

impl SasPageType {
    /// The number that stands for a variant in a file.
    pub open spec fn code_of(self) -> int {
        match self {
            SasPageType::Meta => 0x0000,
            SasPageType::Data => 0x0100,
            SasPageType::Mix => 0x0200,
            SasPageType::Amd => 0x0400,
            SasPageType::Meta2 => 0x4000,
            SasPageType::Comp => 0x9000,
        }
    }

    /// The number that stands for the variant.
    pub fn code(&self) -> (r: u32)
        ensures
            r == self.code_of(),
    {
        match self {
            SasPageType::Meta => 0x0000,
            SasPageType::Data => 0x0100,
            SasPageType::Mix => 0x0200,
            SasPageType::Amd => 0x0400,
            SasPageType::Meta2 => 0x4000,
            SasPageType::Comp => 0x9000,
        }
    }
}

/// The size of a subheader pointer, by the word size of the file.
#[derive(Debug, Clone, Copy, PartialEq, Eq, Structural)]
pub enum SasSubheaderPointerSize {
    Bit32,
    Bit64,
}

impl SasSubheaderPointerSize {
    /// The number that stands for a variant in a file.
    pub open spec fn code_of(self) -> int {
        match self {
            SasSubheaderPointerSize::Bit32 => 12,
            SasSubheaderPointerSize::Bit64 => 24,
        }
    }

    /// The number that stands for the variant.
    pub fn code(&self) -> (r: u32)
        ensures
            r == self.code_of(),
    {
        match self {
            SasSubheaderPointerSize::Bit32 => 12,
            SasSubheaderPointerSize::Bit64 => 24,
        }
    }
}

/// The size of a page header, by the word size of the file.
#[derive(Debug, Clone, Copy, PartialEq, Eq, Structural)]
pub enum SasPageHeaderSize {
    Bit32,
    Bit64,
}

impl SasPageHeaderSize {
    /// The number that stands for a variant in a file.
    pub open spec fn code_of(self) -> int {
        match self {
            SasPageHeaderSize::Bit32 => 24,
            SasPageHeaderSize::Bit64 => 40,
        }
    }

    /// The number that stands for the variant.
    pub fn code(&self) -> (r: u32)
        ensures
            r == self.code_of(),
    {
        match self {
            SasPageHeaderSize::Bit32 => 24,
            SasPageHeaderSize::Bit64 => 40,
        }
    }
}

/// How a row is compressed.
#[derive(Debug, Clone, Copy, PartialEq, Eq, Structural)]
pub enum SasCompression {
    Uncompressed,
    Trunc,
    Row,
}

impl SasCompression {
    /// The number that stands for a variant in a file.
    pub open spec fn code_of(self) -> int {
        match self {
            SasCompression::Uncompressed => 0x00,
            SasCompression::Trunc => 0x01,
            SasCompression::Row => 0x04,
        }
    }

    /// The number that stands for the variant.
    pub fn code(&self) -> (r: u32)
        ensures
            r == self.code_of(),
    {
        match self {
            SasCompression::Uncompressed => 0x00,
            SasCompression::Trunc => 0x01,
            SasCompression::Row => 0x04,
        }
    }
}

/// The two compression schemes, named by their signatures.
#[derive(Debug, Clone, Copy, PartialEq, Eq, Structural)]
pub enum SasCompressionSignature {
    Rle,
    Rdc,
}

impl SasCompressionSignature {
    /// The signature of a scheme.
    pub open spec fn signature(self) -> Seq<char> {
        match self {
            SasCompressionSignature::Rle => "SASYZCRL"@,
            SasCompressionSignature::Rdc => "SASYZCR2"@,
        }
    }

    /// The signature of the scheme.
    pub fn to_string(&self) -> (r: String)
        ensures
            r@ == self.signature(),
    {
        match self {
            SasCompressionSignature::Rle => "SASYZCRL".to_string(),
            SasCompressionSignature::Rdc => "SASYZCR2".to_string(),
        }
    }
}

/// The size of a file header, by the word size of the file.
#[derive(Debug, Clone, Copy, PartialEq, Eq, Structural)]
pub enum SasFileHeaderSize {
    Bit32,
    Bit64,
}

impl SasFileHeaderSize {
    /// The number that stands for a variant in a file.
    pub open spec fn code_of(self) -> int {
        match self {
            SasFileHeaderSize::Bit32 => 1024,
            SasFileHeaderSize::Bit64 => 8192,
        }
    }

    /// The number that stands for the variant.
    pub fn code(&self) -> (r: u32)
        ensures
            r == self.code_of(),
    {
        match self {
            SasFileHeaderSize::Bit32 => 1024,
            SasFileHeaderSize::Bit64 => 8192,
        }
    }
}

/// The size of a page.
#[derive(Debug, Clone, Copy, PartialEq, Eq, Structural)]
pub enum SasPageSize {
    Default,
}

impl SasPageSize {
    /// The number that stands for a variant in a file.
    pub open spec fn code_of(self) -> int {
        match self {
            SasPageSize::Default => 4096,
        }
    }

    /// The number that stands for the variant.
    pub fn code(&self) -> (r: u32)
        ensures
            r == self.code_of(),
    {
        match self {
            SasPageSize::Default => 4096,
        }
    }
}

/// The encoding that is assumed where a file names none.
#[derive(Debug, Clone, Copy, PartialEq, Eq, Structural)]
pub enum SasStringEncoding {
    Windows1252,
}

impl SasStringEncoding {
    /// The name of an encoding.
    pub open spec fn name(self) -> Seq<char> {
        match self {
            SasStringEncoding::Windows1252 => "WINDOWS-1252"@,
        }
    }

    /// The name, as text.
    pub fn to_string(&self) -> (r: String)
        ensures
            r@ == self.name(),
    {
        match self {
            SasStringEncoding::Windows1252 => "WINDOWS-1252".to_string(),
        }
    }

    /// The encoding that is assumed by default.
    pub fn default() -> (r: Self)
        ensures
            r == SasStringEncoding::Windows1252,
    {
        SasStringEncoding::Windows1252
    }
}

/// The two kinds of file, told apart by the magic number that a file starts with.
#[derive(Debug, Clone, Copy, PartialEq, Eq, Structural)]
pub enum SasFileMagicNumber {
    Sas7bdat,
    Sas7bcat,
}

impl SasFileMagicNumber {
    /// The name of a kind of file.
    pub open spec fn name(self) -> Seq<char> {
        match self {
            SasFileMagicNumber::Sas7bdat => "sas7bdat"@,
            SasFileMagicNumber::Sas7bcat => "sas7bcat"@,
        }
    }

    /// The 32 bytes that a file of a kind starts with. The two kinds
    /// differ in byte 15.
    pub open spec fn magic(self) -> Seq<u8> {
        seq![
            0x00u8, 0x00, 0x00, 0x00, 0x00, 0x00, 0x00, 0x00, 0x00, 0x00, 0x00, 0x00, 0xc2, 0xea,
            0x81,
            match self {
                SasFileMagicNumber::Sas7bdat => 0x60u8,
                SasFileMagicNumber::Sas7bcat => 0x63u8,
            },
            0xb3, 0x14, 0x11, 0xcf, 0xbd, 0x92, 0x08, 0x00, 0x09, 0xc7, 0x31, 0x8c, 0x18, 0x1f, 0x10,
            0x11,
        ]
    }

    /// The name, as text.
    pub fn to_string(&self) -> (r: String)
        ensures
            r@ == self.name(),
    {
        match self {
            SasFileMagicNumber::Sas7bdat => "sas7bdat".to_string(),
            SasFileMagicNumber::Sas7bcat => "sas7bcat".to_string(),
        }
    }

    /// The 32 bytes that a file of the kind starts with.
    pub fn get_array(&self) -> (r: [u8; 32])
        ensures
            r@ == self.magic(),
    {
        match self {
            SasFileMagicNumber::Sas7bdat => {
                let magic: [u8; 32] = [
                    0x00, 0x00, 0x00, 0x00, 0x00, 0x00, 0x00, 0x00, 0x00, 0x00, 0x00, 0x00, 0xc2,
                    0xea, 0x81, 0x60, 0xb3, 0x14, 0x11, 0xcf, 0xbd, 0x92, 0x08, 0x00, 0x09, 0xc7,
                    0x31, 0x8c, 0x18, 0x1f, 0x10, 0x11,
                ];
                assert(magic@ =~= self.magic());
                magic
            },
            SasFileMagicNumber::Sas7bcat => {
                let magic: [u8; 32] = [
                    0x00, 0x00, 0x00, 0x00, 0x00, 0x00, 0x00, 0x00, 0x00, 0x00, 0x00, 0x00, 0xc2,
                    0xea, 0x81, 0x63, 0xb3, 0x14, 0x11, 0xcf, 0xbd, 0x92, 0x08, 0x00, 0x09, 0xc7,
                    0x31, 0x8c, 0x18, 0x1f, 0x10, 0x11,
                ];
                assert(magic@ =~= self.magic());
                magic
            },
        }
    }
}

} // verus!

//! The header of a file.

use crate::types::builder::BuilderError;
use vstd::prelude::*;

verus! {

/// The first part of a file header.
#[derive(Debug, Clone, PartialEq)]
pub struct SasHeaderStart {
    pub magic: [u8; 32],
    pub a2: u8,
    pub mystery1: [u8; 2],
    pub a1: u8,
    pub mystery2: [u8; 1],
    pub endian: u8,
    pub mystery3: [u8; 1],
    pub file_format: char,
    pub mystery4: [u8; 30],
    pub encoding: u8,
    pub mystery5: [u8; 13],
    pub file_type: [char; 8],
    pub table_name: [char; 32],
    pub mystery6: [u8; 32],
    pub file_info: [char; 8],
}

impl SasHeaderStart {
    /// Whether every field is as a builder starts with it: zero bytes and
    /// blanks.
    pub open spec fn is_blank(header: Self) -> bool {
        &&& header.magic@ == Seq::new(32, |i: int| 0u8)
        &&& header.a2 == 0u8
        &&& header.mystery1@ == Seq::new(2, |i: int| 0u8)
        &&& header.a1 == 0u8
        &&& header.mystery2@ == Seq::new(1, |i: int| 0u8)
        &&& header.endian == 0u8
        &&& header.mystery3@ == Seq::new(1, |i: int| 0u8)
        &&& header.file_format == ' '
        &&& header.mystery4@ == Seq::new(30, |i: int| 0u8)
        &&& header.encoding == 0u8
        &&& header.mystery5@ == Seq::new(13, |i: int| 0u8)
        &&& header.file_type@ == Seq::new(8, |i: int| ' ')
        &&& header.table_name@ == Seq::new(32, |i: int| ' ')
        &&& header.mystery6@ == Seq::new(32, |i: int| 0u8)
        &&& header.file_info@ == Seq::new(8, |i: int| ' ')
    }

    /// Makes a value of the given fields.
    pub fn new(
        magic: [u8; 32],
        a2: u8,
        mystery1: [u8; 2],
        a1: u8,
        mystery2: [u8; 1],
        endian: u8,
        mystery3: [u8; 1],
        file_format: char,
        mystery4: [u8; 30],
        encoding: u8,
        mystery5: [u8; 13],
        file_type: [char; 8],
        table_name: [char; 32],
        mystery6: [u8; 32],
        file_info: [char; 8],
    ) -> (r: Self)
        ensures
            r == (SasHeaderStart {
                magic,
                a2,
                mystery1,
                a1,
                mystery2,
                endian,
                mystery3,
                file_format,
                mystery4,
                encoding,
                mystery5,
                file_type,
                table_name,
                mystery6,
                file_info,
            }),
    {
        Self {
            magic,
            a2,
            mystery1,
            a1,
            mystery2,
            endian,
            mystery3,
            file_format,
            mystery4,
            encoding,
            mystery5,
            file_type,
            table_name,
            mystery6,
            file_info,
        }
    }

    /// A builder as its `default` makes it.
    pub fn builder() -> (r: SasHeaderStartBuilder)
        ensures
            r.is_initial(),
    {
        SasHeaderStartBuilder::default()
    }
}

/// Collects the fields of the first part of a header, one by one.
#[derive(Debug, Clone)]
pub struct SasHeaderStartBuilder {
    pub magic: Option<[u8; 32]>,
    pub a2: Option<u8>,
    pub mystery1: Option<[u8; 2]>,
    pub a1: Option<u8>,
    pub mystery2: Option<[u8; 1]>,
    pub endian: Option<u8>,
    pub mystery3: Option<[u8; 1]>,
    pub file_format: Option<char>,
    pub mystery4: Option<[u8; 30]>,
    pub encoding: Option<u8>,
    pub mystery5: Option<[u8; 13]>,
    pub file_type: Option<[char; 8]>,
    pub table_name: Option<[char; 32]>,
    pub mystery6: Option<[u8; 32]>,
    pub file_info: Option<[char; 8]>,
}

impl SasHeaderStartBuilder {
    /// Whether the builder is as `default` makes it: every field set to its
    /// starting value.
    pub open spec fn is_initial(self) -> bool {
        &&& self.magic is Some
        &&& self.magic.unwrap()@ == Seq::new(32, |i: int| 0u8)
        &&& self.a2 == Some(0u8)
        &&& self.mystery1 is Some
        &&& self.mystery1.unwrap()@ == Seq::new(2, |i: int| 0u8)
        &&& self.a1 == Some(0u8)
        &&& self.mystery2 is Some
        &&& self.mystery2.unwrap()@ == Seq::new(1, |i: int| 0u8)
        &&& self.endian == Some(0u8)
        &&& self.mystery3 is Some
        &&& self.mystery3.unwrap()@ == Seq::new(1, |i: int| 0u8)
        &&& self.file_format == Some(' ')
        &&& self.mystery4 is Some
        &&& self.mystery4.unwrap()@ == Seq::new(30, |i: int| 0u8)
        &&& self.encoding == Some(0u8)
        &&& self.mystery5 is Some
        &&& self.mystery5.unwrap()@ == Seq::new(13, |i: int| 0u8)
        &&& self.file_type is Some
        &&& self.file_type.unwrap()@ == Seq::new(8, |i: int| ' ')
        &&& self.table_name is Some
        &&& self.table_name.unwrap()@ == Seq::new(32, |i: int| ' ')
        &&& self.mystery6 is Some
        &&& self.mystery6.unwrap()@ == Seq::new(32, |i: int| 0u8)
        &&& self.file_info is Some
        &&& self.file_info.unwrap()@ == Seq::new(8, |i: int| ' ')
    }

    /// The name of the first field that is not set, if there is one.
    pub open spec fn missing(self) -> Option<Seq<char>> {
        if self.magic is None {
            Some("magic"@)
        } else if self.a2 is None {
            Some("a2"@)
        } else if self.mystery1 is None {
            Some("mystery1"@)
        } else if self.a1 is None {
            Some("a1"@)
        } else if self.mystery2 is None {
            Some("mystery2"@)
        } else if self.endian is None {
            Some("endian"@)
        } else if self.mystery3 is None {
            Some("mystery3"@)
        } else if self.file_format is None {
            Some("file_format"@)
        } else if self.mystery4 is None {
            Some("mystery4"@)
        } else if self.encoding is None {
            Some("encoding"@)
        } else if self.mystery5 is None {
            Some("mystery5"@)
        } else if self.file_type is None {
            Some("file_type"@)
        } else if self.table_name is None {
            Some("table_name"@)
        } else if self.mystery6 is None {
            Some("mystery6"@)
        } else if self.file_info is None {
            Some("file_info"@)
        } else {
            None
        }
    }

    /// A builder with every field set to its starting value.
    pub fn default() -> (r: Self)
        ensures
            r.is_initial(),
    {
        let magic: [u8; 32] = [0u8; 32];
        assert(magic@ =~= Seq::new(32, |i: int| 0u8));
        let mystery1: [u8; 2] = [0u8; 2];
        assert(mystery1@ =~= Seq::new(2, |i: int| 0u8));
        let mystery2: [u8; 1] = [0u8; 1];
        assert(mystery2@ =~= Seq::new(1, |i: int| 0u8));
        let mystery3: [u8; 1] = [0u8; 1];
        assert(mystery3@ =~= Seq::new(1, |i: int| 0u8));
        let mystery4: [u8; 30] = [0u8; 30];
        assert(mystery4@ =~= Seq::new(30, |i: int| 0u8));
        let mystery5: [u8; 13] = [0u8; 13];
        assert(mystery5@ =~= Seq::new(13, |i: int| 0u8));
        let file_type: [char; 8] = [' '; 8];
        assert(file_type@ =~= Seq::new(8, |i: int| ' '));
        let table_name: [char; 32] = [' '; 32];
        assert(table_name@ =~= Seq::new(32, |i: int| ' '));
        let mystery6: [u8; 32] = [0u8; 32];
        assert(mystery6@ =~= Seq::new(32, |i: int| 0u8));
        let file_info: [char; 8] = [' '; 8];
        assert(file_info@ =~= Seq::new(8, |i: int| ' '));
        Self {
            magic: Some(magic),
            a2: Some(0u8),
            mystery1: Some(mystery1),
            a1: Some(0u8),
            mystery2: Some(mystery2),
            endian: Some(0u8),
            mystery3: Some(mystery3),
            file_format: Some(' '),
            mystery4: Some(mystery4),
            encoding: Some(0u8),
            mystery5: Some(mystery5),
            file_type: Some(file_type),
            table_name: Some(table_name),
            mystery6: Some(mystery6),
            file_info: Some(file_info),
        }
    }

    /// Sets `magic`.
    pub fn magic(self, value: [u8; 32]) -> (r: Self)
        ensures
            r == (SasHeaderStartBuilder { magic: Some(value), ..self }),
    {
        let mut builder = self;
        builder.magic = Some(value);
        builder
    }

    /// Sets `a2`.
    pub fn a2(self, value: u8) -> (r: Self)
        ensures
            r == (SasHeaderStartBuilder { a2: Some(value), ..self }),
    {
        let mut builder = self;
        builder.a2 = Some(value);
        builder
    }

    /// Sets `mystery1`.
    pub fn mystery1(self, value: [u8; 2]) -> (r: Self)
        ensures
            r == (SasHeaderStartBuilder { mystery1: Some(value), ..self }),
    {
        let mut builder = self;
        builder.mystery1 = Some(value);
        builder
    }

    /// Sets `a1`.
    pub fn a1(self, value: u8) -> (r: Self)
        ensures
            r == (SasHeaderStartBuilder { a1: Some(value), ..self }),
    {
        let mut builder = self;
        builder.a1 = Some(value);
        builder
    }

    /// Sets `mystery2`.
    pub fn mystery2(self, value: [u8; 1]) -> (r: Self)
        ensures
            r == (SasHeaderStartBuilder { mystery2: Some(value), ..self }),
    {
        let mut builder = self;
        builder.mystery2 = Some(value);
        builder
    }

    /// Sets `endian`.
    pub fn endian(self, value: u8) -> (r: Self)
        ensures
            r == (SasHeaderStartBuilder { endian: Some(value), ..self }),
    {
        let mut builder = self;
        builder.endian = Some(value);
        builder
    }

    /// Sets `mystery3`.
    pub fn mystery3(self, value: [u8; 1]) -> (r: Self)
        ensures
            r == (SasHeaderStartBuilder { mystery3: Some(value), ..self }),
    {
        let mut builder = self;
        builder.mystery3 = Some(value);
        builder
    }

    /// Sets `file_format`.
    pub fn file_format(self, value: char) -> (r: Self)
        ensures
            r == (SasHeaderStartBuilder { file_format: Some(value), ..self }),
    {
        let mut builder = self;
        builder.file_format = Some(value);
        builder
    }

    /// Sets `mystery4`.
    pub fn mystery4(self, value: [u8; 30]) -> (r: Self)
        ensures
            r == (SasHeaderStartBuilder { mystery4: Some(value), ..self }),
    {
        let mut builder = self;
        builder.mystery4 = Some(value);
        builder
    }

    /// Sets `encoding`.
    pub fn encoding(self, value: u8) -> (r: Self)
        ensures
            r == (SasHeaderStartBuilder { encoding: Some(value), ..self }),
    {
        let mut builder = self;
        builder.encoding = Some(value);
        builder
    }

    /// Sets `mystery5`.
    pub fn mystery5(self, value: [u8; 13]) -> (r: Self)
        ensures
            r == (SasHeaderStartBuilder { mystery5: Some(value), ..self }),
    {
        let mut builder = self;
        builder.mystery5 = Some(value);
        builder
    }

    /// Sets `file_type`.
    pub fn file_type(self, value: [char; 8]) -> (r: Self)
        ensures
            r == (SasHeaderStartBuilder { file_type: Some(value), ..self }),
    {
        let mut builder = self;
        builder.file_type = Some(value);
        builder
    }

    /// Sets `table_name`.
    pub fn table_name(self, value: [char; 32]) -> (r: Self)
        ensures
            r == (SasHeaderStartBuilder { table_name: Some(value), ..self }),
    {
        let mut builder = self;
        builder.table_name = Some(value);
        builder
    }

    /// Sets `mystery6`.
    pub fn mystery6(self, value: [u8; 32]) -> (r: Self)
        ensures
            r == (SasHeaderStartBuilder { mystery6: Some(value), ..self }),
    {
        let mut builder = self;
        builder.mystery6 = Some(value);
        builder
    }

    /// Sets `file_info`.
    pub fn file_info(self, value: [char; 8]) -> (r: Self)
        ensures
            r == (SasHeaderStartBuilder { file_info: Some(value), ..self }),
    {
        let mut builder = self;
        builder.file_info = Some(value);
        builder
    }

    /// Builds the first part of a header from the fields, or names the first field that is not set.
    pub fn build(self) -> (r: Result<SasHeaderStart, BuilderError>)
        ensures
            match self.missing() {
                None => r == Ok::<SasHeaderStart, BuilderError>(
                    SasHeaderStart {
                        magic: self.magic.unwrap(),
                        a2: self.a2.unwrap(),
                        mystery1: self.mystery1.unwrap(),
                        a1: self.a1.unwrap(),
                        mystery2: self.mystery2.unwrap(),
                        endian: self.endian.unwrap(),
                        mystery3: self.mystery3.unwrap(),
                        file_format: self.file_format.unwrap(),
                        mystery4: self.mystery4.unwrap(),
                        encoding: self.encoding.unwrap(),
                        mystery5: self.mystery5.unwrap(),
                        file_type: self.file_type.unwrap(),
                        table_name: self.table_name.unwrap(),
                        mystery6: self.mystery6.unwrap(),
                        file_info: self.file_info.unwrap(),
                    },
                ),
                Some(name) => r is Err && r.unwrap_err().field_name() == name,
            },
    {
        let magic = match self.magic {
            Some(value) => value,
            None => return Err(BuilderError::UninitializedField("magic")),
        };
        let a2 = match self.a2 {
            Some(value) => value,
            None => return Err(BuilderError::UninitializedField("a2")),
        };
        let mystery1 = match self.mystery1 {
            Some(value) => value,
            None => return Err(BuilderError::UninitializedField("mystery1")),
        };
        let a1 = match self.a1 {
            Some(value) => value,
            None => return Err(BuilderError::UninitializedField("a1")),
        };
        let mystery2 = match self.mystery2 {
            Some(value) => value,
            None => return Err(BuilderError::UninitializedField("mystery2")),
        };
        let endian = match self.endian {
            Some(value) => value,
            None => return Err(BuilderError::UninitializedField("endian")),
        };
        let mystery3 = match self.mystery3 {
            Some(value) => value,
            None => return Err(BuilderError::UninitializedField("mystery3")),
        };
        let file_format = match self.file_format {
            Some(value) => value,
            None => return Err(BuilderError::UninitializedField("file_format")),
        };
        let mystery4 = match self.mystery4 {
            Some(value) => value,
            None => return Err(BuilderError::UninitializedField("mystery4")),
        };
        let encoding = match self.encoding {
            Some(value) => value,
            None => return Err(BuilderError::UninitializedField("encoding")),
        };
        let mystery5 = match self.mystery5 {
            Some(value) => value,
            None => return Err(BuilderError::UninitializedField("mystery5")),
        };
        let file_type = match self.file_type {
            Some(value) => value,
            None => return Err(BuilderError::UninitializedField("file_type")),
        };
        let table_name = match self.table_name {
            Some(value) => value,
            None => return Err(BuilderError::UninitializedField("table_name")),
        };
        let mystery6 = match self.mystery6 {
            Some(value) => value,
            None => return Err(BuilderError::UninitializedField("mystery6")),
        };
        let file_info = match self.file_info {
            Some(value) => value,
            None => return Err(BuilderError::UninitializedField("file_info")),
        };
        Ok(SasHeaderStart {
            magic,
            a2,
            mystery1,
            a1,
            mystery2,
            endian,
            mystery3,
            file_format,
            mystery4,
            encoding,
            mystery5,
            file_type,
            table_name,
            mystery6,
            file_info,
        })
    }
}

/// The last part of a file header.
#[derive(Debug, Clone, PartialEq)]
pub struct SasHeaderEnd {
    pub release: [char; 8],
    pub host: [char; 16],
    pub version: [char; 16],
    pub os_vendor: [char; 16],
    pub os_name: [char; 16],
    pub extra: [char; 48],
}

impl SasHeaderEnd {
    /// Whether every field is as a builder starts with it: zero bytes and
    /// blanks.
    pub open spec fn is_blank(header: Self) -> bool {
        &&& header.release@ == Seq::new(8, |i: int| ' ')
        &&& header.host@ == Seq::new(16, |i: int| ' ')
        &&& header.version@ == Seq::new(16, |i: int| ' ')
        &&& header.os_vendor@ == Seq::new(16, |i: int| ' ')
        &&& header.os_name@ == Seq::new(16, |i: int| ' ')
        &&& header.extra@ == Seq::new(48, |i: int| ' ')
    }

    /// Makes a value of the given fields.
    pub fn new(
        release: [char; 8],
        host: [char; 16],
        version: [char; 16],
        os_vendor: [char; 16],
        os_name: [char; 16],
        extra: [char; 48],
    ) -> (r: Self)
        ensures
            r == (SasHeaderEnd { release, host, version, os_vendor, os_name, extra }),
    {
        Self { release, host, version, os_vendor, os_name, extra }
    }

    /// A builder as its `default` makes it.
    pub fn builder() -> (r: SasHeaderEndBuilder)
        ensures
            r.is_initial(),
    {
        SasHeaderEndBuilder::default()
    }
}

/// Collects the fields of the last part of a header, one by one.
#[derive(Debug, Clone)]
pub struct SasHeaderEndBuilder {
    pub release: Option<[char; 8]>,
    pub host: Option<[char; 16]>,
    pub version: Option<[char; 16]>,
    pub os_vendor: Option<[char; 16]>,
    pub os_name: Option<[char; 16]>,
    pub extra: Option<[char; 48]>,
}

impl SasHeaderEndBuilder {
    /// Whether the builder is as `default` makes it: every field set to its
    /// starting value.
    pub open spec fn is_initial(self) -> bool {
        &&& self.release is Some
        &&& self.release.unwrap()@ == Seq::new(8, |i: int| ' ')
        &&& self.host is Some
        &&& self.host.unwrap()@ == Seq::new(16, |i: int| ' ')
        &&& self.version is Some
        &&& self.version.unwrap()@ == Seq::new(16, |i: int| ' ')
        &&& self.os_vendor is Some
        &&& self.os_vendor.unwrap()@ == Seq::new(16, |i: int| ' ')
        &&& self.os_name is Some
        &&& self.os_name.unwrap()@ == Seq::new(16, |i: int| ' ')
        &&& self.extra is Some
        &&& self.extra.unwrap()@ == Seq::new(48, |i: int| ' ')
    }

    /// The name of the first field that is not set, if there is one.
    pub open spec fn missing(self) -> Option<Seq<char>> {
        if self.release is None {
            Some("release"@)
        } else if self.host is None {
            Some("host"@)
        } else if self.version is None {
            Some("version"@)
        } else if self.os_vendor is None {
            Some("os_vendor"@)
        } else if self.os_name is None {
            Some("os_name"@)
        } else if self.extra is None {
            Some("extra"@)
        } else {
            None
        }
    }

    /// A builder with every field set to its starting value.
    pub fn default() -> (r: Self)
        ensures
            r.is_initial(),
    {
        let release: [char; 8] = [' '; 8];
        assert(release@ =~= Seq::new(8, |i: int| ' '));
        let host: [char; 16] = [' '; 16];
        assert(host@ =~= Seq::new(16, |i: int| ' '));
        let version: [char; 16] = [' '; 16];
        assert(version@ =~= Seq::new(16, |i: int| ' '));
        let os_vendor: [char; 16] = [' '; 16];
        assert(os_vendor@ =~= Seq::new(16, |i: int| ' '));
        let os_name: [char; 16] = [' '; 16];
        assert(os_name@ =~= Seq::new(16, |i: int| ' '));
        let extra: [char; 48] = [' '; 48];
        assert(extra@ =~= Seq::new(48, |i: int| ' '));
        Self {
            release: Some(release),
            host: Some(host),
            version: Some(version),
            os_vendor: Some(os_vendor),
            os_name: Some(os_name),
            extra: Some(extra),
        }
    }

    /// Sets `release`.
    pub fn release(self, value: [char; 8]) -> (r: Self)
        ensures
            r == (SasHeaderEndBuilder { release: Some(value), ..self }),
    {
        let mut builder = self;
        builder.release = Some(value);
        builder
    }

    /// Sets `host`.
    pub fn host(self, value: [char; 16]) -> (r: Self)
        ensures
            r == (SasHeaderEndBuilder { host: Some(value), ..self }),
    {
        let mut builder = self;
        builder.host = Some(value);
        builder
    }

    /// Sets `version`.
    pub fn version(self, value: [char; 16]) -> (r: Self)
        ensures
            r == (SasHeaderEndBuilder { version: Some(value), ..self }),
    {
        let mut builder = self;
        builder.version = Some(value);
        builder
    }

    /// Sets `os_vendor`.
    pub fn os_vendor(self, value: [char; 16]) -> (r: Self)
        ensures
            r == (SasHeaderEndBuilder { os_vendor: Some(value), ..self }),
    {
        let mut builder = self;
        builder.os_vendor = Some(value);
        builder
    }

    /// Sets `os_name`.
    pub fn os_name(self, value: [char; 16]) -> (r: Self)
        ensures
            r == (SasHeaderEndBuilder { os_name: Some(value), ..self }),
    {
        let mut builder = self;
        builder.os_name = Some(value);
        builder
    }

    /// Sets `extra`.
    pub fn extra(self, value: [char; 48]) -> (r: Self)
        ensures
            r == (SasHeaderEndBuilder { extra: Some(value), ..self }),
    {
        let mut builder = self;
        builder.extra = Some(value);
        builder
    }

    /// Builds the last part of a header from the fields, or names the first field that is not set.
    pub fn build(self) -> (r: Result<SasHeaderEnd, BuilderError>)
        ensures
            match self.missing() {
                None => r == Ok::<SasHeaderEnd, BuilderError>(
                    SasHeaderEnd {
                        release: self.release.unwrap(),
                        host: self.host.unwrap(),
                        version: self.version.unwrap(),
                        os_vendor: self.os_vendor.unwrap(),
                        os_name: self.os_name.unwrap(),
                        extra: self.extra.unwrap(),
                    },
                ),
                Some(name) => r is Err && r.unwrap_err().field_name() == name,
            },
    {
        let release = match self.release {
            Some(value) => value,
            None => return Err(BuilderError::UninitializedField("release")),
        };
        let host = match self.host {
            Some(value) => value,
            None => return Err(BuilderError::UninitializedField("host")),
        };
        let version = match self.version {
            Some(value) => value,
            None => return Err(BuilderError::UninitializedField("version")),
        };
        let os_vendor = match self.os_vendor {
            Some(value) => value,
            None => return Err(BuilderError::UninitializedField("os_vendor")),
        };
        let os_name = match self.os_name {
            Some(value) => value,
            None => return Err(BuilderError::UninitializedField("os_name")),
        };
        let extra = match self.extra {
            Some(value) => value,
            None => return Err(BuilderError::UninitializedField("extra")),
        };
        Ok(SasHeaderEnd { release, host, version, os_vendor, os_name, extra })
    }
}

/// A file header.
#[derive(Debug, Clone, PartialEq)]
pub struct SasHeader {
    pub start: SasHeaderStart,
    pub end: SasHeaderEnd,
}

impl SasHeader {
    /// Makes a value of the given fields.
    pub fn new(start: SasHeaderStart, end: SasHeaderEnd) -> (r: Self)
        ensures
            r == (SasHeader { start, end }),
    {
        Self { start, end }
    }

    /// A builder as its `default` makes it.
    pub fn builder() -> (r: SasHeaderBuilder)
        ensures
            r.is_initial(),
    {
        SasHeaderBuilder::default()
    }
}

/// Collects the fields of a header, one by one.
#[derive(Debug, Clone)]
pub struct SasHeaderBuilder {
    pub start: Option<SasHeaderStart>,
    pub end: Option<SasHeaderEnd>,
}

impl SasHeaderBuilder {
    /// Whether the builder is as `default` makes it: every field set to its
    /// starting value.
    pub open spec fn is_initial(self) -> bool {
        &&& self.start is Some
        &&& SasHeaderStart::is_blank(self.start.unwrap())
        &&& self.end is Some
        &&& SasHeaderEnd::is_blank(self.end.unwrap())
    }

    /// The name of the first field that is not set, if there is one.
    pub open spec fn missing(self) -> Option<Seq<char>> {
        if self.start is None {
            Some("start"@)
        } else if self.end is None {
            Some("end"@)
        } else {
            None
        }
    }

    /// A builder with every field set to its starting value.
    pub fn default() -> (r: Self)
        ensures
            r.is_initial(),
    {
        Self {
            start: Some(SasHeaderStart::builder().build().unwrap()),
            end: Some(SasHeaderEnd::builder().build().unwrap()),
        }
    }

    /// Sets `start`.
    pub fn start(self, value: SasHeaderStart) -> (r: Self)
        ensures
            r == (SasHeaderBuilder { start: Some(value), ..self }),
    {
        let mut builder = self;
        builder.start = Some(value);
        builder
    }

    /// Sets `end`.
    pub fn end(self, value: SasHeaderEnd) -> (r: Self)
        ensures
            r == (SasHeaderBuilder { end: Some(value), ..self }),
    {
        let mut builder = self;
        builder.end = Some(value);
        builder
    }

    /// Builds a header from the fields, or names the first field that is not set.
    pub fn build(self) -> (r: Result<SasHeader, BuilderError>)
        ensures
            match self.missing() {
                None => r == Ok::<SasHeader, BuilderError>(
                    SasHeader {
                        start: self.start.unwrap(),
                        end: self.end.unwrap(),
                    },
                ),
                Some(name) => r is Err && r.unwrap_err().field_name() == name,
            },
    {
        let start = match self.start {
            Some(value) => value,
            None => return Err(BuilderError::UninitializedField("start")),
        };
        let end = match self.end {
            Some(value) => value,
            None => return Err(BuilderError::UninitializedField("end")),
        };
        Ok(SasHeader { start, end })
    }
}

} // verus!

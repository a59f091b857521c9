//! The signatures of the subheaders.

use crate::types::builder::BuilderError;
use vstd::prelude::*;

verus! {

/// The signatures by which the kinds of subheader are told apart.
#[derive(Debug, Clone, PartialEq)]
pub struct SasSubheaderSignature {
    pub row_size: u32,
    pub column_size: u32,
    pub counts: u32,
    pub column_format: u32,
    pub column_mask: u32,
    pub column_attrs: u32,
    pub column_text: u32,
    pub column_list: u32,
    pub column_name: u32,
}

impl SasSubheaderSignature {
    /// Makes a value of the given fields.
    pub fn new(
        row_size: u32,
        column_size: u32,
        counts: u32,
        column_format: u32,
        column_mask: u32,
        column_attrs: u32,
        column_text: u32,
        column_list: u32,
        column_name: u32,
    ) -> (r: Self)
        ensures
            r == (SasSubheaderSignature {
                row_size,
                column_size,
                counts,
                column_format,
                column_mask,
                column_attrs,
                column_text,
                column_list,
                column_name,
            }),
    {
        Self {
            row_size,
            column_size,
            counts,
            column_format,
            column_mask,
            column_attrs,
            column_text,
            column_list,
            column_name,
        }
    }

    /// The signatures as the format defines them.
    pub fn default() -> (r: Self)
        ensures
            r == (SasSubheaderSignature {
                row_size: 0xF7F7F7F7,
                column_size: 0xF6F6F6F6,
                counts: 0xFFFFFC00,
                column_format: 0xFFFFFBFE,
                column_mask: 0xFFFFFFF8,
                column_attrs: 0xFFFFFFFC,
                column_text: 0xFFFFFFFD,
                column_list: 0xFFFFFFFE,
                column_name: 0xFFFFFFFF,
            }),
    {
        Self {
            row_size: 0xF7F7F7F7,
            column_size: 0xF6F6F6F6,
            counts: 0xFFFFFC00,
            column_format: 0xFFFFFBFE,
            column_mask: 0xFFFFFFF8,
            column_attrs: 0xFFFFFFFC,
            column_text: 0xFFFFFFFD,
            column_list: 0xFFFFFFFE,
            column_name: 0xFFFFFFFF,
        }
    }
}

/// Collects the fields of a set of subheader signatures, one by one.
#[derive(Debug, Clone)]
pub struct SasSubheaderSignatureBuilder {
    pub row_size: Option<u32>,
    pub column_size: Option<u32>,
    pub counts: Option<u32>,
    pub column_format: Option<u32>,
    pub column_mask: Option<u32>,
    pub column_attrs: Option<u32>,
    pub column_text: Option<u32>,
    pub column_list: Option<u32>,
    pub column_name: Option<u32>,
}

impl Default for SasSubheaderSignatureBuilder {
    /// A builder with no field set.
    fn default() -> (r: Self)
        ensures
            r.is_initial(),
    {
        Self {
            row_size: None,
            column_size: None,
            counts: None,
            column_format: None,
            column_mask: None,
            column_attrs: None,
            column_text: None,
            column_list: None,
            column_name: None,
        }
    }
}

impl SasSubheaderSignatureBuilder {
    /// Whether the builder is as `default` makes it: no field set.
    pub open spec fn is_initial(self) -> bool {
        &&& self.row_size is None
        &&& self.column_size is None
        &&& self.counts is None
        &&& self.column_format is None
        &&& self.column_mask is None
        &&& self.column_attrs is None
        &&& self.column_text is None
        &&& self.column_list is None
        &&& self.column_name is None
    }

    /// The name of the first field that is not set, if there is one.
    pub open spec fn missing(self) -> Option<Seq<char>> {
        if self.row_size is None {
            Some("row_size"@)
        } else if self.column_size is None {
            Some("column_size"@)
        } else if self.counts is None {
            Some("counts"@)
        } else if self.column_format is None {
            Some("column_format"@)
        } else if self.column_mask is None {
            Some("column_mask"@)
        } else if self.column_attrs is None {
            Some("column_attrs"@)
        } else if self.column_text is None {
            Some("column_text"@)
        } else if self.column_list is None {
            Some("column_list"@)
        } else if self.column_name is None {
            Some("column_name"@)
        } else {
            None
        }
    }

    /// Sets `row_size`.
    pub fn row_size(self, value: u32) -> (r: Self)
        ensures
            r == (SasSubheaderSignatureBuilder { row_size: Some(value), ..self }),
    {
        let mut builder = self;
        builder.row_size = Some(value);
        builder
    }

    /// Sets `column_size`.
    pub fn column_size(self, value: u32) -> (r: Self)
        ensures
            r == (SasSubheaderSignatureBuilder { column_size: Some(value), ..self }),
    {
        let mut builder = self;
        builder.column_size = Some(value);
        builder
    }

    /// Sets `counts`.
    pub fn counts(self, value: u32) -> (r: Self)
        ensures
            r == (SasSubheaderSignatureBuilder { counts: Some(value), ..self }),
    {
        let mut builder = self;
        builder.counts = Some(value);
        builder
    }

    /// Sets `column_format`.
    pub fn column_format(self, value: u32) -> (r: Self)
        ensures
            r == (SasSubheaderSignatureBuilder { column_format: Some(value), ..self }),
    {
        let mut builder = self;
        builder.column_format = Some(value);
        builder
    }

    /// Sets `column_mask`.
    pub fn column_mask(self, value: u32) -> (r: Self)
        ensures
            r == (SasSubheaderSignatureBuilder { column_mask: Some(value), ..self }),
    {
        let mut builder = self;
        builder.column_mask = Some(value);
        builder
    }

    /// Sets `column_attrs`.
    pub fn column_attrs(self, value: u32) -> (r: Self)
        ensures
            r == (SasSubheaderSignatureBuilder { column_attrs: Some(value), ..self }),
    {
        let mut builder = self;
        builder.column_attrs = Some(value);
        builder
    }

    /// Sets `column_text`.
    pub fn column_text(self, value: u32) -> (r: Self)
        ensures
            r == (SasSubheaderSignatureBuilder { column_text: Some(value), ..self }),
    {
        let mut builder = self;
        builder.column_text = Some(value);
        builder
    }

    /// Sets `column_list`.
    pub fn column_list(self, value: u32) -> (r: Self)
        ensures
            r == (SasSubheaderSignatureBuilder { column_list: Some(value), ..self }),
    {
        let mut builder = self;
        builder.column_list = Some(value);
        builder
    }

    /// Sets `column_name`.
    pub fn column_name(self, value: u32) -> (r: Self)
        ensures
            r == (SasSubheaderSignatureBuilder { column_name: Some(value), ..self }),
    {
        let mut builder = self;
        builder.column_name = Some(value);
        builder
    }

    /// Builds a set of subheader signatures from the fields, or names the first field that is not set.
    pub fn build(self) -> (r: Result<SasSubheaderSignature, BuilderError>)
        ensures
            match self.missing() {
                None => r == Ok::<SasSubheaderSignature, BuilderError>(
                    SasSubheaderSignature {
                        row_size: self.row_size.unwrap(),
                        column_size: self.column_size.unwrap(),
                        counts: self.counts.unwrap(),
                        column_format: self.column_format.unwrap(),
                        column_mask: self.column_mask.unwrap(),
                        column_attrs: self.column_attrs.unwrap(),
                        column_text: self.column_text.unwrap(),
                        column_list: self.column_list.unwrap(),
                        column_name: self.column_name.unwrap(),
                    },
                ),
                Some(name) => r is Err && r.unwrap_err().field_name() == name,
            },
    {
        let row_size = match self.row_size {
            Some(value) => value,
            None => return Err(BuilderError::UninitializedField("row_size")),
        };
        let column_size = match self.column_size {
            Some(value) => value,
            None => return Err(BuilderError::UninitializedField("column_size")),
        };
        let counts = match self.counts {
            Some(value) => value,
            None => return Err(BuilderError::UninitializedField("counts")),
        };
        let column_format = match self.column_format {
            Some(value) => value,
            None => return Err(BuilderError::UninitializedField("column_format")),
        };
        let column_mask = match self.column_mask {
            Some(value) => value,
            None => return Err(BuilderError::UninitializedField("column_mask")),
        };
        let column_attrs = match self.column_attrs {
            Some(value) => value,
            None => return Err(BuilderError::UninitializedField("column_attrs")),
        };
        let column_text = match self.column_text {
            Some(value) => value,
            None => return Err(BuilderError::UninitializedField("column_text")),
        };
        let column_list = match self.column_list {
            Some(value) => value,
            None => return Err(BuilderError::UninitializedField("column_list")),
        };
        let column_name = match self.column_name {
            Some(value) => value,
            None => return Err(BuilderError::UninitializedField("column_name")),
        };
        Ok(SasSubheaderSignature {
            row_size,
            column_size,
            counts,
            column_format,
            column_mask,
            column_attrs,
            column_text,
            column_list,
            column_name,
        })
    }
}

} // verus!

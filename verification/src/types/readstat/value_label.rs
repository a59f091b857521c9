//! The label of a value.

use crate::types::builder::BuilderError;
use vstd::prelude::*;

verus! {

/// The label of a value. The floating-point key is held as its IEEE 754 bit
/// pattern.
#[derive(Debug, Clone, PartialEq)]
pub struct ReadStatValueLabel {
    pub label: String,
    pub label_length: u32,
    pub double_key: u64,
    pub int32_key: i32,
    pub string_key: String,
    pub string_key_length: u32,
    pub tags: Vec<String>,
}

impl ReadStatValueLabel {
    /// Whether a label is empty: no text, no tags, and zero for every number.
    pub open spec fn is_empty(self) -> bool {
        &&& self.label@ == Seq::<char>::empty()
        &&& self.label_length == 0
        &&& self.double_key == 0
        &&& self.int32_key == 0
        &&& self.string_key@ == Seq::<char>::empty()
        &&& self.string_key_length == 0
        &&& self.tags@ == Seq::<String>::empty()
    }

    /// Makes a value of the given fields.
    pub fn new(
        label: String,
        label_length: u32,
        double_key: u64,
        int32_key: i32,
        string_key: String,
        string_key_length: u32,
        tags: Vec<String>,
    ) -> (r: Self)
        ensures
            r == (ReadStatValueLabel {
                label,
                label_length,
                double_key,
                int32_key,
                string_key,
                string_key_length,
                tags,
            }),
    {
        Self { label, label_length, double_key, int32_key, string_key, string_key_length, tags }
    }

    /// A builder as its `default` makes it.
    pub fn builder() -> (r: ReadStatValueLabelBuilder)
        ensures
            r.is_initial(),
    {
        ReadStatValueLabelBuilder::default()
    }
}

/// Collects the fields of a value label, one by one.
#[derive(Debug, Clone)]
pub struct ReadStatValueLabelBuilder {
    pub label: Option<String>,
    pub label_length: Option<u32>,
    pub double_key: Option<u64>,
    pub int32_key: Option<i32>,
    pub string_key: Option<String>,
    pub string_key_length: Option<u32>,
    pub tags: Option<Vec<String>>,
}

impl ReadStatValueLabelBuilder {
    /// Whether the builder is as `default` makes it: every field set to its
    /// starting value.
    pub open spec fn is_initial(self) -> bool {
        &&& self.label is Some
        &&& self.label.unwrap()@ == Seq::<char>::empty()
        &&& self.label_length == Some(0u32)
        &&& self.double_key == Some(0u64)
        &&& self.int32_key == Some(0i32)
        &&& self.string_key is Some
        &&& self.string_key.unwrap()@ == Seq::<char>::empty()
        &&& self.string_key_length == Some(0u32)
        &&& self.tags is Some
        &&& self.tags.unwrap()@ == Seq::<String>::empty()
    }

    /// The name of the first field that is not set, if there is one.
    pub open spec fn missing(self) -> Option<Seq<char>> {
        if self.label is None {
            Some("label"@)
        } else if self.label_length is None {
            Some("label_length"@)
        } else if self.double_key is None {
            Some("double_key"@)
        } else if self.int32_key is None {
            Some("int32_key"@)
        } else if self.string_key is None {
            Some("string_key"@)
        } else if self.string_key_length is None {
            Some("string_key_length"@)
        } else if self.tags is None {
            Some("tags"@)
        } else {
            None
        }
    }

    /// A builder with every field set to its starting value.
    pub fn default() -> (r: Self)
        ensures
            r.is_initial(),
    {
        Self {
            label: Some(String::new()),
            label_length: Some(0u32),
            double_key: Some(0u64),
            int32_key: Some(0i32),
            string_key: Some(String::new()),
            string_key_length: Some(0u32),
            tags: Some(Vec::new()),
        }
    }

    /// Sets `label`.
    pub fn label(self, value: String) -> (r: Self)
        ensures
            r == (ReadStatValueLabelBuilder { label: Some(value), ..self }),
    {
        let mut builder = self;
        builder.label = Some(value);
        builder
    }

    /// Sets `label_length`.
    pub fn label_length(self, value: u32) -> (r: Self)
        ensures
            r == (ReadStatValueLabelBuilder { label_length: Some(value), ..self }),
    {
        let mut builder = self;
        builder.label_length = Some(value);
        builder
    }

    /// Sets `double_key`.
    pub fn double_key(self, value: u64) -> (r: Self)
        ensures
            r == (ReadStatValueLabelBuilder { double_key: Some(value), ..self }),
    {
        let mut builder = self;
        builder.double_key = Some(value);
        builder
    }

    /// Sets `int32_key`.
    pub fn int32_key(self, value: i32) -> (r: Self)
        ensures
            r == (ReadStatValueLabelBuilder { int32_key: Some(value), ..self }),
    {
        let mut builder = self;
        builder.int32_key = Some(value);
        builder
    }

    /// Sets `string_key`.
    pub fn string_key(self, value: String) -> (r: Self)
        ensures
            r == (ReadStatValueLabelBuilder { string_key: Some(value), ..self }),
    {
        let mut builder = self;
        builder.string_key = Some(value);
        builder
    }

    /// Sets `string_key_length`.
    pub fn string_key_length(self, value: u32) -> (r: Self)
        ensures
            r == (ReadStatValueLabelBuilder { string_key_length: Some(value), ..self }),
    {
        let mut builder = self;
        builder.string_key_length = Some(value);
        builder
    }

    /// Sets `tags`.
    pub fn tags(self, value: Vec<String>) -> (r: Self)
        ensures
            r == (ReadStatValueLabelBuilder { tags: Some(value), ..self }),
    {
        let mut builder = self;
        builder.tags = Some(value);
        builder
    }

    /// Builds a value label from the fields, or names the first field that is not set.
    pub fn build(self) -> (r: Result<ReadStatValueLabel, BuilderError>)
        ensures
            match self.missing() {
                None => r == Ok::<ReadStatValueLabel, BuilderError>(
                    ReadStatValueLabel {
                        label: self.label.unwrap(),
                        label_length: self.label_length.unwrap(),
                        double_key: self.double_key.unwrap(),
                        int32_key: self.int32_key.unwrap(),
                        string_key: self.string_key.unwrap(),
                        string_key_length: self.string_key_length.unwrap(),
                        tags: self.tags.unwrap(),
                    },
                ),
                Some(name) => r is Err && r.unwrap_err().field_name() == name,
            },
    {
        let label = match self.label {
            Some(value) => value,
            None => return Err(BuilderError::UninitializedField("label")),
        };
        let label_length = match self.label_length {
            Some(value) => value,
            None => return Err(BuilderError::UninitializedField("label_length")),
        };
        let double_key = match self.double_key {
            Some(value) => value,
            None => return Err(BuilderError::UninitializedField("double_key")),
        };
        let int32_key = match self.int32_key {
            Some(value) => value,
            None => return Err(BuilderError::UninitializedField("int32_key")),
        };
        let string_key = match self.string_key {
            Some(value) => value,
            None => return Err(BuilderError::UninitializedField("string_key")),
        };
        let string_key_length = match self.string_key_length {
            Some(value) => value,
            None => return Err(BuilderError::UninitializedField("string_key_length")),
        };
        let tags = match self.tags {
            Some(value) => value,
            None => return Err(BuilderError::UninitializedField("tags")),
        };
        Ok(ReadStatValueLabel {
            label,
            label_length,
            double_key,
            int32_key,
            string_key,
            string_key_length,
            tags,
        })
    }
}

} // verus!

//! The policy by which multi-byte numeric fields are interpreted.

use vstd::prelude::*;

verus! {

/// `str == str` of std: two string slices are equal where they hold the
/// same characters.
pub assume_specification[ <str as PartialEq>::eq ](a: &str, b: &str) -> (r: bool)
    ensures
        r == (a@ == b@),
;

/// How the numeric fields of a file are to be interpreted.
#[derive(Debug, Clone, Copy, PartialEq, Eq, Structural)]
pub enum ConversionType {
    Native,
    Xport,
    IeeeBigEndian,
    IeeeLittleEndian,
}

impl Default for ConversionType {
    fn default() -> (r: Self)
        ensures
            r == ConversionType::Native,
    {
        ConversionType::Native
    }
}

impl ConversionType {
    /// The integer code of a mode.
    pub open spec fn code(self) -> int {
        match self {
            ConversionType::Native => 0,
            ConversionType::Xport => 1,
            ConversionType::IeeeBigEndian => 2,
            ConversionType::IeeeLittleEndian => 3,
        }
    }

    /// The mode that an integer code stands for, if any.
    pub open spec fn of_code(code: int) -> Option<ConversionType> {
        if code == 0 {
            Some(ConversionType::Native)
        } else if code == 1 {
            Some(ConversionType::Xport)
        } else if code == 2 {
            Some(ConversionType::IeeeBigEndian)
        } else if code == 3 {
            Some(ConversionType::IeeeLittleEndian)
        } else {
            None
        }
    }

    /// The label of a mode.
    pub open spec fn label(self) -> Seq<char> {
        match self {
            ConversionType::Native => "native"@,
            ConversionType::Xport => "xport"@,
            ConversionType::IeeeBigEndian => "ieee-big-endian"@,
            ConversionType::IeeeLittleEndian => "ieee-little-endian"@,
        }
    }

    /// The mode that a label stands for, if any.
    pub open spec fn of_label(label: Seq<char>) -> Option<ConversionType> {
        if label == "native"@ {
            Some(ConversionType::Native)
        } else if label == "xport"@ {
            Some(ConversionType::Xport)
        } else if label == "ieee-big-endian"@ {
            Some(ConversionType::IeeeBigEndian)
        } else if label == "ieee-little-endian"@ {
            Some(ConversionType::IeeeLittleEndian)
        } else {
            None
        }
    }

    /// The mode that an integer code stands for, or `None` for a code that
    /// stands for none.
    pub fn from_i32(value: i32) -> (r: Option<Self>)
        ensures
            r == Self::of_code(value as int),
    {
        match value {
            0 => Some(ConversionType::Native),
            1 => Some(ConversionType::Xport),
            2 => Some(ConversionType::IeeeBigEndian),
            3 => Some(ConversionType::IeeeLittleEndian),
            _ => None,
        }
    }

    /// The integer code of the mode.
    pub fn to_i32(&self) -> (r: i32)
        ensures
            r == self.code(),
    {
        match self {
            ConversionType::Native => 0,
            ConversionType::Xport => 1,
            ConversionType::IeeeBigEndian => 2,
            ConversionType::IeeeLittleEndian => 3,
        }
    }

    /// The label of the mode.
    pub fn to_string(&self) -> (r: String)
        ensures
            r@ == self.label(),
    {
        match self {
            ConversionType::Native => "native".to_string(),
            ConversionType::Xport => "xport".to_string(),
            ConversionType::IeeeBigEndian => "ieee-big-endian".to_string(),
            ConversionType::IeeeLittleEndian => "ieee-little-endian".to_string(),
        }
    }

    /// The mode that a label stands for, or `None` for a text that is the
    /// label of none.
    pub fn from_str(value: &str) -> (r: Option<Self>)
        ensures
            r == Self::of_label(value@),
    {
        if value.eq("native") {
            Some(ConversionType::Native)
        } else if value.eq("xport") {
            Some(ConversionType::Xport)
        } else if value.eq("ieee-big-endian") {
            Some(ConversionType::IeeeBigEndian)
        } else if value.eq("ieee-little-endian") {
            Some(ConversionType::IeeeLittleEndian)
        } else {
            None
        }
    }
}

/// Every mode is found again from its integer code, and an integer that
/// stands for a mode is that mode's code.
pub proof fn lemma_code_round_trip(m: ConversionType)
    ensures
        ConversionType::of_code(m.code()) == Some(m),
        forall|c: int| ConversionType::of_code(c) == Some(m) ==> c == m.code(),
{
}

/// Every mode is found again from its label, and a text that stands for a
/// mode is that mode's label.
pub proof fn lemma_label_round_trip(m: ConversionType)
    ensures
        ConversionType::of_label(m.label()) == Some(m),
        forall|s: Seq<char>| ConversionType::of_label(s) == Some(m) ==> s == m.label(),
{
    reveal_strlit("native");
    reveal_strlit("xport");
    reveal_strlit("ieee-big-endian");
    reveal_strlit("ieee-little-endian");
    assert("native"@.len() == 6);
    assert("xport"@.len() == 5);
    assert("ieee-big-endian"@.len() == 15);
    assert("ieee-little-endian"@.len() == 18);
}

} // verus!

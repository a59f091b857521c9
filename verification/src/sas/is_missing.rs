//! Which tags mark a value as missing.

use crate::types::readstat::value::ReadStatValue;
use vstd::prelude::*;
use vstd::utf8::encode_utf8;

verus! {

/// The tag byte that a value carries: the first byte of its first tag. A
/// value without tags, or with an empty first tag, carries none.
pub open spec fn tag_byte(tags: Seq<String>) -> Option<u8> {
    if tags.len() == 0 || encode_utf8(tags[0]@).len() == 0 {
        None
    } else {
        Some(encode_utf8(tags[0]@)[0])
    }
}

/// Whether a tag byte marks a value as missing. The byte 0 stands for the
/// underscore, the bytes from 2 to 27 for the letters from `A` to `Z`, and
/// the period is the tag of the character scheme for a missing value.
pub open spec fn tag_marks_missing(tag: Option<u8>) -> bool {
    match tag {
        None => false,
        Some(t) => t == 0 || (2 <= t && t < 28) || t == 0x2e,
    }
}

/// Classifies a tag byte, or the absence of one.
pub fn classify_tag(tag: Option<u8>) -> (r: bool)
    ensures
        r == tag_marks_missing(tag),
{
    match tag {
        None => false,
        Some(t) => {
            if t == 0 {
                true
            } else if t >= 2 && t < 28 {
                true
            } else if t == 0x2e {
                true
            } else {
                false
            }
        },
    }
}

/// Whether the tag of `value` marks it as missing.
pub fn is_tagged_missing(value: &ReadStatValue) -> (r: bool)
    ensures
        r == tag_marks_missing(tag_byte(value.tags@)),
{
    let tags = &value.tags;
    if tags.len() == 0 {
        return false;
    }
    let bytes = tags[0].as_str().as_bytes();
    if bytes.len() == 0 {
        classify_tag(None)
    } else {
        classify_tag(Some(bytes[0]))
    }
}

} // verus!

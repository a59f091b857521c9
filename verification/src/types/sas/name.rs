//! The characters that the name of a column or of a table may hold.

use vstd::prelude::*;
use vstd::string::StringSliceAdditionalSpecFns;
use vstd::utf8::{encode_utf8, is_ascii_chars, is_ascii_chars_encode_utf8};

verus! {

/// Whether a character may stand in a name: an ASCII letter, an ASCII
/// digit or the underscore.
pub open spec fn is_name_char(c: char) -> bool {
    ('a' <= c && c <= 'z') || ('A' <= c && c <= 'Z') || ('0' <= c && c <= '9') || c == '_'
}

/// Whether every character of a text may stand in a name.
pub open spec fn all_name_chars(text: Seq<char>) -> bool {
    forall|i: int| 0 <= i < text.len() ==> is_name_char(#[trigger] text[i])
}

/// Whether a name is accepted: it takes at most `max_len` bytes and holds
/// only characters that may stand in a name.
pub open spec fn is_legal_name(name: &str, max_len: nat) -> bool {
    name.spec_bytes().len() <= max_len && all_name_chars(name@)
}

/// A text that holds only characters that may stand in a name takes one
/// byte for each character.
pub proof fn lemma_name_takes_a_byte_each(text: Seq<char>)
    requires
        all_name_chars(text),
    ensures
        encode_utf8(text).len() == text.len(),
{
    assert(is_ascii_chars(text)) by {
        assert forall|i: int| 0 <= i < text.len() implies '\0' <= #[trigger] text[i] <= '\u{7f}' by {
            assert(is_name_char(text[i]));
        }
    }
    is_ascii_chars_encode_utf8(text);
}

/// Tells whether a character may stand in a name.
pub fn name_char(c: char) -> (r: bool)
    ensures
        r == is_name_char(c),
{
    (c >= 'a' && c <= 'z') || (c >= 'A' && c <= 'Z') || (c >= '0' && c <= '9') || c == '_'
}

/// Tells whether every character of a text may stand in a name.
pub fn only_name_chars(text: &str) -> (r: bool)
    ensures
        r == all_name_chars(text@),
{
    let count = text.unicode_len();
    let mut i: usize = 0;
    while i < count
        invariant
            i <= count,
            count == text@.len(),
            forall|j: int| 0 <= j < i ==> is_name_char(#[trigger] text@[j]),
        decreases count - i,
    {
        if !name_char(text.get_char(i)) {
            return false;
        }
        i += 1;
    }
    true
}

} // verus!

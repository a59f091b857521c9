//! The names of the character sets that a file header names by number.

use crate::types::sas::sas_enums::SasStringEncoding;
use std::collections::HashMap;
use vstd::prelude::*;

verus! {

broadcast use vstd::std_specs::hash::group_hash_axioms;

/// The name of the character set that a header code stands for, for the
/// codes that stand for one. The codes 0 and 204 stand for the encoding
/// that is assumed by default.
pub open spec fn charset_name(code: u32) -> Option<Seq<char>> {
    match code {
        0 => Some(SasStringEncoding::Windows1252.name()),
        20 => Some("UTF-8"@),
        28 => Some("US-ASCII"@),
        29 => Some("ISO-8859-1"@),
        30 => Some("ISO-8859-2"@),
        31 => Some("ISO-8859-3"@),
        32 => Some("ISO-8859-4"@),
        33 => Some("ISO-8859-5"@),
        34 => Some("ISO-8859-6"@),
        35 => Some("ISO-8859-7"@),
        36 => Some("ISO-8859-8"@),
        37 => Some("ISO-8859-9"@),
        39 => Some("ISO-8859-11"@),
        40 => Some("ISO-8859-15"@),
        41 => Some("CP437"@),
        42 => Some("CP850"@),
        43 => Some("CP852"@),
        44 => Some("CP857"@),
        45 => Some("CP858"@),
        46 => Some("CP862"@),
        47 => Some("CP864"@),
        48 => Some("CP865"@),
        49 => Some("CP866"@),
        50 => Some("CP869"@),
        51 => Some("CP874"@),
        52 => Some("CP921"@),
        53 => Some("CP922"@),
        54 => Some("CP1129"@),
        55 => Some("CP720"@),
        56 => Some("CP737"@),
        57 => Some("CP775"@),
        58 => Some("CP860"@),
        59 => Some("CP863"@),
        60 => Some("WINDOWS-1250"@),
        61 => Some("WINDOWS-1251"@),
        62 => Some("WINDOWS-1252"@),
        63 => Some("WINDOWS-1253"@),
        64 => Some("WINDOWS-1254"@),
        65 => Some("WINDOWS-1255"@),
        66 => Some("WINDOWS-1256"@),
        67 => Some("WINDOWS-1257"@),
        68 => Some("WINDOWS-1258"@),
        69 => Some("MACROMAN"@),
        70 => Some("MACARABIC"@),
        71 => Some("MACHEBREW"@),
        72 => Some("MACGREEK"@),
        73 => Some("MACTHAI"@),
        75 => Some("MACTURKISH"@),
        76 => Some("MACUKRAINE"@),
        118 => Some("CP950"@),
        119 => Some("EUC-TW"@),
        123 => Some("BIG-5"@),
        125 => Some("GB18030"@),
        126 => Some("WINDOWS-936"@),
        128 => Some("CP1381"@),
        134 => Some("EUC-JP"@),
        136 => Some("CP949"@),
        137 => Some("CP942"@),
        138 => Some("CP932"@),
        140 => Some("EUC-KR"@),
        141 => Some("CP949"@),
        142 => Some("CP949"@),
        163 => Some("MACICELAND"@),
        167 => Some("ISO-2022-JP"@),
        168 => Some("ISO-2022-KR"@),
        169 => Some("ISO-2022-CN"@),
        172 => Some("ISO-2022-CN-EXT"@),
        204 => Some(SasStringEncoding::Windows1252.name()),
        205 => Some("GB18030"@),
        227 => Some("ISO-8859-14"@),
        242 => Some("ISO-8859-13"@),
        245 => Some("MACCROATIAN"@),
        246 => Some("MACCYRILLIC"@),
        247 => Some("MACROMANIA"@),
        248 => Some("SHIFT_JISX0213"@),
        _ => None,
    }
}

/// Whether a table holds the name of each code that stands for a
/// character set, and nothing else.
pub open spec fn is_charset_table(table: Map<u32, String>) -> bool {
    &&& forall|code: u32| #[trigger] table.contains_key(code) <==> charset_name(code) is Some
    &&& forall|code: u32| #[trigger]
        table.contains_key(code) ==> table[code]@ == charset_name(code).unwrap()
}

fn insert_name(lookup: &mut HashMap<u32, String>, code: u32, name: String)
    ensures
        final(lookup)@ == old(lookup)@.insert(code, name),
{
    lookup.insert(code, name);
}

/// The table from header codes to the names of character sets.
pub fn build_charset_lookup() -> (lookup: HashMap<u32, String>)
    ensures
        is_charset_table(lookup@),
{
    let mut lookup = HashMap::new();

    insert_name(&mut lookup, 0, SasStringEncoding::default().to_string());
    insert_name(&mut lookup, 20, "UTF-8".to_string());
    insert_name(&mut lookup, 28, "US-ASCII".to_string());
    insert_name(&mut lookup, 29, "ISO-8859-1".to_string());
    insert_name(&mut lookup, 30, "ISO-8859-2".to_string());
    insert_name(&mut lookup, 31, "ISO-8859-3".to_string());
    insert_name(&mut lookup, 32, "ISO-8859-4".to_string());
    insert_name(&mut lookup, 33, "ISO-8859-5".to_string());
    insert_name(&mut lookup, 34, "ISO-8859-6".to_string());
    insert_name(&mut lookup, 35, "ISO-8859-7".to_string());
    insert_name(&mut lookup, 36, "ISO-8859-8".to_string());
    insert_name(&mut lookup, 37, "ISO-8859-9".to_string());
    insert_name(&mut lookup, 39, "ISO-8859-11".to_string());
    insert_name(&mut lookup, 40, "ISO-8859-15".to_string());
    insert_name(&mut lookup, 41, "CP437".to_string());
    insert_name(&mut lookup, 42, "CP850".to_string());
    insert_name(&mut lookup, 43, "CP852".to_string());
    insert_name(&mut lookup, 44, "CP857".to_string());
    insert_name(&mut lookup, 45, "CP858".to_string());
    insert_name(&mut lookup, 46, "CP862".to_string());
    insert_name(&mut lookup, 47, "CP864".to_string());
    insert_name(&mut lookup, 48, "CP865".to_string());
    insert_name(&mut lookup, 49, "CP866".to_string());
    insert_name(&mut lookup, 50, "CP869".to_string());
    insert_name(&mut lookup, 51, "CP874".to_string());
    insert_name(&mut lookup, 52, "CP921".to_string());
    insert_name(&mut lookup, 53, "CP922".to_string());
    insert_name(&mut lookup, 54, "CP1129".to_string());
    insert_name(&mut lookup, 55, "CP720".to_string());
    insert_name(&mut lookup, 56, "CP737".to_string());
    insert_name(&mut lookup, 57, "CP775".to_string());
    insert_name(&mut lookup, 58, "CP860".to_string());
    insert_name(&mut lookup, 59, "CP863".to_string());
    insert_name(&mut lookup, 60, "WINDOWS-1250".to_string());
    insert_name(&mut lookup, 61, "WINDOWS-1251".to_string());
    insert_name(&mut lookup, 62, "WINDOWS-1252".to_string());
    insert_name(&mut lookup, 63, "WINDOWS-1253".to_string());
    insert_name(&mut lookup, 64, "WINDOWS-1254".to_string());
    insert_name(&mut lookup, 65, "WINDOWS-1255".to_string());
    insert_name(&mut lookup, 66, "WINDOWS-1256".to_string());
    insert_name(&mut lookup, 67, "WINDOWS-1257".to_string());
    insert_name(&mut lookup, 68, "WINDOWS-1258".to_string());
    insert_name(&mut lookup, 69, "MACROMAN".to_string());
    insert_name(&mut lookup, 70, "MACARABIC".to_string());
    insert_name(&mut lookup, 71, "MACHEBREW".to_string());
    insert_name(&mut lookup, 72, "MACGREEK".to_string());
    insert_name(&mut lookup, 73, "MACTHAI".to_string());
    insert_name(&mut lookup, 75, "MACTURKISH".to_string());
    insert_name(&mut lookup, 76, "MACUKRAINE".to_string());
    insert_name(&mut lookup, 118, "CP950".to_string());
    insert_name(&mut lookup, 119, "EUC-TW".to_string());
    insert_name(&mut lookup, 123, "BIG-5".to_string());
    insert_name(&mut lookup, 125, "GB18030".to_string());
    insert_name(&mut lookup, 126, "WINDOWS-936".to_string());
    insert_name(&mut lookup, 128, "CP1381".to_string());
    insert_name(&mut lookup, 134, "EUC-JP".to_string());
    insert_name(&mut lookup, 136, "CP949".to_string());
    insert_name(&mut lookup, 137, "CP942".to_string());
    insert_name(&mut lookup, 138, "CP932".to_string());
    insert_name(&mut lookup, 140, "EUC-KR".to_string());
    insert_name(&mut lookup, 141, "CP949".to_string());
    insert_name(&mut lookup, 142, "CP949".to_string());
    insert_name(&mut lookup, 163, "MACICELAND".to_string());
    insert_name(&mut lookup, 167, "ISO-2022-JP".to_string());
    insert_name(&mut lookup, 168, "ISO-2022-KR".to_string());
    insert_name(&mut lookup, 169, "ISO-2022-CN".to_string());
    insert_name(&mut lookup, 172, "ISO-2022-CN-EXT".to_string());
    insert_name(&mut lookup, 204, SasStringEncoding::default().to_string());
    insert_name(&mut lookup, 205, "GB18030".to_string());
    insert_name(&mut lookup, 227, "ISO-8859-14".to_string());
    insert_name(&mut lookup, 242, "ISO-8859-13".to_string());
    insert_name(&mut lookup, 245, "MACCROATIAN".to_string());
    insert_name(&mut lookup, 246, "MACCYRILLIC".to_string());
    insert_name(&mut lookup, 247, "MACROMANIA".to_string());
    insert_name(&mut lookup, 248, "SHIFT_JISX0213".to_string());

    lookup
}

/// The name of the character set that a header code stands for, or `None`
/// for a code that stands for none.
pub fn resolve_charset(code: u32) -> (r: Option<String>)
    ensures
        match charset_name(code) {
            Some(name) => r is Some && r.unwrap()@ == name,
            None => r is None,
        },
{
    let lookup = build_charset_lookup();
    match lookup.get(&code) {
        Some(name) => Some(name.clone()),
        None => None,
    }
}

} // verus!

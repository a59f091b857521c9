//! Reading a fixed-width unsigned integer from the front of a byte span.

use crate::sas::byte_swap::{
    be_value, byte_span, le_value, lemma_span_monotone, lemma_value_below_span, byteswap,
    SasUnsigned,
};
use vstd::prelude::*;
use vstd::string::StringSliceAdditionalSpecFns;

verus! {

/// Why a read failed.
#[derive(Debug, Clone, Copy, PartialEq, Eq, Structural)]
pub enum SasReadError {
    /// The span holds fewer bytes than the width that was asked for.
    InsufficientData { needed: usize, available: usize },
}

/// What a read of a `T` from `data` gives where `data` is long enough: the
/// number that the first `T::width()` bytes spell from their most
/// significant end, with its bytes reversed where `bswap` is set.
pub open spec fn read_value<T: SasUnsigned>(data: Seq<u8>, bswap: bool) -> T {
    let plain = T::of_magnitude(be_value(data.take(T::width() as int)));
    if bswap {
        plain.swapped()
    } else {
        plain
    }
}

/// Reads a `T` from the front of `data`: the first bytes most significant
/// first, then reversed where `bswap` is set. Fails where `data` is shorter
/// than a `T`.
pub fn sas_read<T: SasUnsigned>(data: &[u8], bswap: bool) -> (r: Result<T, SasReadError>)
    ensures
        data@.len() < T::width() ==> r == Err::<T, SasReadError>(
            SasReadError::InsufficientData {
                needed: T::width() as usize,
                available: data@.len() as usize,
            },
        ),
        data@.len() >= T::width() ==> r == Ok::<T, SasReadError>(read_value::<T>(data@, bswap)),
{
    let size = T::byte_count();
    if data.len() < size {
        return Err(SasReadError::InsufficientData { needed: size, available: data.len() });
    }
    proof {
        T::lemma_range(T::of_magnitude(0));
    }
    let mut tmp: u64 = 0;
    let mut i: usize = 0;
    while i < size
        invariant
            i <= size <= data@.len(),
            size <= 8,
            tmp == be_value(data@.take(i as int)),
        decreases size - i,
    {
        proof {
            let before = data@.take(i as int);
            let after = data@.take(i + 1);
            assert(after.drop_last() == before);
            assert(after.last() == data@[i as int]);
            lemma_value_below_span(before);
            lemma_span_monotone(i as nat, 7);
            reveal_with_fuel(byte_span, 8);
        }
        tmp = tmp * 256 + data[i] as u64;
        i += 1;
    }
    proof {
        lemma_value_below_span(data@.take(size as int));
    }
    let plain = T::narrowed(tmp);
    if bswap {
        Ok(byteswap(plain))
    } else {
        Ok(plain)
    }
}

/// Reads an eight-byte integer from the front of the bytes of `data`.
pub fn sas_read8(data: &str, bswap: bool) -> (r: Result<u64, SasReadError>)
    ensures
        data.spec_bytes().len() < 8 ==> r == Err::<u64, SasReadError>(
            SasReadError::InsufficientData {
                needed: 8,
                available: data.spec_bytes().len() as usize,
            },
        ),
        data.spec_bytes().len() >= 8 ==> r == Ok::<u64, SasReadError>(
            read_value::<u64>(data.spec_bytes(), bswap),
        ),
{
    sas_read(data.as_bytes(), bswap)
}

/// Reads a four-byte integer from the front of the bytes of `data`.
pub fn sas_read4(data: &str, bswap: bool) -> (r: Result<u32, SasReadError>)
    ensures
        data.spec_bytes().len() < 4 ==> r == Err::<u32, SasReadError>(
            SasReadError::InsufficientData {
                needed: 4,
                available: data.spec_bytes().len() as usize,
            },
        ),
        data.spec_bytes().len() >= 4 ==> r == Ok::<u32, SasReadError>(
            read_value::<u32>(data.spec_bytes(), bswap),
        ),
{
    sas_read(data.as_bytes(), bswap)
}

/// Reads a two-byte integer from the front of the bytes of `data`.
pub fn sas_read2(data: &str, bswap: bool) -> (r: Result<u16, SasReadError>)
    ensures
        data.spec_bytes().len() < 2 ==> r == Err::<u16, SasReadError>(
            SasReadError::InsufficientData {
                needed: 2,
                available: data.spec_bytes().len() as usize,
            },
        ),
        data.spec_bytes().len() >= 2 ==> r == Ok::<u16, SasReadError>(
            read_value::<u16>(data.spec_bytes(), bswap),
        ),
{
    sas_read(data.as_bytes(), bswap)
}

/// A read with the bytes reversed gives the number that the first bytes
/// spell from their least significant end; a plain read, the number that
/// they spell from their most significant end.
pub proof fn lemma_read_value_by_order<T: SasUnsigned>(data: Seq<u8>)
    requires
        data.len() >= T::width(),
    ensures
        read_value::<T>(data, false).magnitude() == be_value(data.take(T::width() as int)),
        read_value::<T>(data, true).magnitude() == le_value(data.take(T::width() as int)),
{
    let head = data.take(T::width() as int);
    T::lemma_swapped_value(head);
    T::lemma_range(T::of_magnitude(0));
}

/// Reading with the bytes reversed is reading plainly and then reversing
/// the bytes, and reversing once more gives the plain reading back.
pub proof fn lemma_read_value_swapped<T: SasUnsigned>(data: Seq<u8>)
    ensures
        read_value::<T>(data, true) == read_value::<T>(data, false).swapped(),
        read_value::<T>(data, true).swapped() == read_value::<T>(data, false),
{
    T::lemma_swapped_twice(read_value::<T>(data, false));
}

} // verus!

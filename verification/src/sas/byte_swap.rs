//! Byte order: the host's, the reversal of an unsigned integer's bytes, and
//! the conversion between one's and two's complement.

use vstd::prelude::*;

verus! {

/// How many values `width` bytes can hold: 256 to the power `width`.
pub open spec fn byte_span(width: nat) -> nat
    decreases width,
{
    if width == 0 {
        1
    } else {
        256 * byte_span((width - 1) as nat)
    }
}

/// The number that `bytes` spell with the most significant byte first.
pub open spec fn be_value(bytes: Seq<u8>) -> nat
    decreases bytes.len(),
{
    if bytes.len() == 0 {
        0
    } else {
        256 * be_value(bytes.drop_last()) + bytes.last() as nat
    }
}

/// The number that `bytes` spell with the least significant byte first.
pub open spec fn le_value(bytes: Seq<u8>) -> nat
    decreases bytes.len(),
{
    if bytes.len() == 0 {
        0
    } else {
        bytes.first() as nat + 256 * le_value(bytes.drop_first())
    }
}

/// A 16-bit value with its two bytes exchanged.
pub open spec fn swap16(x: u16) -> u16 {
    (x << 8) | (x >> 8)
}

/// A 32-bit value with its four bytes in reverse order.
pub open spec fn swap32(x: u32) -> u32 {
    (x << 24) | ((x & 0xff00) << 8) | ((x >> 8) & 0xff00) | (x >> 24)
}

/// A 64-bit value with its eight bytes in reverse order.
pub open spec fn swap64(x: u64) -> u64 {
    (x << 56) | ((x & 0xff00) << 40) | ((x & 0xff_0000) << 24) | ((x & 0xff00_0000) << 8) | ((x
        >> 8) & 0xff00_0000) | ((x >> 24) & 0xff_0000) | ((x >> 40) & 0xff00) | (x >> 56)
}

/// `num::PrimInt::swap_bytes` on a `u16`. The contract claims that the
/// result is the argument with its low and high byte exchanged.
#[verifier::external_body]
fn prim_swap_u16(x: u16) -> (r: u16)
    ensures
        r == swap16(x),
{
    num::PrimInt::swap_bytes(x)
}

/// `num::PrimInt::swap_bytes` on a `u32`. The contract claims that byte
/// `i` of the result, counted from the low end, is byte `3 - i` of the
/// argument.
#[verifier::external_body]
fn prim_swap_u32(x: u32) -> (r: u32)
    ensures
        r == swap32(x),
{
    num::PrimInt::swap_bytes(x)
}

/// `num::PrimInt::swap_bytes` on a `u64`. The contract claims that byte
/// `i` of the result, counted from the low end, is byte `7 - i` of the
/// argument.
#[verifier::external_body]
fn prim_swap_u64(x: u64) -> (r: u64)
    ensures
        r == swap64(x),
{
    num::PrimInt::swap_bytes(x)
}

/// An unsigned integer of one of the widths that a file stores: two, four
/// or eight bytes.
pub trait SasUnsigned: Copy + Sized {
    /// The width in bytes.
    spec fn width() -> nat;

    /// The number that a value stands for.
    spec fn magnitude(self) -> nat;

    /// The value that stands for a number below `byte_span(width())`.
    spec fn of_magnitude(m: nat) -> Self;

    /// The value with its bytes in reverse order.
    spec fn swapped(self) -> Self;

    /// The width is two, four or eight bytes, and the values are the
    /// numbers below `byte_span(width())`, each standing for itself.
    proof fn lemma_range(x: Self)
        ensures
            Self::width() == 2 || Self::width() == 4 || Self::width() == 8,
            x.magnitude() < byte_span(Self::width()),
            Self::of_magnitude(x.magnitude()) == x,
            forall|m: nat|
                m < byte_span(Self::width()) ==> (#[trigger] Self::of_magnitude(m)).magnitude()
                    == m,
    ;

    /// Reversing the bytes twice gives the value back.
    proof fn lemma_swapped_twice(x: Self)
        ensures
            x.swapped().swapped() == x,
    ;

    /// Reversing the bytes of the number that a byte sequence spells from
    /// its most significant end gives the number that the same sequence
    /// spells from its least significant end.
    proof fn lemma_swapped_value(bytes: Seq<u8>)
        requires
            bytes.len() == Self::width(),
        ensures
            be_value(bytes) < byte_span(Self::width()),
            le_value(bytes) < byte_span(Self::width()),
            Self::of_magnitude(be_value(bytes)).swapped() == Self::of_magnitude(le_value(bytes)),
    ;

    fn byte_count() -> (w: usize)
        ensures
            w == Self::width(),
    ;

    fn narrowed(m: u64) -> (r: Self)
        requires
            m < byte_span(Self::width()),
        ensures
            r == Self::of_magnitude(m as nat),
    ;

    fn reversed(self) -> (r: Self)
        ensures
            r == self.swapped(),
    ;
}

/// The number that a byte sequence spells is below the span of as many
/// bytes, whichever end comes first.
pub proof fn lemma_value_below_span(bytes: Seq<u8>)
    ensures
        be_value(bytes) < byte_span(bytes.len()),
        le_value(bytes) < byte_span(bytes.len()),
    decreases bytes.len(),
{
    if bytes.len() > 0 {
        lemma_value_below_span(bytes.drop_last());
        lemma_value_below_span(bytes.drop_first());
    }
}

/// The span grows with the width.
pub proof fn lemma_span_monotone(a: nat, b: nat)
    requires
        a <= b,
    ensures
        0 < byte_span(a) <= byte_span(b),
    decreases b,
{
    if b > 0 {
        if a < b {
            lemma_span_monotone(a, (b - 1) as nat);
        } else {
            lemma_span_monotone((a - 1) as nat, (b - 1) as nat);
        }
    }
}

proof fn lemma_span_values()
    ensures
        byte_span(2) == 0x1_0000,
        byte_span(4) == 0x1_0000_0000,
        byte_span(7) == 0x100_0000_0000_0000,
        byte_span(8) == 0x1_0000_0000_0000_0000,
{
    reveal_with_fuel(byte_span, 9);
}

proof fn lemma_values_of_two(bytes: Seq<u8>)
    requires
        bytes.len() == 2,
    ensures
        be_value(bytes) == bytes[0] * 0x100 + bytes[1],
        le_value(bytes) == bytes[1] * 0x100 + bytes[0],
{
    reveal_with_fuel(be_value, 3);
    reveal_with_fuel(le_value, 3);
    let front = bytes.drop_last();
    assert(front.drop_last().len() == 0);
    assert(front.last() == bytes[0]);
    let back = bytes.drop_first();
    assert(back.drop_first().len() == 0);
    assert(back.first() == bytes[1]);
}

impl SasUnsigned for u16 {
    open spec fn width() -> nat {
        2
    }

    open spec fn magnitude(self) -> nat {
        self as nat
    }

    open spec fn of_magnitude(m: nat) -> u16 {
        m as u16
    }

    open spec fn swapped(self) -> u16 {
        swap16(self)
    }

    proof fn lemma_range(x: u16) {
        lemma_span_values();
    }

    proof fn lemma_swapped_twice(x: u16) {
        assert(swap16(swap16(x)) == x) by (bit_vector);
    }

    proof fn lemma_swapped_value(bytes: Seq<u8>) {
        lemma_span_values();
        lemma_values_of_two(bytes);
        let b0 = bytes[0];
        let b1 = bytes[1];
        let be = (b0 * 0x100 + b1) as u16;
        let le = (b1 * 0x100 + b0) as u16;
        assert(swap16(be) == le) by (bit_vector)
            requires
                be == (b0 * 0x100 + b1) as u16,
                le == (b1 * 0x100 + b0) as u16,
        ;
    }

    fn byte_count() -> (w: usize) {
        2
    }

    fn narrowed(m: u64) -> (r: u16) {
        proof {
            lemma_span_values();
        }
        m as u16
    }

    fn reversed(self) -> (r: u16) {
        prim_swap_u16(self)
    }
}

proof fn lemma_values_of_four(bytes: Seq<u8>)
    requires
        bytes.len() == 4,
    ensures
        be_value(bytes) == bytes[0] * 0x100_0000 + bytes[1] * 0x1_0000 + bytes[2] * 0x100
            + bytes[3],
        le_value(bytes) == bytes[3] * 0x100_0000 + bytes[2] * 0x1_0000 + bytes[1] * 0x100
            + bytes[0],
{
    lemma_values_of_two(bytes.take(2));
    lemma_values_of_two(bytes.skip(2));
    reveal_with_fuel(be_value, 3);
    reveal_with_fuel(le_value, 3);
    let front = bytes.drop_last();
    assert(front.drop_last() == bytes.take(2));
    assert(front.last() == bytes[2]);
    let back = bytes.drop_first();
    assert(back.drop_first() == bytes.skip(2));
    assert(back.first() == bytes[1]);
}

proof fn lemma_values_of_eight(bytes: Seq<u8>)
    requires
        bytes.len() == 8,
    ensures
        be_value(bytes) == bytes[0] * 0x100_0000_0000_0000 + bytes[1] * 0x1_0000_0000_0000
            + bytes[2] * 0x100_0000_0000 + bytes[3] * 0x1_0000_0000 + bytes[4] * 0x100_0000
            + bytes[5] * 0x1_0000 + bytes[6] * 0x100 + bytes[7],
        le_value(bytes) == bytes[7] * 0x100_0000_0000_0000 + bytes[6] * 0x1_0000_0000_0000
            + bytes[5] * 0x100_0000_0000 + bytes[4] * 0x1_0000_0000 + bytes[3] * 0x100_0000
            + bytes[2] * 0x1_0000 + bytes[1] * 0x100 + bytes[0],
{
    lemma_values_of_four(bytes.take(4));
    lemma_values_of_four(bytes.skip(4));
    reveal_with_fuel(be_value, 5);
    reveal_with_fuel(le_value, 5);
    let b7 = bytes.drop_last();
    let b6 = b7.drop_last();
    let b5 = b6.drop_last();
    assert(b5.drop_last() == bytes.take(4));
    assert(b7.last() == bytes[6] && b6.last() == bytes[5] && b5.last() == bytes[4]);
    let l1 = bytes.drop_first();
    let l2 = l1.drop_first();
    let l3 = l2.drop_first();
    assert(l3.drop_first() == bytes.skip(4));
    assert(l1.first() == bytes[1] && l2.first() == bytes[2] && l3.first() == bytes[3]);
}

impl SasUnsigned for u32 {
    open spec fn width() -> nat {
        4
    }

    open spec fn magnitude(self) -> nat {
        self as nat
    }

    open spec fn of_magnitude(m: nat) -> u32 {
        m as u32
    }

    open spec fn swapped(self) -> u32 {
        swap32(self)
    }

    proof fn lemma_range(x: u32) {
        lemma_span_values();
    }

    proof fn lemma_swapped_twice(x: u32) {
        assert(swap32(swap32(x)) == x) by (bit_vector);
    }

    proof fn lemma_swapped_value(bytes: Seq<u8>) {
        lemma_span_values();
        lemma_values_of_four(bytes);
        let b0 = bytes[0];
        let b1 = bytes[1];
        let b2 = bytes[2];
        let b3 = bytes[3];
        let be = (b0 * 0x100_0000 + b1 * 0x1_0000 + b2 * 0x100 + b3) as u32;
        let le = (b3 * 0x100_0000 + b2 * 0x1_0000 + b1 * 0x100 + b0) as u32;
        assert(swap32(be) == le) by (bit_vector)
            requires
                be == (b0 * 0x100_0000 + b1 * 0x1_0000 + b2 * 0x100 + b3) as u32,
                le == (b3 * 0x100_0000 + b2 * 0x1_0000 + b1 * 0x100 + b0) as u32,
        ;
    }

    fn byte_count() -> (w: usize) {
        4
    }

    fn narrowed(m: u64) -> (r: u32) {
        proof {
            lemma_span_values();
        }
        m as u32
    }

    fn reversed(self) -> (r: u32) {
        prim_swap_u32(self)
    }
}

impl SasUnsigned for u64 {
    open spec fn width() -> nat {
        8
    }

    open spec fn magnitude(self) -> nat {
        self as nat
    }

    open spec fn of_magnitude(m: nat) -> u64 {
        m as u64
    }

    open spec fn swapped(self) -> u64 {
        swap64(self)
    }

    proof fn lemma_range(x: u64) {
        lemma_span_values();
    }

    proof fn lemma_swapped_twice(x: u64) {
        assert(swap64(swap64(x)) == x) by (bit_vector);
    }

    proof fn lemma_swapped_value(bytes: Seq<u8>) {
        lemma_span_values();
        lemma_values_of_eight(bytes);
        let b0 = bytes[0];
        let b1 = bytes[1];
        let b2 = bytes[2];
        let b3 = bytes[3];
        let b4 = bytes[4];
        let b5 = bytes[5];
        let b6 = bytes[6];
        let b7 = bytes[7];
        let be = (b0 * 0x100_0000_0000_0000 + b1 * 0x1_0000_0000_0000 + b2 * 0x100_0000_0000 + b3
            * 0x1_0000_0000 + b4 * 0x100_0000 + b5 * 0x1_0000 + b6 * 0x100 + b7) as u64;
        let le = (b7 * 0x100_0000_0000_0000 + b6 * 0x1_0000_0000_0000 + b5 * 0x100_0000_0000 + b4
            * 0x1_0000_0000 + b3 * 0x100_0000 + b2 * 0x1_0000 + b1 * 0x100 + b0) as u64;
        assert(swap64(be) == le) by (bit_vector)
            requires
                be == (b0 * 0x100_0000_0000_0000 + b1 * 0x1_0000_0000_0000 + b2
                    * 0x100_0000_0000 + b3 * 0x1_0000_0000 + b4 * 0x100_0000 + b5 * 0x1_0000 + b6
                    * 0x100 + b7) as u64,
                le == (b7 * 0x100_0000_0000_0000 + b6 * 0x1_0000_0000_0000 + b5
                    * 0x100_0000_0000 + b4 * 0x1_0000_0000 + b3 * 0x100_0000 + b2 * 0x1_0000 + b1
                    * 0x100 + b0) as u64,
        ;
    }

    fn byte_count() -> (w: usize) {
        8
    }

    fn narrowed(m: u64) -> (r: u64) {
        m
    }

    fn reversed(self) -> (r: u64) {
        prim_swap_u64(self)
    }
}

/// The value with its bytes in reverse order.
pub fn byteswap<T: SasUnsigned>(num: T) -> (r: T)
    ensures
        r == num.swapped(),
{
    num.reversed()
}

/// Reversing the bytes of a value twice gives the value back, bit for bit,
/// at each of the three widths.
pub proof fn lemma_byteswap_involution<T: SasUnsigned>(x: T)
    ensures
        x.swapped().swapped() == x,
{
    T::lemma_swapped_twice(x);
}

/// `u32::to_ne_bytes`: the four bytes of `x` in the order in which the host
/// keeps them in memory. The contract claims only what holds on every
/// host: the bytes spell `x` from one end or from the other.
#[verifier::external_body]
fn host_bytes(x: u32) -> (r: [u8; 4])
    ensures
        le_value(r@) == x || be_value(r@) == x,
{
    x.to_ne_bytes()
}

/// Whether a four-byte image starts with the byte `1`. Of an image of the
/// number one, this says whether the image has its low byte first.
pub fn leads_with_low_byte(image: &[u8; 4]) -> (r: bool)
    ensures
        r == (image@[0] == 1),
        le_value(image@) == 1 || be_value(image@) == 1 ==> r == (le_value(image@) == 1),
{
    proof {
        lemma_values_of_four(image@);
    }
    image[0] == 1
}

/// Whether the host keeps the low byte of an integer first, found by
/// looking at the image of the number one in memory.
pub fn is_machine_little_endian() -> bool {
    let image = host_bytes(1);
    leads_with_low_byte(&image)
}

/// What a one's complement reading of a signed field stands for in two's
/// complement: a negative number moves up by one.
pub open spec fn ones_to_twos(v: int) -> int {
    if v < 0 {
        v + 1
    } else {
        v
    }
}

/// What a two's complement number is stored as in one's complement: a
/// negative number moves down by one.
pub open spec fn twos_to_ones(v: int) -> int {
    if v < 0 {
        v - 1
    } else {
        v
    }
}

/// A signed integer type.
pub trait SasSigned: Copy + Sized {
    /// The number that a value stands for.
    spec fn value(self) -> int;

    /// The least number that the type holds.
    spec fn lowest() -> int;

    fn below_zero(self) -> (b: bool)
        ensures
            b == (self.value() < 0),
    ;

    fn successor(self) -> (r: Self)
        requires
            self.value() < 0,
        ensures
            r.value() == self.value() + 1,
    ;

    fn predecessor(self) -> (r: Self)
        requires
            self.value() > Self::lowest(),
        ensures
            r.value() == self.value() - 1,
    ;
}

impl SasSigned for i8 {
    open spec fn value(self) -> int {
        self as int
    }

    open spec fn lowest() -> int {
        i8::MIN as int
    }

    fn below_zero(self) -> (b: bool) {
        self < 0
    }

    fn successor(self) -> (r: i8) {
        self + 1
    }

    fn predecessor(self) -> (r: i8) {
        self - 1
    }
}

impl SasSigned for i16 {
    open spec fn value(self) -> int {
        self as int
    }

    open spec fn lowest() -> int {
        i16::MIN as int
    }

    fn below_zero(self) -> (b: bool) {
        self < 0
    }

    fn successor(self) -> (r: i16) {
        self + 1
    }

    fn predecessor(self) -> (r: i16) {
        self - 1
    }
}

impl SasSigned for i32 {
    open spec fn value(self) -> int {
        self as int
    }

    open spec fn lowest() -> int {
        i32::MIN as int
    }

    fn below_zero(self) -> (b: bool) {
        self < 0
    }

    fn successor(self) -> (r: i32) {
        self + 1
    }

    fn predecessor(self) -> (r: i32) {
        self - 1
    }
}

impl SasSigned for i64 {
    open spec fn value(self) -> int {
        self as int
    }

    open spec fn lowest() -> int {
        i64::MIN as int
    }

    fn below_zero(self) -> (b: bool) {
        self < 0
    }

    fn successor(self) -> (r: i64) {
        self + 1
    }

    fn predecessor(self) -> (r: i64) {
        self - 1
    }
}

impl SasSigned for i128 {
    open spec fn value(self) -> int {
        self as int
    }

    open spec fn lowest() -> int {
        i128::MIN as int
    }

    fn below_zero(self) -> (b: bool) {
        self < 0
    }

    fn successor(self) -> (r: i128) {
        self + 1
    }

    fn predecessor(self) -> (r: i128) {
        self - 1
    }
}

/// Converts a one's complement reading to two's complement.
pub fn ones_to_twos_complement<T: SasSigned>(num: T) -> (r: T)
    ensures
        r.value() == ones_to_twos(num.value()),
        num.value() >= 0 ==> r == num,
{
    if num.below_zero() {
        num.successor()
    } else {
        num
    }
}

/// Converts a two's complement number to its one's complement form. The
/// least number of the type has no such form in the type.
pub fn twos_to_ones_complement<T: SasSigned>(num: T) -> (r: T)
    requires
        num.value() > T::lowest(),
    ensures
        r.value() == twos_to_ones(num.value()),
        num.value() >= 0 ==> r == num,
{
    if num.below_zero() {
        num.predecessor()
    } else {
        num
    }
}

/// A negative number that is taken to one's complement and back is
/// unchanged.
pub proof fn lemma_ones_to_twos_inverts(v: int)
    requires
        v < 0,
    ensures
        ones_to_twos(twos_to_ones(v)) == v,
{
}

/// A number below minus one that is taken to two's complement and back is
/// unchanged. Minus one is taken to zero, which stays.
pub proof fn lemma_twos_to_ones_inverts(v: int)
    requires
        v < -1,
    ensures
        twos_to_ones(ones_to_twos(v)) == v,
{
}

/// Neither conversion changes a number that is not negative.
pub proof fn lemma_complement_keeps_non_negative(v: int)
    requires
        v >= 0,
    ensures
        ones_to_twos(v) == v,
        twos_to_ones(v) == v,
{
}

} // verus!

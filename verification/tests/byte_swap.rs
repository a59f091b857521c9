use readstat_sas::sas::byte_swap::{
    byteswap, is_machine_little_endian, leads_with_low_byte, ones_to_twos_complement,
    twos_to_ones_complement,
};

#[test]
fn test_endianness() {
    assert_eq!(is_machine_little_endian(), true);
}

#[test]
fn test_ones_to_twos_complement() {
    assert_eq!(ones_to_twos_complement(-1_i8), 0);
    assert_eq!(ones_to_twos_complement(-1_i16), 0);
    assert_eq!(ones_to_twos_complement(-1_i32), 0);
}

#[test]
fn test_twos_to_ones_complement() {
    assert_eq!(twos_to_ones_complement(-1_i8), -2);
    assert_eq!(twos_to_ones_complement(-1_i16), -2);
    assert_eq!(twos_to_ones_complement(-1_i32), -2);
}

#[test]
fn test_byteswap() {
    assert_eq!(byteswap(0x1234_u16), 0x3412);
    assert_eq!(byteswap(0x12345678_u32), 0x78563412);
    assert_eq!(byteswap(0x123456789ABCDEF0_u64), 0xF0DEBC9A78563412);
}

#[test]
fn test_byteswap_twice_gives_the_value_back() {
    for x in [0x0000_u16, 0x0001, 0x1234, 0xff00, 0xffff] {
        assert_eq!(byteswap(byteswap(x)), x);
    }
    for x in [0x0000_0000_u32, 0x0000_0001, 0x1234_5678, 0xffff_0000, 0xffff_ffff] {
        assert_eq!(byteswap(byteswap(x)), x);
    }
    for x in [0_u64, 1, 0x0123_4567_89ab_cdef, u64::MAX, 0x7ff8_0000_0000_0001] {
        assert_eq!(byteswap(byteswap(x)), x);
    }
}

#[test]
fn test_byteswap_float() {
    let num: f32 = 1.2345678;
    let swapped = byteswap(num.to_bits());
    assert_eq!(swapped, num.to_bits().swap_bytes());
    assert_eq!(f32::from_bits(byteswap(swapped)), num);
}

#[test]
fn test_byteswap_double() {
    let num: f64 = 1.2345678901234567;
    let swapped = byteswap(num.to_bits());
    assert_eq!(swapped, num.to_bits().swap_bytes());
    assert_eq!(f64::from_bits(byteswap(swapped)), num);
}

#[test]
fn test_byteswap_nan_bit_patterns() {
    let nan = f64::NAN.to_bits();
    assert_eq!(byteswap(byteswap(nan)), nan);
    let nan = f32::NAN.to_bits();
    assert_eq!(byteswap(byteswap(nan)), nan);
}

#[test]
fn test_byteswap_differs_from_its_argument() {
    assert_ne!(byteswap(0x0102_u16), 0x0102);
    assert_ne!(byteswap(0x0102_0304_u32), 0x0102_0304);
    assert_ne!(byteswap(0x0102_0304_0506_0708_u64), 0x0102_0304_0506_0708);
    assert_eq!(byteswap(0x0102_0304_0506_0708_u64), 0x0807_0605_0403_0201);
}

#[test]
fn test_leads_with_low_byte() {
    assert!(leads_with_low_byte(&[1, 0, 0, 0]));
    assert!(!leads_with_low_byte(&[0, 0, 0, 1]));
    assert_eq!(leads_with_low_byte(&1_u32.to_ne_bytes()), is_machine_little_endian());
    assert_eq!(is_machine_little_endian(), 1_u16.to_ne_bytes()[0] == 1);
}

#[test]
fn test_complement_round_trip_on_negative_numbers() {
    for v in [-1_i32, -2, -3, -1000, i32::MIN + 1] {
        assert_eq!(ones_to_twos_complement(twos_to_ones_complement(v)), v);
    }
    for v in [-2_i64, -3, -1000, i64::MIN + 1, i64::MIN] {
        assert_eq!(twos_to_ones_complement(ones_to_twos_complement(v)), v);
    }
    assert_eq!(twos_to_ones_complement(ones_to_twos_complement(-1_i64)), 0);
}

#[test]
fn test_complement_keeps_non_negative_numbers() {
    for v in [0_i16, 1, 2, 255, i16::MAX] {
        assert_eq!(ones_to_twos_complement(v), v);
        assert_eq!(twos_to_ones_complement(v), v);
    }
    assert_eq!(ones_to_twos_complement(0_i128), 0);
    assert_eq!(twos_to_ones_complement(i128::MAX), i128::MAX);
}

#[test]
fn test_complement_exact_values() {
    assert_eq!(ones_to_twos_complement(-5_i64), -4);
    assert_eq!(twos_to_ones_complement(-5_i64), -6);
    assert_eq!(ones_to_twos_complement(i8::MIN), -127);
    assert_eq!(twos_to_ones_complement(i8::MIN + 1), i8::MIN);
}

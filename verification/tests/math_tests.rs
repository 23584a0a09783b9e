use game_boyish::util::math_util::{
    adc, addition, addition_16bit, and, compare, complement, daa, dec, dec_16bit, inc, inc_16bit,
    or, res_bit, rotate_left, rotate_left_carry, rotate_right, rotate_right_carry, sbc, set_bit,
    shift_left_arithmetic, shift_right_arithmetic, shift_right_logical, signed_addition,
    subtraction, swap_nibble, test_bit, xor,
};
use game_boyish::util::u8_traits::{Bit, NibblesU16, NibblesU8};

#[test]
fn signed_addition_test() {
    let a = 200u16;
    let b = 0b1111_1111u8;
    assert_eq!(199, signed_addition(a, b).0)
}

#[test]
fn addition_test() {
    let a = 200u16;
    let b = 0b1111_1111u8;
    assert_eq!(199, signed_addition(a, b).0)
}

#[test]
fn bit_set_get_test() {
    let mut a: u8 = 0b0000_0000;
    a.set_bit(2, true);
    assert_eq!(a.get_bit(2), true);
    a.set_bit(7, true);
    assert_eq!(a.get_bit(7), true);
    a.set_bit(7, false);
    assert_eq!(a.get_bit(7), false);
    // false if weird value
    a.set_bit(9, true);
    assert_eq!(a.get_bit(9), false);
}

#[test]
fn get_set_bit_test() {
    let mut byte = 0b0000_0000u8;
    byte.set_bit(0, true);
    assert_eq!(byte, 0b0000_0001);
    byte.set_bit(1, true);
    assert_eq!(byte, 0b0000_0011);
    assert_eq!(true, byte.get_bit(1));
    assert_eq!(true, byte.get_bit(0));
    assert_eq!(false, byte.get_bit(2));
}

#[test]
fn bits_and_nibbles() {
    assert_eq!(0b1010_0001u8.to_bits_array(), [1, 0, 1, 0, 0, 0, 0, 1]);
    assert_eq!(0xABCDu16.low_8nibble(), 0xCD);
    assert_eq!(NibblesU16::low_4nibble(0xABCDu16), 0x0D);
    assert_eq!(0xABCDu16.high_8nibble(), 0xAB);
    assert_eq!(0xABCDu16.low_12(), 0x0BCD);
    assert_eq!(NibblesU8::low_4nibble(0xABu8), 0x0B);
    assert_eq!(0xABu8.high_nibble(), 0x0A);
}

#[test]
fn signed_addition_flags() {
    assert_eq!(signed_addition(0xFFF8, 0x08), (0x0000, true, true));
    assert_eq!(signed_addition(0x0000, 0xFF), (0xFFFF, false, false));
    assert_eq!(signed_addition(0x000F, 0x01), (0x0010, true, false));
    assert_eq!(signed_addition(0x00F0, 0x10), (0x0100, false, true));
    assert_eq!(signed_addition(0x1234, 0x80), (0x11B4, false, false));
}

#[test]
fn add_with_half_carry_and_carry() {
    // A=0x88 added to itself: 0x10 with half-carry and carry
    assert_eq!(addition(0x88, 0x88), (0x10, false, false, true, true));
    assert_eq!(addition(0x0F, 0x01), (0x10, false, false, true, false));
    assert_eq!(addition(0xFF, 0x01), (0x00, true, false, true, true));
    assert_eq!(addition(0x15, 0x27), (0x3C, false, false, false, false));
    assert_eq!(adc(0xFF, 0x00, true), (0x00, true, false, true, true));
    assert_eq!(adc(0x0E, 0x01, true), (0x10, false, false, true, false));
    assert_eq!(adc(0x10, 0xFF, true), (0x10, false, false, true, true));
    assert_eq!(adc(0x01, 0x02, false), (0x03, false, false, false, false));
}

#[test]
fn subtract_with_borrow() {
    assert_eq!(subtraction(0x10, 0x01), (0x0F, false, true, true, false));
    assert_eq!(subtraction(0x00, 0x01), (0xFF, false, true, true, true));
    assert_eq!(subtraction(0x42, 0x42), (0x00, true, true, false, false));
    assert_eq!(sbc(0x00, 0x00, true), (0xFF, false, true, true, true));
    assert_eq!(sbc(0x10, 0x0F, true), (0x00, true, true, true, false));
    assert_eq!(sbc(0x05, 0x03, false), (0x02, false, true, false, false));
    assert_eq!(compare(0x42, 0x42), (true, true, false, false));
    assert_eq!(compare(0x10, 0x20), (false, true, false, true));
}

#[test]
fn increments_and_decrements() {
    assert_eq!(inc(0xFF), (0x00, true, false, true));
    assert_eq!(inc(0x0F), (0x10, false, false, true));
    assert_eq!(dec(0x01), (0x00, true, true, false));
    assert_eq!(dec(0x10), (0x0F, false, true, true));
    assert_eq!(dec(0x00), (0xFF, false, true, true));
    assert_eq!(inc_16bit(0xFFFF), 0x0000);
    assert_eq!(dec_16bit(0x0000), 0xFFFF);
    assert_eq!(addition_16bit(0x0FFF, 0x0001), (0x1000, false, true, false));
    assert_eq!(addition_16bit(0xFFFF, 0x0001), (0x0000, false, true, true));
    assert_eq!(addition_16bit(0x8000, 0x8000), (0x0000, false, false, true));
}

#[test]
fn logic_operations() {
    assert_eq!(and(0xF0, 0x0F), (0x00, true, false, true, false));
    assert_eq!(and(0xF3, 0x3F), (0x33, false, false, true, false));
    assert_eq!(or(0xF0, 0x0F), (0xFF, false, false, false, false));
    assert_eq!(or(0x00, 0x00), (0x00, true, false, false, false));
    assert_eq!(xor(0xFF, 0x0F), (0xF0, false, false, false, false));
    assert_eq!(xor(0x5A, 0x5A), (0x00, true, false, false, false));
    assert_eq!(complement(0x5A), 0xA5);
    assert_eq!(complement(complement(0x5A)), 0x5A);
    assert_eq!(xor(xor(0x12, 0x9C).0, 0x9C).0, 0x12);
}

#[test]
fn decimal_adjust() {
    // 0x15 + 0x27 = 0x3C, which is 42 in decimal
    assert_eq!(daa(0x3C, false, false, false), (0x42, false, false));
    assert_eq!(daa(0x9A, false, false, false), (0x00, true, true));
    assert_eq!(daa(0x00, true, false, false), (0x06, false, false));
    assert_eq!(daa(0x10, false, true, false), (0x70, false, true));
    // 0x42 - 0x15 = 0x2D with a half borrow
    assert_eq!(daa(0x2D, true, false, true), (0x27, false, false));
    assert_eq!(daa(0xA0, false, true, true), (0x40, false, true));
}

#[test]
fn rotates_and_shifts() {
    assert_eq!(rotate_left(0x85), (0x0B, false, false, false, true));
    assert_eq!(rotate_left(0x00), (0x00, true, false, false, false));
    assert_eq!(rotate_right(0x01), (0x80, false, false, false, true));
    assert_eq!(rotate_left_carry(0x80, false), (0x00, true, false, false, true));
    assert_eq!(rotate_left_carry(0x01, true), (0x03, false, false, false, false));
    assert_eq!(rotate_right_carry(0x01, false), (0x00, true, false, false, true));
    assert_eq!(rotate_right_carry(0x02, true), (0x81, false, false, false, false));
    assert_eq!(shift_left_arithmetic(0xC1), (0x82, false, false, false, true));
    assert_eq!(shift_right_arithmetic(0x81), (0xC0, false, false, false, true));
    assert_eq!(shift_right_logical(0x81), (0x40, false, false, false, true));
    assert_eq!(swap_nibble(0xA5), (0x5A, false, false, false, false));
    assert_eq!(swap_nibble(swap_nibble(0xA5).0).0, 0xA5);
    assert_eq!(swap_nibble(0x00), (0x00, true, false, false, false));
}

#[test]
fn single_bits() {
    assert_eq!(test_bit(0b0000_0100, 2), (false, false, true));
    assert_eq!(test_bit(0b0000_0100, 3), (true, false, true));
    assert_eq!(set_bit(0x00, 7), 0x80);
    assert_eq!(set_bit(0x80, 7), 0x80);
    assert_eq!(res_bit(0xFF, 0), 0xFE);
    assert_eq!(res_bit(0xFE, 0), 0xFE);
    assert_eq!(set_bit(0x12, 9), 0x12);
}

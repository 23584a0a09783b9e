use crate::util::u8_traits::{byte_bit, byte_with_bit, Bit, NibblesU16, NibblesU8};
use vstd::prelude::*;

verus! {

/// The signed reading of a byte: its value in two's complement.
pub open spec fn signed_byte(b: u8) -> int {
    if b < 128 {
        b as int
    } else {
        b as int - 256
    }
}

/// A sixteen-bit word moved by a signed byte, modulo 2^16, with the
/// half-carry and the carry of the unsigned addition of the low bytes.
pub open spec fn signed_addition_spec(a: u16, b: u8) -> (u16, bool, bool) {
    (
        ((a as int + signed_byte(b)) % 0x1_0000) as u16,
        (a % 16) + (b % 16) >= 16,
        (a % 256) + b >= 256,
    )
}

pub open spec fn addition_16bit_spec(a: u16, b: u16) -> (u16, bool, bool, bool) {
    (((a + b) % 0x1_0000) as u16, false, (a % 4096) + (b % 4096) > 0xFFF, a + b > 0xFFFF)
}

pub open spec fn dec_16bit_spec(a: u16) -> u16 {
    ((a as int - 1) % 0x1_0000) as u16
}

pub open spec fn inc_16bit_spec(a: u16) -> u16 {
    ((a + 1) % 0x1_0000) as u16
}

/// Sum of two bytes with an incoming carry: (result, zero, subtract,
/// half-carry, carry). The half-carry is the carry out of bit 3.
pub open spec fn adc_spec(a: u8, b: u8, c: bool) -> (u8, bool, bool, bool, bool) {
    let carry_in: int = if c { 1 } else { 0 };
    let sum = a + b + carry_in;
    ((sum % 256) as u8, sum % 256 == 0, false, (a % 16) + (b % 16) + carry_in > 15, sum > 255)
}

/// Difference of two bytes with an incoming borrow: (result, zero,
/// subtract, half-carry, carry). The half-carry is the borrow into bit 4.
pub open spec fn sbc_spec(a: u8, b: u8, c: bool) -> (u8, bool, bool, bool, bool) {
    let borrow_in: int = if c { 1 } else { 0 };
    let difference = a - b - borrow_in;
    (
        (difference % 256) as u8,
        difference % 256 == 0,
        true,
        (a % 16) < (b % 16) + borrow_in,
        a < b + borrow_in,
    )
}

pub open spec fn addition_spec(a: u8, b: u8) -> (u8, bool, bool, bool, bool) {
    adc_spec(a, b, false)
}

pub open spec fn subtraction_spec(a: u8, b: u8) -> (u8, bool, bool, bool, bool) {
    sbc_spec(a, b, false)
}

pub open spec fn inc_spec(a: u8) -> (u8, bool, bool, bool) {
    let r = addition_spec(a, 1);
    (r.0, r.1, false, r.3)
}

pub open spec fn dec_spec(a: u8) -> (u8, bool, bool, bool) {
    let r = subtraction_spec(a, 1);
    (r.0, r.1, true, r.3)
}

pub open spec fn and_spec(a: u8, b: u8) -> (u8, bool, bool, bool, bool) {
    (a & b, a & b == 0, false, true, false)
}

pub open spec fn xor_spec(a: u8, b: u8) -> (u8, bool, bool, bool, bool) {
    (a ^ b, a ^ b == 0, false, false, false)
}

pub open spec fn or_spec(a: u8, b: u8) -> (u8, bool, bool, bool, bool) {
    (a | b, a | b == 0, false, false, false)
}

pub open spec fn compare_spec(a: u8, b: u8) -> (bool, bool, bool, bool) {
    let r = subtraction_spec(a, b);
    (r.1, true, r.3, r.4)
}

pub open spec fn complement_spec(a: u8) -> u8 {
    (255 - a) as u8
}

/// What decimal adjustment adds to (after an addition) or takes from
/// (after a subtraction) the accumulator.
pub open spec fn daa_adjustment(a: u8, h: bool, c: bool, n: bool) -> int {
    let high: int = if c || (!n && a > 0x99) { 0x60 } else { 0 };
    let low: int = if h || (!n && a % 16 > 9) { 0x06 } else { 0 };
    high + low
}

/// Decimal adjustment of the accumulator: (result, zero, carry).
pub open spec fn daa_spec(a: u8, h: bool, c: bool, n: bool) -> (u8, bool, bool) {
    let adjustment = daa_adjustment(a, h, c, n);
    let result = if n { (a - adjustment) % 256 } else { (a + adjustment) % 256 };
    (result as u8, result == 0, c || (!n && a > 0x99))
}

pub open spec fn swap_nibble_spec(a: u8) -> (u8, bool, bool, bool, bool) {
    (((a % 16) * 16 + a / 16) as u8, a == 0, false, false, false)
}

pub open spec fn carry_bit(c: bool) -> int {
    if c {
        1
    } else {
        0
    }
}

pub open spec fn rotate_right_carry_spec(a: u8, carry: bool) -> (u8, bool, bool, bool, bool) {
    let res = a / 2 + 128 * carry_bit(carry);
    (res as u8, res == 0, false, false, a % 2 == 1)
}

pub open spec fn rotate_left_carry_spec(a: u8, carry: bool) -> (u8, bool, bool, bool, bool) {
    let res = (a * 2) % 256 + carry_bit(carry);
    (res as u8, res == 0, false, false, a >= 128)
}

pub open spec fn rotate_right_spec(a: u8) -> (u8, bool, bool, bool, bool) {
    rotate_right_carry_spec(a, a % 2 == 1)
}

pub open spec fn rotate_left_spec(a: u8) -> (u8, bool, bool, bool, bool) {
    rotate_left_carry_spec(a, a >= 128)
}

pub open spec fn shift_right_logical_spec(a: u8) -> (u8, bool, bool, bool, bool) {
    rotate_right_carry_spec(a, false)
}

pub open spec fn shift_right_arithmetic_spec(a: u8) -> (u8, bool, bool, bool, bool) {
    rotate_right_carry_spec(a, a >= 128)
}

pub open spec fn shift_left_arithmetic_spec(a: u8) -> (u8, bool, bool, bool, bool) {
    rotate_left_carry_spec(a, false)
}

pub open spec fn test_bit_spec(byte: u8, bit: u8) -> (bool, bool, bool) {
    (!byte_bit(byte, bit), false, true)
}

proof fn lemma_shift_forms(a: u8)
    by (bit_vector)
    ensures
        a >> 1u8 == a / 2,
        a < 128 ==> (a << 1u8) == a * 2,
        a >= 128 ==> (a << 1u8) == a * 2 - 256,
        a < 128 ==> ((a << 1u8) | 1) == a * 2 + 1,
        a >= 128 ==> ((a << 1u8) | 1) == a * 2 - 255,
        ((a >> 1u8) | 0x80) == a / 2 + 128,
        (a & 1 != 0) == (a % 2 == 1),
        (a & 0x80 != 0) == (a >= 128),
        (a ^ 0xFF) == 255 - a,
        (((a & 0x0F) << 4u8) | ((a & 0xF0) >> 4u8)) == (a % 16) * 16 + a / 16,
{
}

/// Adds `b`, read as a signed byte, to `a`. Returns (result, half-carry,
/// carry); the two flags come from the unsigned addition of the low bytes.
pub fn signed_addition(a: u16, b: u8) -> (r: (u16, bool, bool))
    ensures
        r == signed_addition_spec(a, b),
{
    let overflow = a.low_8nibble() as u16 + b as u16 >= 256;
    let half_carry = NibblesU16::low_4nibble(a) + NibblesU8::low_4nibble(b) >= 16;
    let result = if b < 128 {
        a.wrapping_add(b as u16)
    } else {
        a.wrapping_sub(256 - b as u16)
    };
    (result, half_carry, overflow)
}

/// Sum of two words: (result, subtract, half-carry, carry). The half-carry
/// is the carry out of bit 11.
pub fn addition_16bit(a: u16, b: u16) -> (r: (u16, bool, bool, bool))
    ensures
        r == addition_16bit_spec(a, b),
{
    let result = a.wrapping_add(b);
    let carry = a as u32 + b as u32 > 0xFFFF;
    let halfcarry = (a.low_12() + b.low_12()) > 0xFFF;
    (result, false, halfcarry, carry)
}

/// A word less one, modulo 2^16.
pub fn dec_16bit(a: u16) -> (r: u16)
    ensures
        r == dec_16bit_spec(a),
{
    a.wrapping_sub(1)
}

/// A word plus one, modulo 2^16.
pub fn inc_16bit(a: u16) -> (r: u16)
    ensures
        r == inc_16bit_spec(a),
{
    a.wrapping_add(1)
}

/// Sum of two bytes: (result, zero, subtract, half-carry, carry).
pub fn addition(a: u8, b: u8) -> (r: (u8, bool, bool, bool, bool))
    ensures
        r == addition_spec(a, b),
{
    let result = a.wrapping_add(b);
    let carry = a as u16 + b as u16 > 255;
    let halfcarry = (a.low_4nibble() + b.low_4nibble()) > 15;
    (result, result == 0, false, halfcarry, carry)
}

/// Difference of two bytes: (result, zero, subtract, half-carry, carry).
pub fn subtraction(a: u8, b: u8) -> (r: (u8, bool, bool, bool, bool))
    ensures
        r == subtraction_spec(a, b),
{
    let carry = a < b;
    let result = a.wrapping_sub(b);
    let halfcarry = a.low_4nibble() < b.low_4nibble();
    (result, result == 0, true, halfcarry, carry)
}

/// Sum of two bytes and the carry: (result, zero, subtract, half-carry,
/// carry).
pub fn adc(a: u8, b: u8, c: bool) -> (r: (u8, bool, bool, bool, bool))
    ensures
        r == adc_spec(a, b, c),
{
    // the carry is added first; either addition may carry
    let mut b = b;
    let mut half_carry2 = false;
    let mut carry2 = false;
    if c {
        let with_carry = addition(b, 1);
        b = with_carry.0;
        half_carry2 = with_carry.3;
        carry2 = with_carry.4;
    }
    let (result, z, _, halfcarry, carry) = addition(a, b);
    (result, z, false, halfcarry || half_carry2, carry || carry2)
}

/// Difference of two bytes and the carry: (result, zero, subtract,
/// half-carry, carry).
pub fn sbc(a: u8, b: u8, c: bool) -> (r: (u8, bool, bool, bool, bool))
    ensures
        r == sbc_spec(a, b, c),
{
    // the borrow is taken first; either subtraction may borrow
    let mut half_carry2 = false;
    let mut carry2 = false;
    let mut res1 = a;
    if c {
        let without_carry = subtraction(a, 1);
        res1 = without_carry.0;
        half_carry2 = without_carry.3;
        carry2 = without_carry.4;
    }
    let (result, z, _, halfcarry, carry) = subtraction(res1, b);
    (result, z, true, halfcarry || half_carry2, carry || carry2)
}

/// A byte plus one: (result, zero, subtract, half-carry).
pub fn inc(a: u8) -> (r: (u8, bool, bool, bool))
    ensures
        r == inc_spec(a),
{
    let (res, z, _, h, _) = addition(a, 1);
    (res, z, false, h)
}

/// A byte less one: (result, zero, subtract, half-carry).
pub fn dec(a: u8) -> (r: (u8, bool, bool, bool))
    ensures
        r == dec_spec(a),
{
    let (res, z, _, h, _) = subtraction(a, 1);
    (res, z, true, h)
}

/// AND of two bytes: (result, zero, subtract, half-carry, carry).
pub fn and(a: u8, b: u8) -> (r: (u8, bool, bool, bool, bool))
    ensures
        r == and_spec(a, b),
{
    let res = a & b;
    (res, res == 0, false, true, false)
}

/// XOR of two bytes: (result, zero, subtract, half-carry, carry).
pub fn xor(a: u8, b: u8) -> (r: (u8, bool, bool, bool, bool))
    ensures
        r == xor_spec(a, b),
{
    let res = a ^ b;
    (res, res == 0, false, false, false)
}

/// OR of two bytes: (result, zero, subtract, half-carry, carry).
pub fn or(a: u8, b: u8) -> (r: (u8, bool, bool, bool, bool))
    ensures
        r == or_spec(a, b),
{
    let res = a | b;
    (res, res == 0, false, false, false)
}

/// Comparison of two bytes: the flags of their difference, (zero,
/// subtract, half-carry, carry).
pub fn compare(a: u8, b: u8) -> (r: (bool, bool, bool, bool))
    ensures
        r == compare_spec(a, b),
{
    let (_, z, _, h, c) = subtraction(a, b);
    (z, true, h, c)
}

/// The complement of a byte.
pub fn complement(a: u8) -> (r: u8)
    ensures
        r == complement_spec(a),
{
    proof {
        lemma_shift_forms(a);
    }
    a ^ 0xFF
}

/// Decimal adjustment of the accumulator: (result, zero, carry).
pub fn daa(a: u8, h: bool, c: bool, n: bool) -> (r: (u8, bool, bool))
    ensures
        r == daa_spec(a, h, c, n),
{
    let mut new_a = a;
    let mut carry = false;
    if n {
        carry = c;
        if c {
            new_a = subtraction(new_a, 0x60).0;
        }
        if h {
            new_a = subtraction(new_a, 0x06).0;
        }
    } else {
        if c || (new_a > 0x99) {
            carry = true;
            new_a = addition(new_a, 0x60).0;
        }
        if h || (new_a.low_4nibble() > 0x09) {
            new_a = addition(new_a, 0x06).0;
        }
    }
    (new_a, new_a == 0, carry)
}

/// The byte with its halves swapped: (result, zero, subtract, half-carry,
/// carry).
pub fn swap_nibble(a: u8) -> (r: (u8, bool, bool, bool, bool))
    ensures
        r == swap_nibble_spec(a),
{
    proof {
        lemma_shift_forms(a);
    }
    let res = ((a & 0x0F) << 4) | ((a & 0xF0) >> 4);
    (res, res == 0, false, false, false)
}

/// Rotation to the right through the carry: (result, zero, subtract,
/// half-carry, carry).
pub fn rotate_right_carry(a: u8, carry: bool) -> (r: (u8, bool, bool, bool, bool))
    ensures
        r == rotate_right_carry_spec(a, carry),
{
    proof {
        lemma_shift_forms(a);
    }
    let overflow = a.get_bit(0);
    let mut res = a >> 1;
    if carry {
        res = res | 0x80;
    }
    (res, res == 0, false, false, overflow)
}

/// Rotation to the left through the carry: (result, zero, subtract,
/// half-carry, carry).
pub fn rotate_left_carry(a: u8, carry: bool) -> (r: (u8, bool, bool, bool, bool))
    ensures
        r == rotate_left_carry_spec(a, carry),
{
    proof {
        lemma_shift_forms(a);
    }
    let overflow = a.get_bit(7);
    let mut res = a << 1;
    if carry {
        res = res | 1;
    }
    (res, res == 0, false, false, overflow)
}

/// Rotation to the right: (result, zero, subtract, half-carry, carry).
pub fn rotate_right(a: u8) -> (r: (u8, bool, bool, bool, bool))
    ensures
        r == rotate_right_spec(a),
{
    rotate_right_carry(a, a.get_bit(0))
}

/// Rotation to the left: (result, zero, subtract, half-carry, carry).
pub fn rotate_left(a: u8) -> (r: (u8, bool, bool, bool, bool))
    ensures
        r == rotate_left_spec(a),
{
    rotate_left_carry(a, a.get_bit(7))
}

/// Shift to the right, a zero coming in: (result, zero, subtract,
/// half-carry, carry).
pub fn shift_right_logical(a: u8) -> (r: (u8, bool, bool, bool, bool))
    ensures
        r == shift_right_logical_spec(a),
{
    rotate_right_carry(a, false)
}

/// Shift to the right, the top bit staying: (result, zero, subtract,
/// half-carry, carry).
pub fn shift_right_arithmetic(a: u8) -> (r: (u8, bool, bool, bool, bool))
    ensures
        r == shift_right_arithmetic_spec(a),
{
    let sign = a.get_bit(7);
    rotate_right_carry(a, sign)
}

/// Shift to the left, a zero coming in: (result, zero, subtract,
/// half-carry, carry).
pub fn shift_left_arithmetic(a: u8) -> (r: (u8, bool, bool, bool, bool))
    ensures
        r == shift_left_arithmetic_spec(a),
{
    rotate_left_carry(a, false)
}

/// BIT: (zero, subtract, half-carry); zero is set when the bit is clear.
pub fn test_bit(byte: u8, bit: u8) -> (r: (bool, bool, bool))
    ensures
        r == test_bit_spec(byte, bit),
{
    let res = byte.get_bit(bit);
    (!res, false, true)
}

/// SET: the byte with the bit set.
pub fn set_bit(byte: u8, bit: u8) -> (r: u8)
    ensures
        r == byte_with_bit(byte, bit, true),
{
    let mut res = byte;
    res.set_bit(bit, true);
    res
}

/// RES: the byte with the bit cleared.
pub fn res_bit(byte: u8, bit: u8) -> (r: u8)
    ensures
        r == byte_with_bit(byte, bit, false),
{
    let mut res = byte;
    res.set_bit(bit, false);
    res
}

proof fn lemma_xor_cancels(a: u8, x: u8)
    by (bit_vector)
    ensures
        (a ^ x) ^ x == a,
        a ^ a == 0,
{
}

/// Exclusive-or with the same byte twice gives the first byte back, and a
/// byte exclusive-or'ed with itself is zero.
pub proof fn lemma_xor_twice(a: u8, x: u8)
    ensures
        xor_spec(xor_spec(a, x).0, x).0 == a,
        xor_spec(a, a).0 == 0,
        xor_spec(xor_spec(a, a).0, xor_spec(a, a).0).0 == 0,
{
    lemma_xor_cancels(a, x);
    lemma_xor_cancels(0, 0);
}

/// Swapping the halves of a byte twice gives the byte back.
pub proof fn lemma_swap_twice(a: u8)
    ensures
        swap_nibble_spec(swap_nibble_spec(a).0).0 == a,
{
}

/// Complementing a byte twice gives the byte back.
pub proof fn lemma_complement_twice(a: u8)
    ensures
        complement_spec(complement_spec(a)) == a,
{
}

} // verus!

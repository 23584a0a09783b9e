use crate::util::opcode_dict_util::NopreOperands;
use crate::util::u8_traits::{bit_mask, byte_bit, byte_with_bit};
use vstd::prelude::*;

verus! {

/// The low byte of a register pair.
pub open spec fn word_low(word: u16) -> u8 {
    (word % 256) as u8
}

/// The high byte of a register pair.
pub open spec fn word_high(word: u16) -> u8 {
    (word / 256) as u8
}

/// The register pair made of a high and a low byte.
pub open spec fn word_of(high: u8, low: u8) -> u16 {
    (high * 256 + low) as u16
}

/// Whether bit `bit` of the low byte of `word` is set.
pub open spec fn word_bit(word: u16, bit: u8) -> bool {
    byte_bit(word_low(word), bit)
}

/// `word` with bit `bit` of its low byte forced to `value`.
pub open spec fn word_with_bit(word: u16, bit: u8, value: bool) -> u16 {
    word_of(word_high(word), byte_with_bit(word_low(word), bit, value))
}

proof fn lemma_word_ops(word: u16, byte: u8)
    by (bit_vector)
    ensures
        word & 0xFF == word % 256,
        (word >> 8u16) & 0xFF == word / 256,
        (word & 0xFF00) | (byte as u16) == (word / 256) * 256 + byte,
        (word & 0x00FF) | ((byte as u16) << 8u16) == byte * 256 + word % 256,
{
}

proof fn lemma_word_mask(word: u16, mask: u16)
    by (bit_vector)
    requires
        mask == 1 || mask == 2 || mask == 4 || mask == 8 || mask == 16 || mask == 32 || mask == 64
            || mask == 128,
    ensures
        (word & mask != 0) == (((word % 256) / mask) % 2 == 1),
        (word & mask != 0) ==> (word | mask) == word,
        (word & mask == 0) ==> (word | mask) == word + mask,
        (word & mask != 0) ==> (word & (mask ^ 0xFFFF)) == word - mask,
        (word & mask == 0) ==> (word & (mask ^ 0xFFFF)) == word,
        word | 0 == word,
        word & (0u16 ^ 0xFFFF) == word,
        word & 0 == 0,
{
}

pub fn get_bit(bytes: &u16, bit: u8) -> (set: bool)
    ensures
        set == word_bit(*bytes, bit),
{
    let mask: u16 = match bit {
        0 => 1,
        1 => 2,
        2 => 4,
        3 => 8,
        4 => 16,
        5 => 32,
        6 => 64,
        7 => 128,
        _ => 0,
    };
    proof {
        lemma_word_mask(*bytes, if bit < 8 { mask } else { 1 });
    }
    (*bytes & mask) != 0
}

pub fn set_bit(bytes: &mut u16, bit: u8, value: bool)
    ensures
        *final(bytes) == word_with_bit(*old(bytes), bit, value),
{
    let mask: u16 = match bit {
        0 => 1,
        1 => 2,
        2 => 4,
        3 => 8,
        4 => 16,
        5 => 32,
        6 => 64,
        7 => 128,
        _ => 0,
    };
    proof {
        lemma_word_mask(*bytes, if bit < 8 { mask } else { 1 });
    }
    if value {
        *bytes = *bytes | mask;
    } else {
        *bytes = *bytes & (mask ^ u16::MAX)
    }
}

pub fn set_low(bytes: &mut u16, byte: u8)
    ensures
        *final(bytes) == word_of(word_high(*old(bytes)), byte),
{
    proof {
        lemma_word_ops(*bytes, byte);
    }
    *bytes = (*bytes & 0xFF00) | (byte as u16);
}

pub fn set_high(bytes: &mut u16, byte: u8)
    ensures
        *final(bytes) == word_of(byte, word_low(*old(bytes))),
{
    proof {
        lemma_word_ops(*bytes, byte);
    }
    *bytes = (*bytes & 0x00FF) | ((byte as u16) << 8);
}

pub fn get_low(bytes: &u16) -> (byte: u8)
    ensures
        byte == word_low(*bytes),
{
    proof {
        lemma_word_ops(*bytes, 0);
    }
    (*bytes & 0xFF) as u8
}

pub fn get_high(bytes: &u16) -> (byte: u8)
    ensures
        byte == word_high(*bytes),
{
    proof {
        lemma_word_ops(*bytes, 0);
    }
    (*bytes >> 8 & 0xFF) as u8
}

/// The register file: four pairs of 8-bit registers, the stack pointer and
/// the program counter.
#[derive(Debug, Clone, Copy, PartialEq, Eq, Structural)]
pub struct Registers {
    /// Acculmulator & Flag
    /// F bit :
    /// 7 zero flag
    /// 6 Subtraction flag
    /// 5 Half Carry flag
    /// 4 Carry flag
    pub af: u16,
    pub bc: u16,
    pub de: u16,
    pub hl: u16,
    /// Stackpointer
    pub sp: u16,
    /// Program counter/Pointer
    pub pc: u16,
}

impl Registers {
    /// The low four bits of the flag register are zero.
    pub open spec fn wf(self) -> bool {
        self.af % 16 == 0
    }

    pub open spec fn spec_a(&self) -> u8 {
        word_high(self.af)
    }

    pub open spec fn spec_f(&self) -> u8 {
        word_low(self.af)
    }

    pub open spec fn spec_b(&self) -> u8 {
        word_high(self.bc)
    }

    pub open spec fn spec_c(&self) -> u8 {
        word_low(self.bc)
    }

    pub open spec fn spec_d(&self) -> u8 {
        word_high(self.de)
    }

    pub open spec fn spec_e(&self) -> u8 {
        word_low(self.de)
    }

    pub open spec fn spec_h(&self) -> u8 {
        word_high(self.hl)
    }

    pub open spec fn spec_l(&self) -> u8 {
        word_low(self.hl)
    }

    pub open spec fn spec_flag_z(&self) -> bool {
        word_bit(self.af, 7)
    }

    pub open spec fn spec_flag_n(&self) -> bool {
        word_bit(self.af, 6)
    }

    pub open spec fn spec_flag_h(&self) -> bool {
        word_bit(self.af, 5)
    }

    pub open spec fn spec_flag_c(&self) -> bool {
        word_bit(self.af, 4)
    }

    pub open spec fn with_a(self, val: u8) -> Registers {
        Registers { af: word_of(val, word_low(self.af)), ..self }
    }

    pub open spec fn with_b(self, val: u8) -> Registers {
        Registers { bc: word_of(val, word_low(self.bc)), ..self }
    }

    pub open spec fn with_c(self, val: u8) -> Registers {
        Registers { bc: word_of(word_high(self.bc), val), ..self }
    }

    pub open spec fn with_d(self, val: u8) -> Registers {
        Registers { de: word_of(val, word_low(self.de)), ..self }
    }

    pub open spec fn with_e(self, val: u8) -> Registers {
        Registers { de: word_of(word_high(self.de), val), ..self }
    }

    pub open spec fn with_h(self, val: u8) -> Registers {
        Registers { hl: word_of(val, word_low(self.hl)), ..self }
    }

    pub open spec fn with_l(self, val: u8) -> Registers {
        Registers { hl: word_of(word_high(self.hl), val), ..self }
    }

    pub open spec fn with_flag_z(self, value: bool) -> Registers {
        Registers { af: word_with_bit(self.af, 7, value), ..self }
    }

    pub open spec fn with_flag_n(self, value: bool) -> Registers {
        Registers { af: word_with_bit(self.af, 6, value), ..self }
    }

    pub open spec fn with_flag_h(self, value: bool) -> Registers {
        Registers { af: word_with_bit(self.af, 5, value), ..self }
    }

    pub open spec fn with_flag_c(self, value: bool) -> Registers {
        Registers { af: word_with_bit(self.af, 4, value), ..self }
    }

    pub open spec fn with_flags(self, z: bool, n: bool, h: bool, c: bool) -> Registers {
        self.with_flag_z(z).with_flag_n(n).with_flag_h(h).with_flag_c(c)
    }

    /// The 8-bit register that an operand names, if it names one.
    pub open spec fn spec_get(self, operand: NopreOperands) -> u8 {
        match operand {
            NopreOperands::A => self.spec_a(),
            NopreOperands::B => self.spec_b(),
            NopreOperands::C => self.spec_c(),
            NopreOperands::D => self.spec_d(),
            NopreOperands::E => self.spec_e(),
            NopreOperands::H => self.spec_h(),
            NopreOperands::L => self.spec_l(),
            _ => 0,
        }
    }

    /// The register file with the 8-bit register that an operand names set
    /// to `val`; unchanged if the operand names none.
    pub open spec fn with_byte_reg(self, operand: NopreOperands, val: u8) -> Registers {
        match operand {
            NopreOperands::A => self.with_a(val),
            NopreOperands::B => self.with_b(val),
            NopreOperands::C => self.with_c(val),
            NopreOperands::D => self.with_d(val),
            NopreOperands::E => self.with_e(val),
            NopreOperands::H => self.with_h(val),
            NopreOperands::L => self.with_l(val),
            _ => self,
        }
    }

    /// The register pair that an operand names, if it names one.
    pub open spec fn spec_get_pair(self, operand: NopreOperands) -> u16 {
        match operand {
            NopreOperands::AF => self.af,
            NopreOperands::BC => self.bc,
            NopreOperands::DE => self.de,
            NopreOperands::HL => self.hl,
            NopreOperands::SP => self.sp,
            _ => 0,
        }
    }

    /// The register file with the pair that an operand names set to `val`.
    /// The low four bits of the flag register stay zero.
    pub open spec fn with_pair(self, operand: NopreOperands, val: u16) -> Registers {
        match operand {
            NopreOperands::AF => Registers { af: (val - val % 16) as u16, ..self },
            NopreOperands::BC => Registers { bc: val, ..self },
            NopreOperands::DE => Registers { de: val, ..self },
            NopreOperands::HL => Registers { hl: val, ..self },
            NopreOperands::SP => Registers { sp: val, ..self },
            _ => self,
        }
    }

    pub fn new() -> (r: Registers)
        ensures
            r == (Registers { af: 0, bc: 0, de: 0, hl: 0, sp: 0, pc: 0 }),
            r.wf(),
    {
        Registers { af: 0, bc: 0, de: 0, hl: 0, sp: 0, pc: 0 }
    }

    /// The register file as the boot program leaves it.
    pub fn new_doctor() -> (r: Registers)
        ensures
            r == (Registers {
                af: 0x01B0,
                bc: 0x0013,
                de: 0x00D8,
                hl: 0x014D,
                sp: 0xFFFE,
                pc: 0x0100,
            }),
            r.wf(),
    {
        Registers { af: 0x01B0, bc: 0x0013, de: 0x00D8, hl: 0x014D, sp: 0xFFFE, pc: 0x0100 }
    }

    pub fn set_flags(&mut self, z: bool, n: bool, h: bool, c: bool)
        ensures
            *final(self) == old(self).with_flags(z, n, h, c),
            old(self).wf() ==> final(self).wf(),
    {
        self.set_flag_z(z);
        self.set_flag_n(n);
        self.set_flag_h(h);
        self.set_flag_c(c);
    }

    pub fn set_flag_z(&mut self, value: bool)
        ensures
            *final(self) == old(self).with_flag_z(value),
            old(self).wf() ==> final(self).wf(),
    {
        proof {
            lemma_word_with_bit(self.af, 7, value);
        }
        set_bit(&mut self.af, 7, value);
    }

    pub fn set_flag_n(&mut self, value: bool)
        ensures
            *final(self) == old(self).with_flag_n(value),
            old(self).wf() ==> final(self).wf(),
    {
        proof {
            lemma_word_with_bit(self.af, 6, value);
        }
        set_bit(&mut self.af, 6, value);
    }

    pub fn set_flag_h(&mut self, value: bool)
        ensures
            *final(self) == old(self).with_flag_h(value),
            old(self).wf() ==> final(self).wf(),
    {
        proof {
            lemma_word_with_bit(self.af, 5, value);
        }
        set_bit(&mut self.af, 5, value);
    }

    pub fn set_flag_c(&mut self, value: bool)
        ensures
            *final(self) == old(self).with_flag_c(value),
            old(self).wf() ==> final(self).wf(),
    {
        proof {
            lemma_word_with_bit(self.af, 4, value);
        }
        set_bit(&mut self.af, 4, value);
    }

    #[verifier::when_used_as_spec(spec_flag_z)]
    pub fn flag_z(&self) -> (set: bool)
        ensures
            set == self.spec_flag_z(),
    {
        return get_bit(&self.af, 7);
    }

    #[verifier::when_used_as_spec(spec_flag_n)]
    pub fn flag_n(&self) -> (set: bool)
        ensures
            set == self.spec_flag_n(),
    {
        return get_bit(&self.af, 6);
    }

    #[verifier::when_used_as_spec(spec_flag_h)]
    pub fn flag_h(&self) -> (set: bool)
        ensures
            set == self.spec_flag_h(),
    {
        return get_bit(&self.af, 5);
    }

    #[verifier::when_used_as_spec(spec_flag_c)]
    pub fn flag_c(&self) -> (set: bool)
        ensures
            set == self.spec_flag_c(),
    {
        return get_bit(&self.af, 4);
    }

    pub fn set_a(&mut self, val: u8)
        ensures
            *final(self) == old(self).with_a(val),
            old(self).wf() ==> final(self).wf(),
    {
        set_high(&mut self.af, val);
    }

    pub fn set_b(&mut self, val: u8)
        ensures
            *final(self) == old(self).with_b(val),
            old(self).wf() ==> final(self).wf(),
    {
        set_high(&mut self.bc, val);
    }

    pub fn set_d(&mut self, val: u8)
        ensures
            *final(self) == old(self).with_d(val),
            old(self).wf() ==> final(self).wf(),
    {
        set_high(&mut self.de, val);
    }

    pub fn set_h(&mut self, val: u8)
        ensures
            *final(self) == old(self).with_h(val),
            old(self).wf() ==> final(self).wf(),
    {
        set_high(&mut self.hl, val);
    }

    pub fn set_c(&mut self, val: u8)
        ensures
            *final(self) == old(self).with_c(val),
            old(self).wf() ==> final(self).wf(),
    {
        set_low(&mut self.bc, val);
    }

    pub fn set_e(&mut self, val: u8)
        ensures
            *final(self) == old(self).with_e(val),
            old(self).wf() ==> final(self).wf(),
    {
        set_low(&mut self.de, val);
    }

    pub fn set_l(&mut self, val: u8)
        ensures
            *final(self) == old(self).with_l(val),
            old(self).wf() ==> final(self).wf(),
    {
        set_low(&mut self.hl, val);
    }

    #[verifier::when_used_as_spec(spec_a)]
    pub fn get_a(&self) -> (val: u8)
        ensures
            val == self.spec_a(),
    {
        return get_high(&self.af);
    }

    #[verifier::when_used_as_spec(spec_f)]
    pub fn get_f(&self) -> (val: u8)
        ensures
            val == self.spec_f(),
    {
        return get_low(&self.af);
    }

    #[verifier::when_used_as_spec(spec_b)]
    pub fn get_b(&self) -> (val: u8)
        ensures
            val == self.spec_b(),
    {
        return get_high(&self.bc);
    }

    #[verifier::when_used_as_spec(spec_d)]
    pub fn get_d(&self) -> (val: u8)
        ensures
            val == self.spec_d(),
    {
        return get_high(&self.de);
    }

    #[verifier::when_used_as_spec(spec_h)]
    pub fn get_h(&self) -> (val: u8)
        ensures
            val == self.spec_h(),
    {
        return get_high(&self.hl);
    }

    #[verifier::when_used_as_spec(spec_c)]
    pub fn get_c(&self) -> (val: u8)
        ensures
            val == self.spec_c(),
    {
        return get_low(&self.bc);
    }

    #[verifier::when_used_as_spec(spec_e)]
    pub fn get_e(&self) -> (val: u8)
        ensures
            val == self.spec_e(),
    {
        return get_low(&self.de);
    }

    #[verifier::when_used_as_spec(spec_l)]
    pub fn get_l(&self) -> (val: u8)
        ensures
            val == self.spec_l(),
    {
        return get_low(&self.hl);
    }

    /// The value of the 8-bit register that `operand` names; zero if it
    /// names none.
    pub fn get(&self, operand: &NopreOperands) -> (val: u8)
        ensures
            val == self.spec_get(*operand),
    {
        match operand {
            NopreOperands::A => self.get_a(),
            NopreOperands::B => self.get_b(),
            NopreOperands::C => self.get_c(),
            NopreOperands::D => self.get_d(),
            NopreOperands::E => self.get_e(),
            NopreOperands::H => self.get_h(),
            NopreOperands::L => self.get_l(),
            _ => 0,
        }
    }

    /// Sets the 8-bit register that `operand` names; does nothing if it
    /// names none.
    pub fn set_byte_reg(&mut self, operand: &NopreOperands, val: u8)
        ensures
            *final(self) == old(self).with_byte_reg(*operand, val),
            old(self).wf() ==> final(self).wf(),
    {
        match operand {
            NopreOperands::A => self.set_a(val),
            NopreOperands::B => self.set_b(val),
            NopreOperands::C => self.set_c(val),
            NopreOperands::D => self.set_d(val),
            NopreOperands::E => self.set_e(val),
            NopreOperands::H => self.set_h(val),
            NopreOperands::L => self.set_l(val),
            _ => (),
        }
    }

    /// The value of the register pair that `operand` names; zero if it
    /// names none.
    pub fn get_pair(&self, operand: &NopreOperands) -> (val: u16)
        ensures
            val == self.spec_get_pair(*operand),
    {
        match operand {
            NopreOperands::AF => self.af,
            NopreOperands::BC => self.bc,
            NopreOperands::DE => self.de,
            NopreOperands::HL => self.hl,
            NopreOperands::SP => self.sp,
            _ => 0,
        }
    }

    /// Sets the register pair that `operand` names, keeping the low four
    /// bits of the flag register zero; does nothing if it names none.
    pub fn set_pair(&mut self, operand: &NopreOperands, val: u16)
        ensures
            *final(self) == old(self).with_pair(*operand, val),
            old(self).wf() ==> final(self).wf(),
    {
        match operand {
            NopreOperands::AF => {
                proof {
                    assert(val & 0xFFF0 == val - val % 16) by (bit_vector);
                }
                self.af = val & 0xFFF0
            },
            NopreOperands::BC => self.bc = val,
            NopreOperands::DE => self.de = val,
            NopreOperands::HL => self.hl = val,
            NopreOperands::SP => self.sp = val,
            _ => (),
        }
    }

    /// return pc + 0x0001 the address of the byte after the pointer pc
    pub fn get_pc_next(&self) -> (next: u16)
        ensures
            next == ((self.pc + 1) % 0x1_0000) as u16,
    {
        return self.pc.wrapping_add(0x0001);
    }

    pub fn hl_plus(&mut self)
        ensures
            *final(self) == (Registers { hl: ((old(self).hl + 1) % 0x1_0000) as u16, ..*old(self) }),
            old(self).wf() ==> final(self).wf(),
    {
        self.hl = self.hl.wrapping_add(1);
    }

    pub fn hl_minus(&mut self)
        ensures
            *final(self) == (Registers {
                hl: ((old(self).hl as int - 1) % 0x1_0000) as u16,
                ..*old(self)
            }),
            old(self).wf() ==> final(self).wf(),
    {
        self.hl = self.hl.wrapping_sub(1);
    }
}

/// Forcing one of the four flag bits of a word gives that bit the value and
/// leaves the other three, the high byte and the low four bits alone.
pub proof fn lemma_word_with_bit(word: u16, bit: u8, value: bool)
    requires
        4 <= bit < 8,
    ensures
        word_bit(word_with_bit(word, bit, value), bit) == value,
        forall|other: u8|
            4 <= other < 8 && other != bit ==> word_bit(word_with_bit(word, bit, value), other)
                == word_bit(word, other),
        word_high(word_with_bit(word, bit, value)) == word_high(word),
        word_with_bit(word, bit, value) % 16 == word % 16,
{
    let low = word_low(word);
    let changed = byte_with_bit(low, bit, value);
    assert(byte_bit(changed, bit) == value && changed % 16 == low % 16 && (forall|other: u8|
        4 <= other < 8 && other != bit ==> byte_bit(changed, other) == byte_bit(low, other))) by {
        lemma_byte_with_bit(low, bit, value);
    }
}

proof fn lemma_flag_masks(byte: u8, mask: u8, other: u8)
    by (bit_vector)
    requires
        mask == 16 || mask == 32 || mask == 64 || mask == 128,
        other == 16 || other == 32 || other == 64 || other == 128,
    ensures
        ((byte | mask) / mask) % 2 == 1,
        ((byte & (mask ^ 0xFF)) / mask) % 2 == 0,
        (byte | mask) % 16 == byte % 16,
        (byte & (mask ^ 0xFF)) % 16 == byte % 16,
        other != mask ==> ((byte | mask) / other) % 2 == (byte / other) % 2,
        other != mask ==> ((byte & (mask ^ 0xFF)) / other) % 2 == (byte / other) % 2,
        (byte / mask) % 2 == 0 ==> (byte | mask) == byte + mask,
        (byte / mask) % 2 == 1 ==> (byte & (mask ^ 0xFF)) == byte - mask,
{
}

proof fn lemma_byte_with_bit(byte: u8, bit: u8, value: bool)
    requires
        4 <= bit < 8,
    ensures
        byte_bit(byte_with_bit(byte, bit, value), bit) == value,
        byte_with_bit(byte, bit, value) % 16 == byte % 16,
        forall|other: u8|
            4 <= other < 8 && other != bit ==> byte_bit(byte_with_bit(byte, bit, value), other)
                == byte_bit(byte, other),
{
    let mask = bit_mask(bit);
    lemma_flag_masks(byte, mask, 16);
    lemma_flag_masks(byte, mask, 32);
    lemma_flag_masks(byte, mask, 64);
    lemma_flag_masks(byte, mask, 128);
    assert forall|other: u8| 4 <= other < 8 && other != bit implies byte_bit(
        byte_with_bit(byte, bit, value),
        other,
    ) == byte_bit(byte, other) by {
        let m = bit_mask(other);
        assert(m == 16 || m == 32 || m == 64 || m == 128);
    }
}

/// Setting a flag gives that flag the value, and leaves the accumulator,
/// the other flags and the zero low bits of the flag register as they were.
pub proof fn lemma_flags_independent(r: Registers, z: bool, n: bool, h: bool, c: bool)
    ensures
        r.with_flags(z, n, h, c).spec_flag_z() == z,
        r.with_flags(z, n, h, c).spec_flag_n() == n,
        r.with_flags(z, n, h, c).spec_flag_h() == h,
        r.with_flags(z, n, h, c).spec_flag_c() == c,
        r.with_flags(z, n, h, c).spec_a() == r.spec_a(),
        r.with_flags(z, n, h, c).af % 16 == r.af % 16,
        r.with_flags(z, n, h, c) == (Registers { af: r.with_flags(z, n, h, c).af, ..r }),
{
    let r1 = r.with_flag_z(z);
    let r2 = r1.with_flag_n(n);
    let r3 = r2.with_flag_h(h);
    lemma_word_with_bit(r.af, 7, z);
    lemma_word_with_bit(r1.af, 6, n);
    lemma_word_with_bit(r2.af, 5, h);
    lemma_word_with_bit(r3.af, 4, c);
}

/// Whether an operand names one of the seven 8-bit registers.
pub open spec fn is_byte_register(name: NopreOperands) -> bool {
    name == NopreOperands::A || name == NopreOperands::B || name == NopreOperands::C || name
        == NopreOperands::D || name == NopreOperands::E || name == NopreOperands::H || name
        == NopreOperands::L
}

/// A register that was written holds what was written, and the other
/// 8-bit registers, the stack pointer and the program counter keep what
/// they held.
pub proof fn lemma_byte_reg_written(r: Registers, name: NopreOperands, val: u8)
    requires
        is_byte_register(name),
    ensures
        r.with_byte_reg(name, val).spec_get(name) == val,
        forall|other: NopreOperands|
            is_byte_register(other) && other != name ==> r.with_byte_reg(name, val).spec_get(other)
                == r.spec_get(other),
        r.with_byte_reg(name, val).sp == r.sp,
        r.with_byte_reg(name, val).pc == r.pc,
        name != NopreOperands::A ==> r.with_byte_reg(name, val).af == r.af,
        name == NopreOperands::A ==> r.with_byte_reg(name, val).spec_f() == r.spec_f(),
        r.with_byte_reg(name, r.spec_get(name)) == r,
{
}

/// Setting the flags changes no register but the flag register.
pub proof fn lemma_flags_keep_registers(r: Registers, z: bool, n: bool, h: bool, c: bool)
    ensures
        forall|name: NopreOperands|
            is_byte_register(name) ==> r.with_flags(z, n, h, c).spec_get(name) == r.spec_get(name),
        r.with_flags(z, n, h, c).bc == r.bc,
        r.with_flags(z, n, h, c).de == r.de,
        r.with_flags(z, n, h, c).hl == r.hl,
        r.with_flags(z, n, h, c).sp == r.sp,
        r.with_flags(z, n, h, c).pc == r.pc,
{
    lemma_flags_independent(r, z, n, h, c);
}

/// Writing the accumulator leaves the flags as they were.
pub proof fn lemma_accumulator_keeps_flags(r: Registers, val: u8)
    ensures
        r.with_a(val).spec_a() == val,
        r.with_a(val).spec_f() == r.spec_f(),
        r.wf() ==> r.with_a(val).wf(),
{
}

} // verus!

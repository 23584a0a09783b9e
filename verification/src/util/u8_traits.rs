use vstd::prelude::*;

verus! {

/// The value of bit `bit` of a byte as a mask: `2^bit` for the eight bits of
/// a byte, zero for any other index.
pub open spec fn bit_mask(bit: u8) -> u8 {
    if bit == 0 {
        1
    } else if bit == 1 {
        2
    } else if bit == 2 {
        4
    } else if bit == 3 {
        8
    } else if bit == 4 {
        16
    } else if bit == 5 {
        32
    } else if bit == 6 {
        64
    } else if bit == 7 {
        128
    } else {
        0
    }
}

/// Whether bit `bit` of `byte` is set. Indices above seven name no bit.
pub open spec fn byte_bit(byte: u8, bit: u8) -> bool {
    bit < 8 && (byte / bit_mask(bit)) % 2 == 1
}

/// `byte` with bit `bit` forced to `value`. Indices above seven change nothing.
pub open spec fn byte_with_bit(byte: u8, bit: u8, value: bool) -> u8 {
    if bit >= 8 || byte_bit(byte, bit) == value {
        byte
    } else if value {
        (byte + bit_mask(bit)) as u8
    } else {
        (byte - bit_mask(bit)) as u8
    }
}

/// A bit that has been forced to a value has that value.
pub proof fn lemma_bit_after_set(byte: u8, bit: u8)
    requires
        bit < 8,
    ensures
        byte_bit(byte_with_bit(byte, bit, true), bit),
        !byte_bit(byte_with_bit(byte, bit, false), bit),
{
    lemma_mask_shift(bit);
    lemma_bit_test(byte, bit);
    lemma_bit_test(byte_with_bit(byte, bit, true), bit);
    lemma_bit_test(byte_with_bit(byte, bit, false), bit);
    lemma_or_and_mask(byte, bit);
}

/// Forcing one bit of a byte leaves every other bit alone.
pub proof fn lemma_bits_apart(byte: u8, bit: u8, other: u8, value: bool)
    requires
        bit < 8,
        other < 8,
        bit != other,
    ensures
        byte_bit(byte_with_bit(byte, other, value), bit) == byte_bit(byte, bit),
{
    lemma_mask_shift(bit);
    lemma_mask_shift(other);
    lemma_bit_test(byte, other);
    lemma_bit_test(byte, bit);
    lemma_bit_test(byte_with_bit(byte, other, value), bit);
    lemma_other_bit(byte, bit, other);
}

proof fn lemma_other_bit(byte: u8, bit: u8, other: u8)
    by (bit_vector)
    requires
        bit < 8,
        other < 8,
        bit != other,
    ensures
        ((byte | (1u8 << other)) & (1u8 << bit) != 0) == (byte & (1u8 << bit) != 0),
        ((byte & ((1u8 << other) ^ 0xFF)) & (1u8 << bit) != 0) == (byte & (1u8 << bit) != 0),
{
}

proof fn lemma_or_and_mask(byte: u8, bit: u8)
    by (bit_vector)
    requires
        bit < 8,
    ensures
        (byte | (1u8 << bit)) & (1u8 << bit) != 0,
        (byte & ((1u8 << bit) ^ 0xFF)) & (1u8 << bit) == 0,
{
}

/// Bit-level access to a byte.
pub trait Bit: Sized {
    spec fn spec_get_bit(&self, bit: u8) -> bool;

    spec fn spec_set_bit(&self, bit: u8, value: bool) -> Self;

    spec fn spec_bits(&self) -> Seq<u8>;

    fn set_bit(&mut self, bit: u8, value: bool)
        ensures
            *final(self) == old(self).spec_set_bit(bit, value),
    ;

    fn get_bit(&self, bit: u8) -> (set: bool)
        ensures
            set == self.spec_get_bit(bit),
    ;

    fn to_bits_array(&self) -> (bits: [u8; 8])
        ensures
            bits@ == self.spec_bits(),
    ;
}

proof fn lemma_mask_shift(bit: u8)
    by (bit_vector)
    requires
        bit < 8,
    ensures
        1u8 << bit == bit_mask(bit),
{
}

proof fn lemma_bit_test(byte: u8, bit: u8)
    by (bit_vector)
    requires
        bit < 8,
    ensures
        (byte & (1u8 << bit) != 0) == ((byte / (1u8 << bit)) % 2 == 1),
        (byte & (1u8 << bit) != 0) ==> (byte & ((1u8 << bit) ^ 0xFF)) == byte - (1u8 << bit),
        (byte & (1u8 << bit) == 0) ==> (byte | (1u8 << bit)) == byte + (1u8 << bit),
        (byte & (1u8 << bit) != 0) ==> (byte | (1u8 << bit)) == byte,
        (byte & (1u8 << bit) == 0) ==> (byte & ((1u8 << bit) ^ 0xFF)) == byte,
        (byte >> bit) & 1 == (byte / (1u8 << bit)) % 2,
        byte & (0u8 ^ 0xFF) == byte,
        byte | 0 == byte,
        byte & 0 == 0,
{
}

impl Bit for u8 {
    open spec fn spec_get_bit(&self, bit: u8) -> bool {
        byte_bit(*self, bit)
    }

    open spec fn spec_set_bit(&self, bit: u8, value: bool) -> u8 {
        byte_with_bit(*self, bit, value)
    }

    /// The eight bits, most significant first, each as zero or one.
    open spec fn spec_bits(&self) -> Seq<u8> {
        Seq::new(8, |i: int| if byte_bit(*self, (7 - i) as u8) { 1u8 } else { 0u8 })
    }

    fn get_bit(&self, bit: u8) -> (set: bool) {
        let mask: u8 = if bit > 7 {
            0u8
        } else {
            1u8 << bit
        };
        proof {
            if bit < 8 {
                lemma_mask_shift(bit);
                lemma_bit_test(*self, bit);
            } else {
                lemma_bit_test(*self, 0);
            }
        }
        (*self & mask) != 0
    }

    fn set_bit(&mut self, bit: u8, value: bool) {
        let mask: u8 = if bit > 7 {
            0u8
        } else {
            1u8 << bit
        };
        proof {
            if bit < 8 {
                lemma_mask_shift(bit);
                lemma_bit_test(*self, bit);
            } else {
                lemma_bit_test(*self, 0);
            }
        }
        if value {
            *self = *self | mask
        } else {
            *self = *self & (mask ^ u8::MAX)
        }
    }

    fn to_bits_array(&self) -> (bits: [u8; 8]) {
        let mut bits: [u8; 8] = [0;8];
        let mut i: usize = 0;
        while i < 8
            invariant
                i <= 8,
                forall|j: int| 0 <= j < i ==> bits@[j] == self.spec_bits()[j],
            decreases 8 - i,
        {
            let shift: u8 = (7 - i) as u8;
            proof {
                lemma_mask_shift(shift);
                lemma_bit_test(*self, shift);
            }
            bits[i] = (*self >> shift) & 1;
            i += 1;
        }
        assert(bits@ =~= self.spec_bits());
        bits
    }
}

/// The fields of a sixteen-bit word.
pub trait NibblesU16 {
    spec fn spec_low_8nibble(self) -> u8;

    spec fn spec_low_4nibble(self) -> u8;

    spec fn spec_high_8nibble(self) -> u8;

    spec fn spec_low_12(self) -> u16;

    fn low_8nibble(self) -> (byte: u8)
        ensures
            byte == self.spec_low_8nibble(),
    ;

    fn low_4nibble(self) -> (nibble: u8)
        ensures
            nibble == self.spec_low_4nibble(),
    ;

    fn high_8nibble(self) -> (byte: u8)
        ensures
            byte == self.spec_high_8nibble(),
    ;

    fn low_12(self) -> (bits: u16)
        ensures
            bits == self.spec_low_12(),
    ;
}

proof fn lemma_word_fields(word: u16)
    by (bit_vector)
    ensures
        word & 0x00FF == word % 256,
        word & 0x000F == word % 16,
        (word & 0xFF00) >> 8 == word / 256,
        word & 0x0FFF == word % 4096,
{
}

impl NibblesU16 for u16 {
    open spec fn spec_low_8nibble(self) -> u8 {
        (self % 256) as u8
    }

    open spec fn spec_low_4nibble(self) -> u8 {
        (self % 16) as u8
    }

    open spec fn spec_high_8nibble(self) -> u8 {
        (self / 256) as u8
    }

    open spec fn spec_low_12(self) -> u16 {
        self % 4096
    }

    fn low_8nibble(self) -> (byte: u8) {
        proof {
            lemma_word_fields(self);
        }
        (self & 0x00FF) as u8
    }

    fn low_4nibble(self) -> (nibble: u8) {
        proof {
            lemma_word_fields(self);
        }
        (self & 0b0000_1111) as u8
    }

    fn high_8nibble(self) -> (byte: u8) {
        proof {
            lemma_word_fields(self);
        }
        ((self & 0xFF00) >> 8) as u8
    }

    fn low_12(self) -> (bits: u16) {
        proof {
            lemma_word_fields(self);
        }
        self & 0x0FFF
    }
}

/// The two halves of a byte.
pub trait NibblesU8: Sized {
    spec fn spec_low_4nibble(self) -> Self;

    spec fn spec_high_nibble(self) -> Self;

    fn low_4nibble(self) -> (nibble: Self)
        ensures
            nibble == self.spec_low_4nibble(),
    ;

    fn high_nibble(self) -> (nibble: Self)
        ensures
            nibble == self.spec_high_nibble(),
    ;
}

proof fn lemma_byte_fields(byte: u8)
    by (bit_vector)
    ensures
        byte & 0x0F == byte % 16,
        (byte & 0xF0) >> 4 == byte / 16,
{
}

impl NibblesU8 for u8 {
    open spec fn spec_low_4nibble(self) -> u8 {
        self % 16
    }

    open spec fn spec_high_nibble(self) -> u8 {
        self / 16
    }

    fn low_4nibble(self) -> (nibble: u8) {
        proof {
            lemma_byte_fields(self);
        }
        self & 0b0000_1111
    }

    fn high_nibble(self) -> (nibble: u8) {
        proof {
            lemma_byte_fields(self);
        }
        (self & 0b1111_0000) >> 4
    }
}

} // verus!

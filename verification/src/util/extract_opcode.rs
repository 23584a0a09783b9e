use crate::util::opcode_dict_util::{
    NopreOpcodeMnemonics, NopreOperands, PreOperands, PrefixOpcodeMnemonics,
};
use crate::util::display_impl::{hex_digit, hex_digit_spec, push_char};
use crate::util::error_type::Errors;
use crate::util::opcode_dict_util::str_equals;
use vstd::prelude::*;
use vstd::std_specs::convert::FromSpec;

verus! {

/// One operand of an instruction as the opcode files give it.
#[derive(Debug)]
pub struct Operand {
    pub name: String,
    pub immediate: bool,
    pub increment: Option<bool>,
    pub decrement: Option<bool>,
    pub bytes: Option<usize>,
}

/// What an instruction does to the four flags, as the opcode files give it.
#[allow(non_snake_case)]
#[derive(Debug)]
pub struct Flags {
    pub Z: String,
    pub N: String,
    pub H: String,
    pub C: String,
}

/// One instruction as the opcode files give it: names as text, and the
/// clock cycles as a list of one or, for a conditional branch, two.
#[derive(Debug)]
pub struct Instruction {
    pub mnemonic: String,
    pub bytes: usize,
    pub cycles: Vec<usize>,
    pub operands: Vec<Operand>,
    pub immediate: bool,
    pub flags: Flags,
}

/// The instructions of one page of opcodes, each under its key: the opcode
/// as `0x` and two upper-case hexadecimal digits.
pub struct Instructions(pub Vec<(String, Instruction)>);

/// One operand of an instruction: what it names, whether it is the named
/// thing itself (`immediate`) or the memory it points to, and whether the
/// pair HL moves up or down after the access.
#[derive(Debug, Clone, Copy, PartialEq, Eq, Structural)]
pub struct OperandTag {
    pub name: NopreOperands,
    pub immediate: bool,
    pub increment: bool,
    pub decrement: bool,
}

/// The descriptor of one opcode of the unprefixed page: its operation
/// family, its length in bytes, the clock cycles it takes (`cycles_alt`
/// when a conditional branch is not taken), and up to three operands.
#[derive(Debug, Clone, Copy, PartialEq, Eq, Structural)]
pub struct Opcode {
    pub mnemonic: NopreOpcodeMnemonics,
    pub bytes: u8,
    pub cycles: u8,
    pub cycles_alt: u8,
    pub n_operands: u8,
    pub first: OperandTag,
    pub second: OperandTag,
    pub third: OperandTag,
}

/// The descriptor of one opcode of the prefixed page: its operation
/// family, the bit it works on (for the bit operations), the register or
/// memory cell it works on, its length and its clock cycles.
#[derive(Debug, Clone, Copy, PartialEq, Eq, Structural)]
pub struct PrefixedOpcode {
    pub mnemonic: PrefixOpcodeMnemonics,
    pub bit: u8,
    pub target: PreOperands,
    pub bytes: u8,
    pub cycles: u8,
}

/// An operand that is the named register, number or condition itself.
pub open spec fn spec_direct(name: NopreOperands) -> OperandTag {
    OperandTag { name, immediate: true, increment: false, decrement: false }
}

/// An operand that is the memory the named thing points to.
pub open spec fn spec_indirect(name: NopreOperands) -> OperandTag {
    OperandTag { name, immediate: false, increment: false, decrement: false }
}

/// The filler of an unused operand slot.
pub open spec fn spec_no_operand() -> OperandTag {
    OperandTag { name: NopreOperands::INVALID, immediate: false, increment: false, decrement: false }
}

/// The 8-bit location that three bits of an opcode select: B, C, D, E, H, L, the memory at HL, A.
pub open spec fn spec_register_operand(index: u8) -> OperandTag {
    if index == 0 {
        spec_direct(NopreOperands::B)
    } else if index == 1 {
        spec_direct(NopreOperands::C)
    } else if index == 2 {
        spec_direct(NopreOperands::D)
    } else if index == 3 {
        spec_direct(NopreOperands::E)
    } else if index == 4 {
        spec_direct(NopreOperands::H)
    } else if index == 5 {
        spec_direct(NopreOperands::L)
    } else if index == 6 {
        spec_indirect(NopreOperands::HL)
    } else {
        spec_direct(NopreOperands::A)
    }
}

/// The register pair that two bits of an opcode select: BC, DE, HL, SP.
pub open spec fn spec_pair_operand(index: u8) -> OperandTag {
    if index == 0 {
        spec_direct(NopreOperands::BC)
    } else if index == 1 {
        spec_direct(NopreOperands::DE)
    } else if index == 2 {
        spec_direct(NopreOperands::HL)
    } else {
        spec_direct(NopreOperands::SP)
    }
}

/// The register pair that two bits of a push or pop select: BC, DE, HL, AF.
pub open spec fn spec_stack_pair_operand(index: u8) -> OperandTag {
    if index == 0 {
        spec_direct(NopreOperands::BC)
    } else if index == 1 {
        spec_direct(NopreOperands::DE)
    } else if index == 2 {
        spec_direct(NopreOperands::HL)
    } else {
        spec_direct(NopreOperands::AF)
    }
}

/// The pointer that two bits of a load through a pair select: BC, DE, HL moving up, HL moving down.
pub open spec fn spec_pointer_operand(index: u8) -> OperandTag {
    if index == 0 {
        spec_indirect(NopreOperands::BC)
    } else if index == 1 {
        spec_indirect(NopreOperands::DE)
    } else if index == 2 {
        OperandTag { name: NopreOperands::HL, immediate: false, increment: true, decrement: false }
    } else {
        OperandTag { name: NopreOperands::HL, immediate: false, increment: false, decrement: true }
    }
}

/// The branch condition that two bits of an opcode select: NZ, Z, NC, C.
pub open spec fn spec_condition_operand(index: u8) -> OperandTag {
    if index == 0 {
        spec_direct(NopreOperands::NZ)
    } else if index == 1 {
        spec_direct(NopreOperands::Z)
    } else if index == 2 {
        spec_direct(NopreOperands::NC)
    } else {
        spec_direct(NopreOperands::C)
    }
}

/// The fixed call target that three bits of a restart select.
pub open spec fn spec_restart_operand(index: u8) -> OperandTag {
    if index == 0 {
        spec_direct(NopreOperands::X00)
    } else if index == 1 {
        spec_direct(NopreOperands::X08)
    } else if index == 2 {
        spec_direct(NopreOperands::X10)
    } else if index == 3 {
        spec_direct(NopreOperands::X18)
    } else if index == 4 {
        spec_direct(NopreOperands::X20)
    } else if index == 5 {
        spec_direct(NopreOperands::X28)
    } else if index == 6 {
        spec_direct(NopreOperands::X30)
    } else {
        spec_direct(NopreOperands::X38)
    }
}

/// The 8-bit arithmetic family that three bits of an opcode select.
pub open spec fn spec_alu_mnemonic(index: u8) -> NopreOpcodeMnemonics {
    if index == 0 {
        NopreOpcodeMnemonics::ADD
    } else if index == 1 {
        NopreOpcodeMnemonics::ADC
    } else if index == 2 {
        NopreOpcodeMnemonics::SUB
    } else if index == 3 {
        NopreOpcodeMnemonics::SBC
    } else if index == 4 {
        NopreOpcodeMnemonics::AND
    } else if index == 5 {
        NopreOpcodeMnemonics::XOR
    } else if index == 6 {
        NopreOpcodeMnemonics::OR
    } else {
        NopreOpcodeMnemonics::CP
    }
}

/// The accumulator and flag operation that three bits of an opcode select.
pub open spec fn spec_accumulator_mnemonic(index: u8) -> NopreOpcodeMnemonics {
    if index == 0 {
        NopreOpcodeMnemonics::RLCA
    } else if index == 1 {
        NopreOpcodeMnemonics::RRCA
    } else if index == 2 {
        NopreOpcodeMnemonics::RLA
    } else if index == 3 {
        NopreOpcodeMnemonics::RRA
    } else if index == 4 {
        NopreOpcodeMnemonics::DAA
    } else if index == 5 {
        NopreOpcodeMnemonics::CPL
    } else if index == 6 {
        NopreOpcodeMnemonics::SCF
    } else {
        NopreOpcodeMnemonics::CCF
    }
}

/// The name of an opcode that the processor does not implement.
pub open spec fn spec_illegal_mnemonic(opcode: u8) -> NopreOpcodeMnemonics {
    if opcode == 0xD3 {
        NopreOpcodeMnemonics::IllegalD3
    } else if opcode == 0xDB {
        NopreOpcodeMnemonics::IllegalDb
    } else if opcode == 0xDD {
        NopreOpcodeMnemonics::IllegalDd
    } else if opcode == 0xE3 {
        NopreOpcodeMnemonics::IllegalE3
    } else if opcode == 0xE4 {
        NopreOpcodeMnemonics::IllegalE4
    } else if opcode == 0xEB {
        NopreOpcodeMnemonics::IllegalEb
    } else if opcode == 0xEC {
        NopreOpcodeMnemonics::IllegalEc
    } else if opcode == 0xED {
        NopreOpcodeMnemonics::IllegalEd
    } else if opcode == 0xF4 {
        NopreOpcodeMnemonics::IllegalF4
    } else if opcode == 0xFC {
        NopreOpcodeMnemonics::IllegalFc
    } else if opcode == 0xFD {
        NopreOpcodeMnemonics::IllegalFd
    } else {
        NopreOpcodeMnemonics::INVALID
    }
}

/// A descriptor without operands.
pub open spec fn spec_op0(mnemonic: NopreOpcodeMnemonics, bytes: u8, cycles: u8) -> Opcode {
    Opcode {
        mnemonic,
        bytes,
        cycles,
        cycles_alt: cycles,
        n_operands: 0,
        first: spec_no_operand(),
        second: spec_no_operand(),
        third: spec_no_operand(),
    }
}

/// A descriptor with one operand.
pub open spec fn spec_op1(mnemonic: NopreOpcodeMnemonics, bytes: u8, cycles: u8, first: OperandTag) -> Opcode {
    Opcode {
        mnemonic,
        bytes,
        cycles,
        cycles_alt: cycles,
        n_operands: 1,
        first,
        second: spec_no_operand(),
        third: spec_no_operand(),
    }
}

/// A descriptor with two operands.
pub open spec fn spec_op2(mnemonic: NopreOpcodeMnemonics, bytes: u8, cycles: u8, first: OperandTag, second: OperandTag) -> Opcode {
    Opcode {
        mnemonic,
        bytes,
        cycles,
        cycles_alt: cycles,
        n_operands: 2,
        first,
        second,
        third: spec_no_operand(),
    }
}

/// A descriptor of a conditional branch, which takes `cycles_alt` cycles when the branch is not taken.
pub open spec fn spec_branch(base: Opcode, cycles_alt: u8) -> Opcode {
    Opcode { cycles_alt, ..base }
}

/// The descriptor of an opcode below 0x40, from bits 5..3 (`y`) and 2..0 (`z`).
pub open spec fn spec_decode_block0(y: u8, z: u8) -> Opcode {
    let p = y / 2;
    let q = y % 2;
    if z == 0 {
        if y == 0 {
            spec_op0(NopreOpcodeMnemonics::NOP, 1, 4)
        } else if y == 1 {
            spec_op2(NopreOpcodeMnemonics::LD, 3, 20, spec_indirect(NopreOperands::a16), spec_direct(NopreOperands::SP))
        } else if y == 2 {
            spec_op1(NopreOpcodeMnemonics::STOP, 2, 4, spec_direct(NopreOperands::n8))
        } else if y == 3 {
            spec_op1(NopreOpcodeMnemonics::JR, 2, 12, spec_direct(NopreOperands::e8))
        } else {
            spec_branch(
                spec_op2(
                    NopreOpcodeMnemonics::JR,
                    2,
                    12,
                    spec_condition_operand((y - 4) as u8),
                    spec_direct(NopreOperands::e8),
                ),
                8,
            )
        }
    } else if z == 1 {
        if q == 0 {
            spec_op2(NopreOpcodeMnemonics::LD, 3, 12, spec_pair_operand(p), spec_direct(NopreOperands::n16))
        } else {
            spec_op2(NopreOpcodeMnemonics::ADD, 1, 8, spec_direct(NopreOperands::HL), spec_pair_operand(p))
        }
    } else if z == 2 {
        if q == 0 {
            spec_op2(NopreOpcodeMnemonics::LD, 1, 8, spec_pointer_operand(p), spec_direct(NopreOperands::A))
        } else {
            spec_op2(NopreOpcodeMnemonics::LD, 1, 8, spec_direct(NopreOperands::A), spec_pointer_operand(p))
        }
    } else if z == 3 {
        if q == 0 {
            spec_op1(NopreOpcodeMnemonics::INC, 1, 8, spec_pair_operand(p))
        } else {
            spec_op1(NopreOpcodeMnemonics::DEC, 1, 8, spec_pair_operand(p))
        }
    } else if z == 4 {
        spec_op1(NopreOpcodeMnemonics::INC, 1, if y == 6 { 12 } else { 4 }, spec_register_operand(y))
    } else if z == 5 {
        spec_op1(NopreOpcodeMnemonics::DEC, 1, if y == 6 { 12 } else { 4 }, spec_register_operand(y))
    } else if z == 6 {
        spec_op2(
            NopreOpcodeMnemonics::LD,
            2,
            if y == 6 { 12 } else { 8 },
            spec_register_operand(y),
            spec_direct(NopreOperands::n8),
        )
    } else {
        spec_op0(spec_accumulator_mnemonic(y), 1, 4)
    }
}

/// The descriptor of an opcode from 0xC0 on, from bits 5..3 (`y`) and 2..0 (`z`).
pub open spec fn spec_decode_block3(opcode: u8, y: u8, z: u8) -> Opcode {
    let p = y / 2;
    let q = y % 2;
    if z == 0 {
        if y < 4 {
            spec_branch(spec_op1(NopreOpcodeMnemonics::RET, 1, 20, spec_condition_operand(y)), 8)
        } else if y == 4 {
            spec_op2(NopreOpcodeMnemonics::LDH, 2, 12, spec_indirect(NopreOperands::a8), spec_direct(NopreOperands::A))
        } else if y == 5 {
            spec_op2(NopreOpcodeMnemonics::ADD, 2, 16, spec_direct(NopreOperands::SP), spec_direct(NopreOperands::e8))
        } else if y == 6 {
            spec_op2(NopreOpcodeMnemonics::LDH, 2, 12, spec_direct(NopreOperands::A), spec_indirect(NopreOperands::a8))
        } else {
            Opcode {
                mnemonic: NopreOpcodeMnemonics::LD,
                bytes: 2,
                cycles: 12,
                cycles_alt: 12,
                n_operands: 3,
                first: spec_direct(NopreOperands::HL),
                second: OperandTag {
                    name: NopreOperands::SP,
                    immediate: true,
                    increment: true,
                    decrement: false,
                },
                third: spec_direct(NopreOperands::e8),
            }
        }
    } else if z == 1 {
        if q == 0 {
            spec_op1(NopreOpcodeMnemonics::POP, 1, 12, spec_stack_pair_operand(p))
        } else if p == 0 {
            spec_op0(NopreOpcodeMnemonics::RET, 1, 16)
        } else if p == 1 {
            spec_op0(NopreOpcodeMnemonics::RETI, 1, 16)
        } else if p == 2 {
            spec_op1(NopreOpcodeMnemonics::JP, 1, 4, spec_direct(NopreOperands::HL))
        } else {
            spec_op2(NopreOpcodeMnemonics::LD, 1, 8, spec_direct(NopreOperands::SP), spec_direct(NopreOperands::HL))
        }
    } else if z == 2 {
        if y < 4 {
            spec_branch(
                spec_op2(
                    NopreOpcodeMnemonics::JP,
                    3,
                    16,
                    spec_condition_operand(y),
                    spec_direct(NopreOperands::a16),
                ),
                12,
            )
        } else if y == 4 {
            spec_op2(NopreOpcodeMnemonics::LDH, 1, 8, spec_indirect(NopreOperands::C), spec_direct(NopreOperands::A))
        } else if y == 5 {
            spec_op2(NopreOpcodeMnemonics::LD, 3, 16, spec_indirect(NopreOperands::a16), spec_direct(NopreOperands::A))
        } else if y == 6 {
            spec_op2(NopreOpcodeMnemonics::LDH, 1, 8, spec_direct(NopreOperands::A), spec_indirect(NopreOperands::C))
        } else {
            spec_op2(NopreOpcodeMnemonics::LD, 3, 16, spec_direct(NopreOperands::A), spec_indirect(NopreOperands::a16))
        }
    } else if z == 3 {
        if y == 0 {
            spec_op1(NopreOpcodeMnemonics::JP, 3, 16, spec_direct(NopreOperands::a16))
        } else if y == 1 {
            spec_op0(NopreOpcodeMnemonics::PREFIX, 1, 4)
        } else if y == 6 {
            spec_op0(NopreOpcodeMnemonics::DI, 1, 4)
        } else if y == 7 {
            spec_op0(NopreOpcodeMnemonics::EI, 1, 4)
        } else {
            spec_op0(spec_illegal_mnemonic(opcode), 1, 4)
        }
    } else if z == 4 {
        if y < 4 {
            spec_branch(
                spec_op2(
                    NopreOpcodeMnemonics::CALL,
                    3,
                    24,
                    spec_condition_operand(y),
                    spec_direct(NopreOperands::a16),
                ),
                12,
            )
        } else {
            spec_op0(spec_illegal_mnemonic(opcode), 1, 4)
        }
    } else if z == 5 {
        if q == 0 {
            spec_op1(NopreOpcodeMnemonics::PUSH, 1, 16, spec_stack_pair_operand(p))
        } else if p == 0 {
            spec_op1(NopreOpcodeMnemonics::CALL, 3, 24, spec_direct(NopreOperands::a16))
        } else {
            spec_op0(spec_illegal_mnemonic(opcode), 1, 4)
        }
    } else if z == 6 {
        spec_op2(spec_alu_mnemonic(y), 2, 8, spec_direct(NopreOperands::A), spec_direct(NopreOperands::n8))
    } else {
        spec_op1(NopreOpcodeMnemonics::RST, 1, 16, spec_restart_operand(y))
    }
}

/// The descriptor of an opcode of the unprefixed page.
pub open spec fn spec_decode_opcode(opcode: u8) -> Opcode {
    let x = opcode / 64;
    let y = (opcode / 8) % 8;
    let z = opcode % 8;
    if x == 0 {
        spec_decode_block0(y, z)
    } else if x == 1 {
        if y == 6 && z == 6 {
            spec_op0(NopreOpcodeMnemonics::HALT, 1, 4)
        } else {
            spec_op2(
                NopreOpcodeMnemonics::LD,
                1,
                if y == 6 || z == 6 { 8 } else { 4 },
                spec_register_operand(y),
                spec_register_operand(z),
            )
        }
    } else if x == 2 {
        spec_op2(
            spec_alu_mnemonic(y),
            1,
            if z == 6 { 8 } else { 4 },
            spec_direct(NopreOperands::A),
            spec_register_operand(z),
        )
    } else {
        spec_decode_block3(opcode, y, z)
    }
}

/// The location that three bits of a prefixed opcode select; HL stands for the memory at HL.
pub open spec fn spec_prefixed_target(index: u8) -> PreOperands {
    if index == 0 {
        PreOperands::B
    } else if index == 1 {
        PreOperands::C
    } else if index == 2 {
        PreOperands::D
    } else if index == 3 {
        PreOperands::E
    } else if index == 4 {
        PreOperands::H
    } else if index == 5 {
        PreOperands::L
    } else if index == 6 {
        PreOperands::HL
    } else {
        PreOperands::A
    }
}

/// The rotate or shift family that three bits of a prefixed opcode select.
pub open spec fn spec_shift_mnemonic(index: u8) -> PrefixOpcodeMnemonics {
    if index == 0 {
        PrefixOpcodeMnemonics::RLC
    } else if index == 1 {
        PrefixOpcodeMnemonics::RRC
    } else if index == 2 {
        PrefixOpcodeMnemonics::RL
    } else if index == 3 {
        PrefixOpcodeMnemonics::RR
    } else if index == 4 {
        PrefixOpcodeMnemonics::SLA
    } else if index == 5 {
        PrefixOpcodeMnemonics::SRA
    } else if index == 6 {
        PrefixOpcodeMnemonics::SWAP
    } else {
        PrefixOpcodeMnemonics::SRL
    }
}

/// The descriptor of an opcode of the prefixed page.
pub open spec fn spec_decode_prefixed(opcode: u8) -> PrefixedOpcode {
    let x = opcode / 64;
    let y = (opcode / 8) % 8;
    let z = opcode % 8;
    let target = spec_prefixed_target(z);
    if x == 0 {
        PrefixedOpcode {
            mnemonic: spec_shift_mnemonic(y),
            bit: 0,
            target,
            bytes: 2,
            cycles: if z == 6 { 16 } else { 8 },
        }
    } else if x == 1 {
        PrefixedOpcode {
            mnemonic: PrefixOpcodeMnemonics::BIT,
            bit: y,
            target,
            bytes: 2,
            cycles: if z == 6 { 12 } else { 8 },
        }
    } else if x == 2 {
        PrefixedOpcode {
            mnemonic: PrefixOpcodeMnemonics::RES,
            bit: y,
            target,
            bytes: 2,
            cycles: if z == 6 { 16 } else { 8 },
        }
    } else {
        PrefixedOpcode {
            mnemonic: PrefixOpcodeMnemonics::SET,
            bit: y,
            target,
            bytes: 2,
            cycles: if z == 6 { 16 } else { 8 },
        }
    }
}

/// An operand that is the named register, number or condition itself.
pub fn direct(name: NopreOperands) -> (r: OperandTag)
    ensures
        r == spec_direct(name),
{
    OperandTag { name, immediate: true, increment: false, decrement: false }
}

/// An operand that is the memory the named thing points to.
pub fn indirect(name: NopreOperands) -> (r: OperandTag)
    ensures
        r == spec_indirect(name),
{
    OperandTag { name, immediate: false, increment: false, decrement: false }
}

/// The filler of an unused operand slot.
pub fn no_operand() -> (r: OperandTag)
    ensures
        r == spec_no_operand(),
{
    OperandTag { name: NopreOperands::INVALID, immediate: false, increment: false, decrement: false }
}

/// The 8-bit location that three bits of an opcode select: B, C, D, E, H, L, the memory at HL, A.
pub fn register_operand(index: u8) -> (r: OperandTag)
    ensures
        r == spec_register_operand(index),
{
    if index == 0 {
        direct(NopreOperands::B)
    } else if index == 1 {
        direct(NopreOperands::C)
    } else if index == 2 {
        direct(NopreOperands::D)
    } else if index == 3 {
        direct(NopreOperands::E)
    } else if index == 4 {
        direct(NopreOperands::H)
    } else if index == 5 {
        direct(NopreOperands::L)
    } else if index == 6 {
        indirect(NopreOperands::HL)
    } else {
        direct(NopreOperands::A)
    }
}

/// The register pair that two bits of an opcode select: BC, DE, HL, SP.
pub fn pair_operand(index: u8) -> (r: OperandTag)
    ensures
        r == spec_pair_operand(index),
{
    if index == 0 {
        direct(NopreOperands::BC)
    } else if index == 1 {
        direct(NopreOperands::DE)
    } else if index == 2 {
        direct(NopreOperands::HL)
    } else {
        direct(NopreOperands::SP)
    }
}

/// The register pair that two bits of a push or pop select: BC, DE, HL, AF.
pub fn stack_pair_operand(index: u8) -> (r: OperandTag)
    ensures
        r == spec_stack_pair_operand(index),
{
    if index == 0 {
        direct(NopreOperands::BC)
    } else if index == 1 {
        direct(NopreOperands::DE)
    } else if index == 2 {
        direct(NopreOperands::HL)
    } else {
        direct(NopreOperands::AF)
    }
}

/// The pointer that two bits of a load through a pair select: BC, DE, HL moving up, HL moving down.
pub fn pointer_operand(index: u8) -> (r: OperandTag)
    ensures
        r == spec_pointer_operand(index),
{
    if index == 0 {
        indirect(NopreOperands::BC)
    } else if index == 1 {
        indirect(NopreOperands::DE)
    } else if index == 2 {
        OperandTag { name: NopreOperands::HL, immediate: false, increment: true, decrement: false }
    } else {
        OperandTag { name: NopreOperands::HL, immediate: false, increment: false, decrement: true }
    }
}

/// The branch condition that two bits of an opcode select: NZ, Z, NC, C.
pub fn condition_operand(index: u8) -> (r: OperandTag)
    ensures
        r == spec_condition_operand(index),
{
    if index == 0 {
        direct(NopreOperands::NZ)
    } else if index == 1 {
        direct(NopreOperands::Z)
    } else if index == 2 {
        direct(NopreOperands::NC)
    } else {
        direct(NopreOperands::C)
    }
}

/// The fixed call target that three bits of a restart select.
pub fn restart_operand(index: u8) -> (r: OperandTag)
    ensures
        r == spec_restart_operand(index),
{
    if index == 0 {
        direct(NopreOperands::X00)
    } else if index == 1 {
        direct(NopreOperands::X08)
    } else if index == 2 {
        direct(NopreOperands::X10)
    } else if index == 3 {
        direct(NopreOperands::X18)
    } else if index == 4 {
        direct(NopreOperands::X20)
    } else if index == 5 {
        direct(NopreOperands::X28)
    } else if index == 6 {
        direct(NopreOperands::X30)
    } else {
        direct(NopreOperands::X38)
    }
}

/// The 8-bit arithmetic family that three bits of an opcode select.
pub fn alu_mnemonic(index: u8) -> (r: NopreOpcodeMnemonics)
    ensures
        r == spec_alu_mnemonic(index),
{
    if index == 0 {
        NopreOpcodeMnemonics::ADD
    } else if index == 1 {
        NopreOpcodeMnemonics::ADC
    } else if index == 2 {
        NopreOpcodeMnemonics::SUB
    } else if index == 3 {
        NopreOpcodeMnemonics::SBC
    } else if index == 4 {
        NopreOpcodeMnemonics::AND
    } else if index == 5 {
        NopreOpcodeMnemonics::XOR
    } else if index == 6 {
        NopreOpcodeMnemonics::OR
    } else {
        NopreOpcodeMnemonics::CP
    }
}

/// The accumulator and flag operation that three bits of an opcode select.
pub fn accumulator_mnemonic(index: u8) -> (r: NopreOpcodeMnemonics)
    ensures
        r == spec_accumulator_mnemonic(index),
{
    if index == 0 {
        NopreOpcodeMnemonics::RLCA
    } else if index == 1 {
        NopreOpcodeMnemonics::RRCA
    } else if index == 2 {
        NopreOpcodeMnemonics::RLA
    } else if index == 3 {
        NopreOpcodeMnemonics::RRA
    } else if index == 4 {
        NopreOpcodeMnemonics::DAA
    } else if index == 5 {
        NopreOpcodeMnemonics::CPL
    } else if index == 6 {
        NopreOpcodeMnemonics::SCF
    } else {
        NopreOpcodeMnemonics::CCF
    }
}

/// The name of an opcode that the processor does not implement.
pub fn illegal_mnemonic(opcode: u8) -> (r: NopreOpcodeMnemonics)
    ensures
        r == spec_illegal_mnemonic(opcode),
{
    if opcode == 0xD3 {
        NopreOpcodeMnemonics::IllegalD3
    } else if opcode == 0xDB {
        NopreOpcodeMnemonics::IllegalDb
    } else if opcode == 0xDD {
        NopreOpcodeMnemonics::IllegalDd
    } else if opcode == 0xE3 {
        NopreOpcodeMnemonics::IllegalE3
    } else if opcode == 0xE4 {
        NopreOpcodeMnemonics::IllegalE4
    } else if opcode == 0xEB {
        NopreOpcodeMnemonics::IllegalEb
    } else if opcode == 0xEC {
        NopreOpcodeMnemonics::IllegalEc
    } else if opcode == 0xED {
        NopreOpcodeMnemonics::IllegalEd
    } else if opcode == 0xF4 {
        NopreOpcodeMnemonics::IllegalF4
    } else if opcode == 0xFC {
        NopreOpcodeMnemonics::IllegalFc
    } else if opcode == 0xFD {
        NopreOpcodeMnemonics::IllegalFd
    } else {
        NopreOpcodeMnemonics::INVALID
    }
}

/// A descriptor without operands.
pub fn op0(mnemonic: NopreOpcodeMnemonics, bytes: u8, cycles: u8) -> (r: Opcode)
    ensures
        r == spec_op0(mnemonic, bytes, cycles),
{
    Opcode {
        mnemonic,
        bytes,
        cycles,
        cycles_alt: cycles,
        n_operands: 0,
        first: no_operand(),
        second: no_operand(),
        third: no_operand(),
    }
}

/// A descriptor with one operand.
pub fn op1(mnemonic: NopreOpcodeMnemonics, bytes: u8, cycles: u8, first: OperandTag) -> (r: Opcode)
    ensures
        r == spec_op1(mnemonic, bytes, cycles, first),
{
    Opcode {
        mnemonic,
        bytes,
        cycles,
        cycles_alt: cycles,
        n_operands: 1,
        first,
        second: no_operand(),
        third: no_operand(),
    }
}

/// A descriptor with two operands.
pub fn op2(mnemonic: NopreOpcodeMnemonics, bytes: u8, cycles: u8, first: OperandTag, second: OperandTag) -> (r: Opcode)
    ensures
        r == spec_op2(mnemonic, bytes, cycles, first, second),
{
    Opcode {
        mnemonic,
        bytes,
        cycles,
        cycles_alt: cycles,
        n_operands: 2,
        first,
        second,
        third: no_operand(),
    }
}

/// A descriptor of a conditional branch, which takes `cycles_alt` cycles when the branch is not taken.
pub fn branch(base: Opcode, cycles_alt: u8) -> (r: Opcode)
    ensures
        r == spec_branch(base, cycles_alt),
{
    Opcode { cycles_alt, ..base }
}

/// The descriptor of an opcode below 0x40, from bits 5..3 (`y`) and 2..0 (`z`).
pub fn decode_block0(y: u8, z: u8) -> (r: Opcode)
    ensures
        r == spec_decode_block0(y, z),
{
    let p = y / 2;
    let q = y % 2;
    if z == 0 {
        if y == 0 {
            op0(NopreOpcodeMnemonics::NOP, 1, 4)
        } else if y == 1 {
            op2(NopreOpcodeMnemonics::LD, 3, 20, indirect(NopreOperands::a16), direct(NopreOperands::SP))
        } else if y == 2 {
            op1(NopreOpcodeMnemonics::STOP, 2, 4, direct(NopreOperands::n8))
        } else if y == 3 {
            op1(NopreOpcodeMnemonics::JR, 2, 12, direct(NopreOperands::e8))
        } else {
            branch(
                op2(
                    NopreOpcodeMnemonics::JR,
                    2,
                    12,
                    condition_operand((y - 4) as u8),
                    direct(NopreOperands::e8),
                ),
                8,
            )
        }
    } else if z == 1 {
        if q == 0 {
            op2(NopreOpcodeMnemonics::LD, 3, 12, pair_operand(p), direct(NopreOperands::n16))
        } else {
            op2(NopreOpcodeMnemonics::ADD, 1, 8, direct(NopreOperands::HL), pair_operand(p))
        }
    } else if z == 2 {
        if q == 0 {
            op2(NopreOpcodeMnemonics::LD, 1, 8, pointer_operand(p), direct(NopreOperands::A))
        } else {
            op2(NopreOpcodeMnemonics::LD, 1, 8, direct(NopreOperands::A), pointer_operand(p))
        }
    } else if z == 3 {
        if q == 0 {
            op1(NopreOpcodeMnemonics::INC, 1, 8, pair_operand(p))
        } else {
            op1(NopreOpcodeMnemonics::DEC, 1, 8, pair_operand(p))
        }
    } else if z == 4 {
        op1(NopreOpcodeMnemonics::INC, 1, if y == 6 { 12 } else { 4 }, register_operand(y))
    } else if z == 5 {
        op1(NopreOpcodeMnemonics::DEC, 1, if y == 6 { 12 } else { 4 }, register_operand(y))
    } else if z == 6 {
        op2(
            NopreOpcodeMnemonics::LD,
            2,
            if y == 6 { 12 } else { 8 },
            register_operand(y),
            direct(NopreOperands::n8),
        )
    } else {
        op0(accumulator_mnemonic(y), 1, 4)
    }
}

/// The descriptor of an opcode from 0xC0 on, from bits 5..3 (`y`) and 2..0 (`z`).
pub fn decode_block3(opcode: u8, y: u8, z: u8) -> (r: Opcode)
    ensures
        r == spec_decode_block3(opcode, y, z),
{
    let p = y / 2;
    let q = y % 2;
    if z == 0 {
        if y < 4 {
            branch(op1(NopreOpcodeMnemonics::RET, 1, 20, condition_operand(y)), 8)
        } else if y == 4 {
            op2(NopreOpcodeMnemonics::LDH, 2, 12, indirect(NopreOperands::a8), direct(NopreOperands::A))
        } else if y == 5 {
            op2(NopreOpcodeMnemonics::ADD, 2, 16, direct(NopreOperands::SP), direct(NopreOperands::e8))
        } else if y == 6 {
            op2(NopreOpcodeMnemonics::LDH, 2, 12, direct(NopreOperands::A), indirect(NopreOperands::a8))
        } else {
            Opcode {
                mnemonic: NopreOpcodeMnemonics::LD,
                bytes: 2,
                cycles: 12,
                cycles_alt: 12,
                n_operands: 3,
                first: direct(NopreOperands::HL),
                second: OperandTag {
                    name: NopreOperands::SP,
                    immediate: true,
                    increment: true,
                    decrement: false,
                },
                third: direct(NopreOperands::e8),
            }
        }
    } else if z == 1 {
        if q == 0 {
            op1(NopreOpcodeMnemonics::POP, 1, 12, stack_pair_operand(p))
        } else if p == 0 {
            op0(NopreOpcodeMnemonics::RET, 1, 16)
        } else if p == 1 {
            op0(NopreOpcodeMnemonics::RETI, 1, 16)
        } else if p == 2 {
            op1(NopreOpcodeMnemonics::JP, 1, 4, direct(NopreOperands::HL))
        } else {
            op2(NopreOpcodeMnemonics::LD, 1, 8, direct(NopreOperands::SP), direct(NopreOperands::HL))
        }
    } else if z == 2 {
        if y < 4 {
            branch(
                op2(
                    NopreOpcodeMnemonics::JP,
                    3,
                    16,
                    condition_operand(y),
                    direct(NopreOperands::a16),
                ),
                12,
            )
        } else if y == 4 {
            op2(NopreOpcodeMnemonics::LDH, 1, 8, indirect(NopreOperands::C), direct(NopreOperands::A))
        } else if y == 5 {
            op2(NopreOpcodeMnemonics::LD, 3, 16, indirect(NopreOperands::a16), direct(NopreOperands::A))
        } else if y == 6 {
            op2(NopreOpcodeMnemonics::LDH, 1, 8, direct(NopreOperands::A), indirect(NopreOperands::C))
        } else {
            op2(NopreOpcodeMnemonics::LD, 3, 16, direct(NopreOperands::A), indirect(NopreOperands::a16))
        }
    } else if z == 3 {
        if y == 0 {
            op1(NopreOpcodeMnemonics::JP, 3, 16, direct(NopreOperands::a16))
        } else if y == 1 {
            op0(NopreOpcodeMnemonics::PREFIX, 1, 4)
        } else if y == 6 {
            op0(NopreOpcodeMnemonics::DI, 1, 4)
        } else if y == 7 {
            op0(NopreOpcodeMnemonics::EI, 1, 4)
        } else {
            op0(illegal_mnemonic(opcode), 1, 4)
        }
    } else if z == 4 {
        if y < 4 {
            branch(
                op2(
                    NopreOpcodeMnemonics::CALL,
                    3,
                    24,
                    condition_operand(y),
                    direct(NopreOperands::a16),
                ),
                12,
            )
        } else {
            op0(illegal_mnemonic(opcode), 1, 4)
        }
    } else if z == 5 {
        if q == 0 {
            op1(NopreOpcodeMnemonics::PUSH, 1, 16, stack_pair_operand(p))
        } else if p == 0 {
            op1(NopreOpcodeMnemonics::CALL, 3, 24, direct(NopreOperands::a16))
        } else {
            op0(illegal_mnemonic(opcode), 1, 4)
        }
    } else if z == 6 {
        op2(alu_mnemonic(y), 2, 8, direct(NopreOperands::A), direct(NopreOperands::n8))
    } else {
        op1(NopreOpcodeMnemonics::RST, 1, 16, restart_operand(y))
    }
}

/// The descriptor of an opcode of the unprefixed page.
pub fn decode_opcode(opcode: u8) -> (r: Opcode)
    ensures
        r == spec_decode_opcode(opcode),
{
    let x = opcode / 64;
    let y = (opcode / 8) % 8;
    let z = opcode % 8;
    if x == 0 {
        decode_block0(y, z)
    } else if x == 1 {
        if y == 6 && z == 6 {
            op0(NopreOpcodeMnemonics::HALT, 1, 4)
        } else {
            op2(
                NopreOpcodeMnemonics::LD,
                1,
                if y == 6 || z == 6 { 8 } else { 4 },
                register_operand(y),
                register_operand(z),
            )
        }
    } else if x == 2 {
        op2(
            alu_mnemonic(y),
            1,
            if z == 6 { 8 } else { 4 },
            direct(NopreOperands::A),
            register_operand(z),
        )
    } else {
        decode_block3(opcode, y, z)
    }
}

/// The location that three bits of a prefixed opcode select; HL stands for the memory at HL.
pub fn prefixed_target(index: u8) -> (r: PreOperands)
    ensures
        r == spec_prefixed_target(index),
{
    if index == 0 {
        PreOperands::B
    } else if index == 1 {
        PreOperands::C
    } else if index == 2 {
        PreOperands::D
    } else if index == 3 {
        PreOperands::E
    } else if index == 4 {
        PreOperands::H
    } else if index == 5 {
        PreOperands::L
    } else if index == 6 {
        PreOperands::HL
    } else {
        PreOperands::A
    }
}

/// The rotate or shift family that three bits of a prefixed opcode select.
pub fn shift_mnemonic(index: u8) -> (r: PrefixOpcodeMnemonics)
    ensures
        r == spec_shift_mnemonic(index),
{
    if index == 0 {
        PrefixOpcodeMnemonics::RLC
    } else if index == 1 {
        PrefixOpcodeMnemonics::RRC
    } else if index == 2 {
        PrefixOpcodeMnemonics::RL
    } else if index == 3 {
        PrefixOpcodeMnemonics::RR
    } else if index == 4 {
        PrefixOpcodeMnemonics::SLA
    } else if index == 5 {
        PrefixOpcodeMnemonics::SRA
    } else if index == 6 {
        PrefixOpcodeMnemonics::SWAP
    } else {
        PrefixOpcodeMnemonics::SRL
    }
}

/// The descriptor of an opcode of the prefixed page.
pub fn decode_prefixed(opcode: u8) -> (r: PrefixedOpcode)
    ensures
        r == spec_decode_prefixed(opcode),
{
    let x = opcode / 64;
    let y = (opcode / 8) % 8;
    let z = opcode % 8;
    let target = prefixed_target(z);
    if x == 0 {
        PrefixedOpcode {
            mnemonic: shift_mnemonic(y),
            bit: 0,
            target,
            bytes: 2,
            cycles: if z == 6 { 16 } else { 8 },
        }
    } else if x == 1 {
        PrefixedOpcode {
            mnemonic: PrefixOpcodeMnemonics::BIT,
            bit: y,
            target,
            bytes: 2,
            cycles: if z == 6 { 12 } else { 8 },
        }
    } else if x == 2 {
        PrefixedOpcode {
            mnemonic: PrefixOpcodeMnemonics::RES,
            bit: y,
            target,
            bytes: 2,
            cycles: if z == 6 { 16 } else { 8 },
        }
    } else {
        PrefixedOpcode {
            mnemonic: PrefixOpcodeMnemonics::SET,
            bit: y,
            target,
            bytes: 2,
            cycles: if z == 6 { 16 } else { 8 },
        }
    }
}

/// The descriptors of all 256 opcodes of the unprefixed page, by opcode.
pub fn default_opcodes() -> (table: Vec<Opcode>)
    ensures
        table@.len() == 256,
        forall|i: int| 0 <= i < 256 ==> table@[i] == spec_decode_opcode(i as u8),
{
    let mut table: Vec<Opcode> = Vec::new();
    let mut i: usize = 0;
    while i < 256
        invariant
            i <= 256,
            table@.len() == i,
            forall|j: int| 0 <= j < i ==> table@[j] == spec_decode_opcode(j as u8),
        decreases 256 - i,
    {
        table.push(decode_opcode(i as u8));
        i += 1;
    }
    table
}

/// The descriptors of all 256 opcodes of the prefixed page, by opcode.
pub fn default_prefixed_opcodes() -> (table: Vec<PrefixedOpcode>)
    ensures
        table@.len() == 256,
        forall|i: int| 0 <= i < 256 ==> table@[i] == spec_decode_prefixed(i as u8),
{
    let mut table: Vec<PrefixedOpcode> = Vec::new();
    let mut i: usize = 0;
    while i < 256
        invariant
            i <= 256,
            table@.len() == i,
            forall|j: int| 0 <= j < i ==> table@[j] == spec_decode_prefixed(j as u8),
        decreases 256 - i,
    {
        table.push(decode_prefixed(i as u8));
        i += 1;
    }
    table
}

/// The key of an opcode: `0x` and its two upper-case hexadecimal digits.
pub open spec fn opcode_key_spec(opcode: u8) -> Seq<char> {
    seq!['0', 'x', hex_digit_spec(opcode / 16), hex_digit_spec(opcode % 16)]
}

/// The key of an opcode: `0x` and its two upper-case hexadecimal digits.
pub fn opcode_key(opcode: u8) -> (key: String)
    ensures
        key@ == opcode_key_spec(opcode),
{
    let mut key = String::new();
    push_char(&mut key, '0');
    push_char(&mut key, 'x');
    push_char(&mut key, hex_digit(opcode / 16));
    push_char(&mut key, hex_digit(opcode % 16));
    assert(key@ =~= opcode_key_spec(opcode));
    key
}

/// The bit index that an operand name of the prefixed page stands for;
/// nothing if it names a register.
pub open spec fn bit_index_spec(name: PreOperands) -> Option<u8> {
    match name {
        PreOperands::N0 => Some(0u8),
        PreOperands::N1 => Some(1u8),
        PreOperands::N2 => Some(2u8),
        PreOperands::N3 => Some(3u8),
        PreOperands::N4 => Some(4u8),
        PreOperands::N5 => Some(5u8),
        PreOperands::N6 => Some(6u8),
        PreOperands::N7 => Some(7u8),
        _ => None,
    }
}

/// The bit index that an operand name of the prefixed page stands for.
pub fn bit_index(name: &PreOperands) -> (bit: Option<u8>)
    ensures
        bit == bit_index_spec(*name),
{
    match name {
        PreOperands::N0 => Some(0),
        PreOperands::N1 => Some(1),
        PreOperands::N2 => Some(2),
        PreOperands::N3 => Some(3),
        PreOperands::N4 => Some(4),
        PreOperands::N5 => Some(5),
        PreOperands::N6 => Some(6),
        PreOperands::N7 => Some(7),
        _ => None,
    }
}

impl Operand {
    /// The operand with its name as a tag.
    pub open spec fn spec_tag(&self) -> OperandTag {
        OperandTag {
            name: NopreOperands::from_spec(self.name),
            immediate: self.immediate,
            increment: self.increment is Some,
            decrement: self.decrement is Some,
        }
    }

    /// The operand with its name as a tag.
    pub fn tag(&self) -> (tag: OperandTag)
        ensures
            tag == self.spec_tag(),
    {
        OperandTag {
            name: NopreOperands::from(self.name.clone()),
            immediate: self.immediate,
            increment: self.increment.is_some(),
            decrement: self.decrement.is_some(),
        }
    }

    /// A copy of the operand.
    pub fn copy(&self) -> (operand: Operand)
        ensures
            operand == *self,
    {
        Operand {
            name: self.name.clone(),
            immediate: self.immediate,
            increment: self.increment,
            decrement: self.decrement,
            bytes: self.bytes,
        }
    }
}

impl Instruction {
    pub fn operands_tuple(&self) -> (pair: Option<(Operand, Operand)>)
        ensures
            self.operands@.len() == 2 ==> pair == Some((self.operands@[0], self.operands@[1])),
            self.operands@.len() != 2 ==> pair.is_none(),
    {
        if self.operands.len() == 2 {
            return Some((self.operands[0].copy(), self.operands[1].copy()));
        }
        None
    }

    /// The tag of operand `index`; the filler where the list is shorter.
    pub open spec fn spec_operand_tag(&self, index: int) -> OperandTag {
        if index < self.operands@.len() {
            self.operands@[index].spec_tag()
        } else {
            spec_no_operand()
        }
    }

    /// Whether the numbers of the instruction fit a descriptor: a length
    /// and one or two cycle counts below 256, and at most three operands.
    pub open spec fn fits_descriptor(&self) -> bool {
        &&& self.bytes <= 255
        &&& 1 <= self.cycles@.len() <= 2
        &&& forall|i: int| 0 <= i < self.cycles@.len() ==> self.cycles@[i] <= 255
        &&& self.operands@.len() <= 3
    }

    /// The descriptor of the instruction as one of the unprefixed page;
    /// nothing if its numbers do not fit one.
    pub open spec fn spec_to_opcode(&self) -> Option<Opcode> {
        if self.fits_descriptor() {
            Some(
                Opcode {
                    mnemonic: NopreOpcodeMnemonics::from_spec(self.mnemonic),
                    bytes: self.bytes as u8,
                    cycles: self.cycles@[0] as u8,
                    cycles_alt: self.cycles@[self.cycles@.len() - 1] as u8,
                    n_operands: self.operands@.len() as u8,
                    first: self.spec_operand_tag(0),
                    second: self.spec_operand_tag(1),
                    third: self.spec_operand_tag(2),
                },
            )
        } else {
            None
        }
    }

    fn operand_tag(&self, index: usize) -> (tag: OperandTag)
        ensures
            tag == self.spec_operand_tag(index as int),
    {
        if index < self.operands.len() {
            self.operands[index].tag()
        } else {
            no_operand()
        }
    }

    /// The descriptor of the instruction as one of the unprefixed page;
    /// nothing if its numbers do not fit one.
    pub fn to_opcode(&self) -> (opcode: Option<Opcode>)
        ensures
            opcode == self.spec_to_opcode(),
    {
        let fits = self.bytes <= 255 && 1 <= self.cycles.len() && self.cycles.len() <= 2
            && self.operands.len() <= 3;
        if !fits || self.cycles[0] > 255 || self.cycles[self.cycles.len() - 1] > 255 {
            return None;
        }
        Some(
            Opcode {
                mnemonic: NopreOpcodeMnemonics::from(self.mnemonic.clone()),
                bytes: self.bytes as u8,
                cycles: self.cycles[0] as u8,
                cycles_alt: self.cycles[self.cycles.len() - 1] as u8,
                n_operands: self.operands.len() as u8,
                first: self.operand_tag(0),
                second: self.operand_tag(1),
                third: self.operand_tag(2),
            },
        )
    }

    /// The descriptor of the instruction as one of the prefixed page: the
    /// bit operations have a bit index and a location, the others a
    /// location alone. Nothing if the instruction has another shape.
    pub open spec fn spec_to_prefixed(&self) -> Option<PrefixedOpcode> {
        let mnemonic = PrefixOpcodeMnemonics::from_spec(self.mnemonic);
        let on_bit = mnemonic == PrefixOpcodeMnemonics::BIT || mnemonic
            == PrefixOpcodeMnemonics::RES || mnemonic == PrefixOpcodeMnemonics::SET;
        if self.bytes > 255 || self.cycles@.len() != 1 || self.cycles@[0] > 255 {
            None
        } else if on_bit && self.operands@.len() == 2 {
            match bit_index_spec(PreOperands::from_spec(self.operands@[0].name)) {
                Some(bit) => Some(
                    PrefixedOpcode {
                        mnemonic,
                        bit,
                        target: PreOperands::from_spec(self.operands@[1].name),
                        bytes: self.bytes as u8,
                        cycles: self.cycles@[0] as u8,
                    },
                ),
                None => None,
            }
        } else if !on_bit && self.operands@.len() == 1 {
            Some(
                PrefixedOpcode {
                    mnemonic,
                    bit: 0,
                    target: PreOperands::from_spec(self.operands@[0].name),
                    bytes: self.bytes as u8,
                    cycles: self.cycles@[0] as u8,
                },
            )
        } else {
            None
        }
    }

    /// The descriptor of the instruction as one of the prefixed page;
    /// nothing if the instruction has another shape.
    pub fn to_prefixed(&self) -> (opcode: Option<PrefixedOpcode>)
        ensures
            opcode == self.spec_to_prefixed(),
    {
        let mnemonic = PrefixOpcodeMnemonics::from(self.mnemonic.clone());
        let on_bit = matches!(mnemonic, PrefixOpcodeMnemonics::BIT) || matches!(
            mnemonic,
            PrefixOpcodeMnemonics::RES
        ) || matches!(mnemonic, PrefixOpcodeMnemonics::SET);
        if self.bytes > 255 || self.cycles.len() != 1 || self.cycles[0] > 255 {
            None
        } else if on_bit && self.operands.len() == 2 {
            match bit_index(&PreOperands::from(self.operands[0].name.clone())) {
                Some(bit) => Some(
                    PrefixedOpcode {
                        mnemonic,
                        bit,
                        target: PreOperands::from(self.operands[1].name.clone()),
                        bytes: self.bytes as u8,
                        cycles: self.cycles[0] as u8,
                    },
                ),
                None => None,
            }
        } else if !on_bit && self.operands.len() == 1 {
            Some(
                PrefixedOpcode {
                    mnemonic,
                    bit: 0,
                    target: PreOperands::from(self.operands[0].name.clone()),
                    bytes: self.bytes as u8,
                    cycles: self.cycles[0] as u8,
                },
            )
        } else {
            None
        }
    }
}

/// The index of the first of `entries` under `key`; nothing if there is
/// none.
pub open spec fn first_with_key(entries: Seq<(String, Instruction)>, key: Seq<char>) -> Option<int>
    decreases entries.len(),
{
    if entries.len() == 0 {
        None
    } else {
        match first_with_key(entries.drop_last(), key) {
            Some(index) => Some(index),
            None => if entries.last().0@ == key {
                Some(entries.len() - 1)
            } else {
                None
            },
        }
    }
}

proof fn lemma_first_with_key(entries: Seq<(String, Instruction)>, key: Seq<char>, index: int)
    requires
        0 <= index < entries.len(),
        entries[index].0@ == key,
        forall|j: int| 0 <= j < index ==> entries[j].0@ != key,
    ensures
        first_with_key(entries, key) == Some(index),
    decreases entries.len(),
{
    if index < entries.len() - 1 {
        lemma_first_with_key(entries.drop_last(), key, index);
    } else {
        lemma_no_key(entries.drop_last(), key);
    }
}

proof fn lemma_no_key(entries: Seq<(String, Instruction)>, key: Seq<char>)
    requires
        forall|j: int| 0 <= j < entries.len() ==> entries[j].0@ != key,
    ensures
        first_with_key(entries, key) is None,
    decreases entries.len(),
{
    if entries.len() > 0 {
        lemma_no_key(entries.drop_last(), key);
    }
}

impl Instructions {
    /// The instruction under the key of an opcode, as a descriptor of the
    /// unprefixed page; nothing if the key is missing or the instruction
    /// does not fit a descriptor.
    pub open spec fn spec_opcode(&self, opcode: u8) -> Option<Opcode> {
        match first_with_key(self.0@, opcode_key_spec(opcode)) {
            Some(index) => self.0@[index].1.spec_to_opcode(),
            None => None,
        }
    }

    /// The instruction under the key of an opcode, as a descriptor of the
    /// prefixed page.
    pub open spec fn spec_prefixed(&self, opcode: u8) -> Option<PrefixedOpcode> {
        match first_with_key(self.0@, opcode_key_spec(opcode)) {
            Some(index) => self.0@[index].1.spec_to_prefixed(),
            None => None,
        }
    }

    /// The index of the first instruction under a key.
    pub fn find(&self, key: &str) -> (found: Option<usize>)
        ensures
            match found {
                Some(index) => first_with_key(self.0@, key@) == Some(index as int) && index
                    < self.0@.len(),
                None => first_with_key(self.0@, key@) is None,
            },
    {
        let mut i: usize = 0;
        while i < self.0.len()
            invariant
                i <= self.0@.len(),
                forall|j: int| 0 <= j < i ==> self.0@[j].0@ != key@,
            decreases self.0@.len() - i,
        {
            if str_equals(self.0[i].0.as_str(), key) {
                proof {
                    lemma_first_with_key(self.0@, key@, i as int);
                }
                return Some(i);
            }
            i += 1;
        }
        proof {
            lemma_no_key(self.0@, key@);
        }
        None
    }

    /// The 256 descriptors of the unprefixed page in the order of their
    /// opcodes. It fails if an opcode has no instruction under its key or
    /// the instruction does not fit a descriptor.
    pub fn opcodes(&self) -> (table: Result<Vec<Opcode>, Errors>)
        ensures
            (forall|opcode: u8| self.spec_opcode(opcode) is Some) ==> table.is_ok()
                && table.unwrap()@.len() == 256 && forall|i: int|
                0 <= i < 256 ==> Some(#[trigger] table.unwrap()@[i]) == self.spec_opcode(i as u8),
            (exists|opcode: u8| self.spec_opcode(opcode) is None) ==> table == Err::<
                Vec<Opcode>,
                Errors,
            >(Errors::InstructionTable),
    {
        let mut table: Vec<Opcode> = Vec::new();
        let mut i: usize = 0;
        while i < 256
            invariant
                i <= 256,
                table@.len() == i,
                forall|j: int| 0 <= j < i ==> Some(#[trigger] table@[j]) == self.spec_opcode(j as u8),
            decreases 256 - i,
        {
            let key = opcode_key(i as u8);
            let entry = match self.find(key.as_str()) {
                Some(index) => self.0[index].1.to_opcode(),
                None => None,
            };
            match entry {
                Some(opcode) => table.push(opcode),
                None => {
                    assert(self.spec_opcode(i as u8) is None);
                    return Err(Errors::InstructionTable);
                },
            }
            i += 1;
        }
        assert forall|opcode: u8| self.spec_opcode(opcode) is Some by {
            assert(Some(table@[opcode as int]) == self.spec_opcode(opcode));
        }
        Ok(table)
    }

    /// The 256 descriptors of the prefixed page in the order of their
    /// opcodes. It fails if an opcode has no instruction under its key or
    /// the instruction has not the shape of a prefixed one.
    pub fn prefixed_opcodes(&self) -> (table: Result<Vec<PrefixedOpcode>, Errors>)
        ensures
            (forall|opcode: u8| self.spec_prefixed(opcode) is Some) ==> table.is_ok()
                && table.unwrap()@.len() == 256 && forall|i: int|
                0 <= i < 256 ==> Some(#[trigger] table.unwrap()@[i]) == self.spec_prefixed(i as u8),
            (exists|opcode: u8| self.spec_prefixed(opcode) is None) ==> table == Err::<
                Vec<PrefixedOpcode>,
                Errors,
            >(Errors::InstructionTable),
    {
        let mut table: Vec<PrefixedOpcode> = Vec::new();
        let mut i: usize = 0;
        while i < 256
            invariant
                i <= 256,
                table@.len() == i,
                forall|j: int|
                    0 <= j < i ==> Some(#[trigger] table@[j]) == self.spec_prefixed(j as u8),
            decreases 256 - i,
        {
            let key = opcode_key(i as u8);
            let entry = match self.find(key.as_str()) {
                Some(index) => self.0[index].1.to_prefixed(),
                None => None,
            };
            match entry {
                Some(opcode) => table.push(opcode),
                None => {
                    assert(self.spec_prefixed(i as u8) is None);
                    return Err(Errors::InstructionTable);
                },
            }
            i += 1;
        }
        assert forall|opcode: u8| self.spec_prefixed(opcode) is Some by {
            assert(Some(table@[opcode as int]) == self.spec_prefixed(opcode));
        }
        Ok(table)
    }
}

} // verus!

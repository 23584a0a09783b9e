use crate::bus::{
    lowest_interrupt, next_address, pending_interrupts, Bus, BusView, InteruptReg, InteruptType, DIV,
    IF,
};
use crate::register::Registers;
use crate::util::display_impl::{hex_byte, hex_word, push_hex_byte, push_hex_word};
use crate::util::error_type::Errors;
use crate::util::extract_opcode::{
    decode_opcode, decode_prefixed, spec_decode_opcode, spec_decode_prefixed, Opcode, OperandTag,
    PrefixedOpcode,
};
use crate::util::math_util::{
    adc, adc_spec, addition, addition_16bit, addition_16bit_spec, addition_spec, and, and_spec,
    compare, compare_spec, complement, complement_spec, daa, daa_spec, dec, dec_16bit,
    dec_16bit_spec, dec_spec, inc, inc_16bit, inc_16bit_spec, inc_spec, or, or_spec, res_bit,
    rotate_left, rotate_left_carry, rotate_left_carry_spec, rotate_left_spec, rotate_right,
    rotate_right_carry, rotate_right_carry_spec, rotate_right_spec, sbc, sbc_spec, set_bit,
    shift_left_arithmetic, shift_left_arithmetic_spec, shift_right_arithmetic,
    shift_right_arithmetic_spec, shift_right_logical, shift_right_logical_spec, signed_addition,
    signed_addition_spec, subtraction, subtraction_spec, swap_nibble, swap_nibble_spec, test_bit,
    test_bit_spec, xor, xor_spec,
};
use crate::util::opcode_dict_util::{
    NopreOpcodeMnemonics, NopreOperands, PreOperands, PrefixOpcodeMnemonics,
};
use crate::util::u8_traits::byte_with_bit;
use vstd::prelude::*;
use vstd::string::StringExecFns;

verus! {

/// Where an 8-bit operand lives: in a register, in a memory cell, in the
/// instruction itself, or nowhere that the processor can reach.
#[derive(Debug, Clone, Copy, PartialEq, Eq, Structural)]
pub enum Location {
    Register(NopreOperands),
    Memory(u16),
    Value(u8),
    Nowhere,
}

/// The address `offset` bytes after `address`, wrapping at the end of the
/// address space.
pub open spec fn address_after(address: u16, offset: int) -> u16 {
    ((address + offset) % 0x1_0000) as u16
}

/// The address `offset` bytes before `address`, wrapping at the start of
/// the address space.
pub open spec fn address_before(address: u16, offset: int) -> u16 {
    ((address - offset) % 0x1_0000) as u16
}

/// The address in the last page of the address space at `offset`.
pub open spec fn high_page(offset: u8) -> u16 {
    (0xFF00 + offset) as u16
}

/// Where the 8-bit operand that a descriptor names lives.
pub open spec fn spec_locate(reg: Registers, bus: BusView, operand: OperandTag) -> Location {
    match operand.name {
        NopreOperands::A
        | NopreOperands::B
        | NopreOperands::D
        | NopreOperands::E
        | NopreOperands::H
        | NopreOperands::L => if operand.immediate {
            Location::Register(operand.name)
        } else {
            Location::Nowhere
        },
        NopreOperands::C => if operand.immediate {
            Location::Register(operand.name)
        } else {
            Location::Memory(high_page(reg.spec_c()))
        },
        NopreOperands::BC => if operand.immediate {
            Location::Nowhere
        } else {
            Location::Memory(reg.bc)
        },
        NopreOperands::DE => if operand.immediate {
            Location::Nowhere
        } else {
            Location::Memory(reg.de)
        },
        NopreOperands::HL => if operand.immediate {
            Location::Nowhere
        } else {
            Location::Memory(reg.hl)
        },
        NopreOperands::n8 => if operand.immediate {
            Location::Value(bus.read_cpu(next_address(reg.pc)))
        } else {
            Location::Nowhere
        },
        NopreOperands::a8 => if operand.immediate {
            Location::Nowhere
        } else {
            Location::Memory(high_page(bus.read_cpu(next_address(reg.pc))))
        },
        NopreOperands::a16 => if operand.immediate {
            Location::Nowhere
        } else {
            Location::Memory(bus.read16_cpu(next_address(reg.pc)))
        },
        _ => Location::Nowhere,
    }
}

/// The byte at a location; zero where there is none.
pub open spec fn spec_load(reg: Registers, bus: BusView, place: Location) -> u8 {
    match place {
        Location::Register(name) => reg.spec_get(name),
        Location::Memory(address) => bus.read_cpu(address),
        Location::Value(value) => value,
        Location::Nowhere => 0,
    }
}

/// Whether a byte can be stored at a location.
pub open spec fn spec_writable(place: Location) -> bool {
    place is Register || place is Memory
}

/// The registers and the bus after a byte is stored at a location.
pub open spec fn spec_store(reg: Registers, bus: BusView, place: Location, value: u8) -> (
    Registers,
    BusView,
) {
    match place {
        Location::Register(name) => (reg.with_byte_reg(name, value), bus),
        Location::Memory(address) => (reg, bus.write_cpu(address, value)),
        _ => (reg, bus),
    }
}

/// The registers after an access through an operand: the pair HL moves up
/// or down by one where the operand asks for it.
pub open spec fn spec_after_access(reg: Registers, operand: OperandTag) -> Registers {
    if operand.name == NopreOperands::HL && !operand.immediate && operand.increment {
        Registers { hl: address_after(reg.hl, 1), ..reg }
    } else if operand.name == NopreOperands::HL && !operand.immediate && operand.decrement {
        Registers { hl: address_before(reg.hl, 1), ..reg }
    } else {
        reg
    }
}

/// Whether the branch condition that an operand names holds; nothing if it
/// names no condition.
pub open spec fn spec_condition(reg: Registers, name: NopreOperands) -> Option<bool> {
    match name {
        NopreOperands::Z => Some(reg.spec_flag_z()),
        NopreOperands::NZ => Some(!reg.spec_flag_z()),
        NopreOperands::C => Some(reg.spec_flag_c()),
        NopreOperands::NC => Some(!reg.spec_flag_c()),
        _ => None,
    }
}

/// The address that a restart operand names; nothing if it names none.
pub open spec fn spec_restart_vector(name: NopreOperands) -> Option<u16> {
    match name {
        NopreOperands::X00 => Some(0x0000u16),
        NopreOperands::X08 => Some(0x0008u16),
        NopreOperands::X10 => Some(0x0010u16),
        NopreOperands::X18 => Some(0x0018u16),
        NopreOperands::X20 => Some(0x0020u16),
        NopreOperands::X28 => Some(0x0028u16),
        NopreOperands::X30 => Some(0x0030u16),
        NopreOperands::X38 => Some(0x0038u16),
        _ => None,
    }
}

/// Whether an operand names a register pair that push and pop work on.
pub open spec fn is_stack_pair(name: NopreOperands) -> bool {
    name == NopreOperands::AF || name == NopreOperands::BC || name == NopreOperands::DE || name
        == NopreOperands::HL
}

/// Whether an operand names a register pair of 16-bit arithmetic.
pub open spec fn is_wide_pair(name: NopreOperands) -> bool {
    name == NopreOperands::BC || name == NopreOperands::DE || name == NopreOperands::HL || name
        == NopreOperands::SP
}

/// The processor: its registers, its interrupt and halt state, the
/// countdown that paces it, and the two tables that describe its opcodes.
pub struct CPU {
    pub reg: Registers,
    pub cycles_since_last_cmd: u64,
    pub cycles_to_wait: u8,
    pub total_tick: u64,
    /// Interrupt master enable.
    pub ime: bool,
    /// Set by EI: the master enable is switched on once the instruction
    /// after it has run.
    pub ime_scheduled: bool,
    pub halted: bool,
    /// The next opcode is read without the program counter moving past it.
    pub halt_bug: bool,
    /// The processor met an opcode that it cannot run, and stands still.
    pub locked: bool,
    pub interupt_reg: InteruptReg,
    pub opcode: u8,
    pub next_pc: u16,
    pub instruction_dict_notprefixed: [Opcode; 256],
    pub instruction_dict_prefixed: [PrefixedOpcode; 256],
}

/// What every instruction keeps: the low four bits of the flag register
/// stay zero, and the clock cycles are those that the descriptor gave or
/// its alternative.
pub open spec fn keeps_invariants(before: CPU, after: CPU, cycles_alt: u8) -> bool {
    &&& before.reg.wf() ==> after.reg.wf()
    &&& after.cycles_to_wait == before.cycles_to_wait || after.cycles_to_wait == cycles_alt
}

/// What every instruction but a jump, call or return keeps: the address of
/// the next instruction, unless the processor locks up.
pub open spec fn falls_through(before: CPU, after: CPU) -> bool {
    after.next_pc == before.next_pc || after == before.spec_lock()
}

/// Whether a mnemonic names a jump, a call or a return.
pub open spec fn is_control_transfer(mnemonic: NopreOpcodeMnemonics) -> bool {
    mnemonic == NopreOpcodeMnemonics::JP || mnemonic == NopreOpcodeMnemonics::JR || mnemonic
        == NopreOpcodeMnemonics::CALL || mnemonic == NopreOpcodeMnemonics::RET || mnemonic
        == NopreOpcodeMnemonics::RETI || mnemonic == NopreOpcodeMnemonics::RST
}

impl CPU {
    /// The processor locked up: it stands at the instruction it could not
    /// run.
    pub open spec fn spec_lock(self) -> CPU {
        CPU { locked: true, next_pc: self.reg.pc, ..self }
    }

    /// The address of the instruction after the one at the program counter.
    pub open spec fn spec_return_address(self, instruction: Opcode) -> u16 {
        address_after(self.reg.pc, instruction.bytes as int)
    }

    /// The processor and the bus after a word is pushed on the stack.
    pub open spec fn spec_push_word(self, bus: BusView, value: u16) -> (CPU, BusView) {
        let sp = address_before(self.reg.sp, 2);
        (CPU { reg: Registers { sp, ..self.reg }, ..self }, bus.write16_cpu(sp, value))
    }

    /// PUSH: the stack pointer goes down by two and the pair is stored at it.
    pub open spec fn op_push_spec(self, bus: BusView, instruction: Opcode) -> (CPU, BusView) {
        if instruction.n_operands == 1 && is_stack_pair(instruction.first.name) {
            self.spec_push_word(bus, self.reg.spec_get_pair(instruction.first.name))
        } else {
            (self.spec_lock(), bus)
        }
    }

    /// POP: the pair is loaded from the stack and the stack pointer goes up
    /// by two. The low four bits of the flag register stay zero.
    pub open spec fn op_pop_spec(self, bus: BusView, instruction: Opcode) -> (CPU, BusView) {
        if instruction.n_operands == 1 && is_stack_pair(instruction.first.name) {
            let loaded = self.reg.with_pair(instruction.first.name, bus.read16_cpu(self.reg.sp));
            (CPU { reg: Registers { sp: address_after(self.reg.sp, 2), ..loaded }, ..self }, bus)
        } else {
            (self.spec_lock(), bus)
        }
    }

    /// RST: a call to a fixed address.
    pub open spec fn op_rst_spec(self, bus: BusView, instruction: Opcode) -> (CPU, BusView) {
        match spec_restart_vector(instruction.first.name) {
            Some(vector) => if instruction.n_operands == 1 {
                let pushed = self.spec_push_word(bus, self.spec_return_address(instruction));
                (CPU { next_pc: vector, ..pushed.0 }, pushed.1)
            } else {
                (self.spec_lock(), bus)
            },
            None => (self.spec_lock(), bus),
        }
    }

    /// Whether a branch with this descriptor is taken: always without a
    /// condition, by the flags with one; nothing if the descriptor has
    /// neither shape.
    pub open spec fn spec_branch_taken(self, instruction: Opcode, plain: int) -> Option<bool> {
        if instruction.n_operands == plain {
            Some(true)
        } else if instruction.n_operands == plain + 1 {
            spec_condition(self.reg, instruction.first.name)
        } else {
            None
        }
    }

    /// CALL: the address of the next instruction is pushed and the program
    /// continues at the address in the instruction. A call whose condition
    /// fails does nothing and takes the shorter time.
    pub open spec fn op_call_spec(self, bus: BusView, instruction: Opcode) -> (CPU, BusView) {
        match self.spec_branch_taken(instruction, 1) {
            Some(taken) => if taken {
                let pushed = self.spec_push_word(bus, self.spec_return_address(instruction));
                (CPU { next_pc: bus.read16_cpu(next_address(self.reg.pc)), ..pushed.0 }, pushed.1)
            } else {
                (CPU { cycles_to_wait: instruction.cycles_alt, ..self }, bus)
            },
            None => (self.spec_lock(), bus),
        }
    }

    /// RET: the program continues at the address popped from the stack. A
    /// return whose condition fails does nothing and takes the shorter time.
    pub open spec fn op_ret_spec(self, bus: BusView, instruction: Opcode) -> (CPU, BusView) {
        match self.spec_branch_taken(instruction, 0) {
            Some(taken) => if taken {
                (
                    CPU {
                        next_pc: bus.read16_cpu(self.reg.sp),
                        reg: Registers { sp: address_after(self.reg.sp, 2), ..self.reg },
                        ..self
                    },
                    bus,
                )
            } else {
                (CPU { cycles_to_wait: instruction.cycles_alt, ..self }, bus)
            },
            None => (self.spec_lock(), bus),
        }
    }

    /// The operand of a branch that names its target.
    pub open spec fn spec_target_operand(instruction: Opcode) -> OperandTag {
        if instruction.n_operands == 1 {
            instruction.first
        } else {
            instruction.second
        }
    }

    /// JP: the program continues at the address in the instruction or in HL.
    pub open spec fn op_jump_spec(self, bus: BusView, instruction: Opcode) -> (CPU, BusView) {
        let target = Self::spec_target_operand(instruction);
        match self.spec_branch_taken(instruction, 1) {
            Some(taken) => if target.name == NopreOperands::HL && target.immediate {
                if taken {
                    (CPU { next_pc: self.reg.hl, ..self }, bus)
                } else {
                    (CPU { cycles_to_wait: instruction.cycles_alt, ..self }, bus)
                }
            } else if target.name == NopreOperands::a16 && target.immediate {
                if taken {
                    (CPU { next_pc: bus.read16_cpu(next_address(self.reg.pc)), ..self }, bus)
                } else {
                    (CPU { cycles_to_wait: instruction.cycles_alt, ..self }, bus)
                }
            } else {
                (self.spec_lock(), bus)
            },
            None => (self.spec_lock(), bus),
        }
    }

    /// JR: the program continues at the next instruction moved by the signed
    /// byte in the instruction.
    pub open spec fn op_jump_rel_spec(self, bus: BusView, instruction: Opcode) -> (CPU, BusView) {
        let target = Self::spec_target_operand(instruction);
        match self.spec_branch_taken(instruction, 1) {
            Some(taken) => if target.name == NopreOperands::e8 && target.immediate {
                if taken {
                    (
                        CPU {
                            next_pc: signed_addition_spec(
                                self.spec_return_address(instruction),
                                bus.read_cpu(next_address(self.reg.pc)),
                            ).0,
                            ..self
                        },
                        bus,
                    )
                } else {
                    (CPU { cycles_to_wait: instruction.cycles_alt, ..self }, bus)
                }
            } else {
                (self.spec_lock(), bus)
            },
            None => (self.spec_lock(), bus),
        }
    }

    /// Where the 8-bit operand that a descriptor names lives.
    pub fn locate(&self, bus: &Bus, operand: &OperandTag) -> (place: Location)
        ensures
            place == spec_locate(self.reg, bus@, *operand),
    {
        match operand.name {
            NopreOperands::A
            | NopreOperands::B
            | NopreOperands::D
            | NopreOperands::E
            | NopreOperands::H
            | NopreOperands::L => if operand.immediate {
                Location::Register(operand.name)
            } else {
                Location::Nowhere
            },
            NopreOperands::C => if operand.immediate {
                Location::Register(operand.name)
            } else {
                Location::Memory(get_a8_address(self.reg.get_c()))
            },
            NopreOperands::BC => if operand.immediate {
                Location::Nowhere
            } else {
                Location::Memory(self.reg.bc)
            },
            NopreOperands::DE => if operand.immediate {
                Location::Nowhere
            } else {
                Location::Memory(self.reg.de)
            },
            NopreOperands::HL => if operand.immediate {
                Location::Nowhere
            } else {
                Location::Memory(self.reg.hl)
            },
            NopreOperands::n8 => if operand.immediate {
                Location::Value(bus.read_next_byte(self.reg.pc))
            } else {
                Location::Nowhere
            },
            NopreOperands::a8 => if operand.immediate {
                Location::Nowhere
            } else {
                Location::Memory(get_a8_address(bus.read_next_byte(self.reg.pc)))
            },
            NopreOperands::a16 => if operand.immediate {
                Location::Nowhere
            } else {
                Location::Memory(bus.get_a16_address(self.reg.pc))
            },
            _ => Location::Nowhere,
        }
    }

    /// The byte at a location; zero where there is none.
    pub fn load(&self, bus: &Bus, place: &Location) -> (value: u8)
        ensures
            value == spec_load(self.reg, bus@, *place),
    {
        match place {
            Location::Register(name) => self.reg.get(name),
            Location::Memory(address) => bus.read_byte_as_cpu(*address),
            Location::Value(value) => *value,
            Location::Nowhere => 0,
        }
    }

    /// Stores a byte at a location; does nothing where there is none.
    pub fn store(&mut self, bus: &mut Bus, place: &Location, value: u8)
        ensures
            old(self).reg.wf() ==> final(self).reg.wf(),
            final(self).reg == spec_store(old(self).reg, old(bus)@, *place, value).0,
            final(bus)@ == spec_store(old(self).reg, old(bus)@, *place, value).1,
            *final(self) == (CPU { reg: final(self).reg, ..*old(self) }),
    {
        match place {
            Location::Register(name) => self.reg.set_byte_reg(name, value),
            Location::Memory(address) => bus.write_byte_as_cpu(*address, value),
            _ => (),
        }
    }

    /// Moves HL up or down by one where the operand asks for it.
    fn after_access(&mut self, operand: &OperandTag)
        ensures
            old(self).reg.wf() ==> final(self).reg.wf(),
            *final(self) == (CPU { reg: spec_after_access(old(self).reg, *operand), ..*old(self) }),
    {
        if matches!(operand.name, NopreOperands::HL) && !operand.immediate {
            if operand.increment {
                self.reg.hl_plus();
            } else if operand.decrement {
                self.reg.hl_minus();
            }
        }
    }

    /// Whether the branch condition that an operand names holds.
    fn condition(&self, name: &NopreOperands) -> (holds: Option<bool>)
        ensures
            holds == spec_condition(self.reg, *name),
    {
        match name {
            NopreOperands::Z => Some(self.reg.flag_z()),
            NopreOperands::NZ => Some(!self.reg.flag_z()),
            NopreOperands::C => Some(self.reg.flag_c()),
            NopreOperands::NC => Some(!self.reg.flag_c()),
            _ => None,
        }
    }

    fn branch_taken(&self, instruction: &Opcode, plain: u8) -> (taken: Option<bool>)
        requires
            plain <= 1,
        ensures
            taken == self.spec_branch_taken(*instruction, plain as int),
    {
        if instruction.n_operands == plain {
            Some(true)
        } else if instruction.n_operands == plain + 1 {
            self.condition(&instruction.first.name)
        } else {
            None
        }
    }

    /// The processor stops at an instruction that it cannot run.
    fn lock(&mut self)
        ensures
            *final(self) == old(self).spec_lock(),
    {
        self.locked = true;
        self.next_pc = self.reg.pc;
    }

    fn return_address(&self, instruction: &Opcode) -> (address: u16)
        ensures
            address == self.spec_return_address(*instruction),
    {
        self.reg.pc.wrapping_add(instruction.bytes as u16)
    }

    fn push_word(&mut self, bus: &mut Bus, value: u16)
        ensures
            (*final(self), final(bus)@) == old(self).spec_push_word(old(bus)@, value),
    {
        self.reg.sp = self.reg.sp.wrapping_sub(2);
        bus.write_2_bytes_little_endian(self.reg.sp, value);
    }

    /// PUSH.
    fn op_push(&mut self, bus: &mut Bus, instruction: Opcode)
        ensures
            keeps_invariants(*old(self), *final(self), instruction.cycles_alt),
            falls_through(*old(self), *final(self)),
            (*final(self), final(bus)@) == old(self).op_push_spec(old(bus)@, instruction),
    {
        let address_operand = instruction.first.name;
        if instruction.n_operands != 1 {
            self.lock();
            return ;
        }
        let target_reg = match address_operand {
            NopreOperands::AF => self.reg.af,
            NopreOperands::BC => self.reg.bc,
            NopreOperands::DE => self.reg.de,
            NopreOperands::HL => self.reg.hl,
            _ => {
                self.lock();
                return ;
            },
        };
        self.push_word(bus, target_reg);
    }

    /// POP.
    #[verifier::rlimit(30)]
    fn op_pop(&mut self, bus: &mut Bus, instruction: Opcode)
        ensures
            keeps_invariants(*old(self), *final(self), instruction.cycles_alt),
            falls_through(*old(self), *final(self)),
            (*final(self), final(bus)@) == old(self).op_pop_spec(old(bus)@, instruction),
    {
        let address_operand = instruction.first.name;
        if instruction.n_operands != 1 {
            self.lock();
            return ;
        }
        match address_operand {
            NopreOperands::AF | NopreOperands::BC | NopreOperands::DE | NopreOperands::HL => {
                let stack_value = bus.read_2_bytes_little_endian(self.reg.sp);
                self.reg.set_pair(&address_operand, stack_value);
                self.reg.sp = self.reg.sp.wrapping_add(2);
            },
            _ => self.lock(),
        }
    }

    /// RST.
    fn op_rst(&mut self, bus: &mut Bus, instruction: Opcode)
        ensures
            keeps_invariants(*old(self), *final(self), instruction.cycles_alt),
            (*final(self), final(bus)@) == old(self).op_rst_spec(old(bus)@, instruction),
    {
        let address_operand = instruction.first.name;
        let address: u16 = match address_operand {
            NopreOperands::X00 => 0x0000,
            NopreOperands::X08 => 0x0008,
            NopreOperands::X10 => 0x0010,
            NopreOperands::X18 => 0x0018,
            NopreOperands::X20 => 0x0020,
            NopreOperands::X28 => 0x0028,
            NopreOperands::X30 => 0x0030,
            NopreOperands::X38 => 0x0038,
            _ => {
                self.lock();
                return ;
            },
        };
        if instruction.n_operands != 1 {
            self.lock();
            return ;
        }
        // the stack grows down by two bytes for the return address
        let back = self.return_address(&instruction);
        self.push_word(bus, back);
        self.next_pc = address;
    }

    /// CALL, with or without a condition.
    fn op_call(&mut self, bus: &mut Bus, instruction: Opcode)
        ensures
            keeps_invariants(*old(self), *final(self), instruction.cycles_alt),
            (*final(self), final(bus)@) == old(self).op_call_spec(old(bus)@, instruction),
    {
        match self.branch_taken(&instruction, 1) {
            Some(condition) => {
                if condition {
                    let target = bus.get_a16_address(self.reg.pc);
                    let back = self.return_address(&instruction);
                    self.push_word(bus, back);
                    self.next_pc = target;
                } else {
                    self.cycles_to_wait = instruction.cycles_alt;
                }
            },
            None => self.lock(),
        }
    }

    /// JR, with or without a condition.
    fn op_jump_rel(&mut self, bus: &mut Bus, instruction: Opcode)
        ensures
            keeps_invariants(*old(self), *final(self), instruction.cycles_alt),
            (*final(self), final(bus)@) == old(self).op_jump_rel_spec(old(bus)@, instruction),
    {
        let target = if instruction.n_operands == 1 {
            instruction.first
        } else {
            instruction.second
        };
        match self.branch_taken(&instruction, 1) {
            Some(condition) => {
                if !(matches!(target.name, NopreOperands::e8) && target.immediate) {
                    self.lock();
                } else if condition {
                    let next_byte = bus.read_next_byte(self.reg.pc);
                    let (next_pc, _, _) = signed_addition(
                        self.return_address(&instruction),
                        next_byte,
                    );
                    self.next_pc = next_pc;
                } else {
                    self.cycles_to_wait = instruction.cycles_alt;
                }
            },
            None => self.lock(),
        }
    }

    /// JP, with or without a condition.
    fn op_jump(&mut self, bus: &mut Bus, instruction: Opcode)
        ensures
            keeps_invariants(*old(self), *final(self), instruction.cycles_alt),
            (*final(self), final(bus)@) == old(self).op_jump_spec(old(bus)@, instruction),
    {
        let target = if instruction.n_operands == 1 {
            instruction.first
        } else {
            instruction.second
        };
        match self.branch_taken(&instruction, 1) {
            Some(condition) => {
                let new_pc = match target.name {
                    NopreOperands::HL => self.reg.hl,
                    NopreOperands::a16 => bus.get_a16_address(self.reg.pc),
                    _ => {
                        self.lock();
                        return ;
                    },
                };
                if !target.immediate {
                    self.lock();
                } else if condition {
                    self.next_pc = new_pc;
                } else {
                    self.cycles_to_wait = instruction.cycles_alt;
                }
            },
            None => self.lock(),
        }
    }

    fn op_ret(&mut self, bus: &mut Bus, instruction: Opcode)
        ensures
            keeps_invariants(*old(self), *final(self), instruction.cycles_alt),
            (*final(self), final(bus)@) == old(self).op_ret_spec(old(bus)@, instruction),
    {
        match self.branch_taken(&instruction, 0) {
            Some(condition) => {
                if condition {
                    self.next_pc = bus.read_2_bytes_little_endian(self.reg.sp);
                    self.reg.sp = self.reg.sp.wrapping_add(2);
                } else {
                    self.cycles_to_wait = instruction.cycles_alt;
                }
            },
            None => self.lock(),
        }
    }
}

/// The result of one of the 8-bit operations on the accumulator and a
/// second byte: (result, zero, subtract, half-carry, carry).
pub open spec fn spec_alu(mnemonic: NopreOpcodeMnemonics, a: u8, b: u8, carry: bool) -> (
    u8,
    bool,
    bool,
    bool,
    bool,
) {
    match mnemonic {
        NopreOpcodeMnemonics::ADD => addition_spec(a, b),
        NopreOpcodeMnemonics::ADC => adc_spec(a, b, carry),
        NopreOpcodeMnemonics::SUB => subtraction_spec(a, b),
        NopreOpcodeMnemonics::SBC => sbc_spec(a, b, carry),
        NopreOpcodeMnemonics::AND => and_spec(a, b),
        NopreOpcodeMnemonics::OR => or_spec(a, b),
        NopreOpcodeMnemonics::XOR => xor_spec(a, b),
        _ => (a, compare_spec(a, b).0, compare_spec(a, b).1, compare_spec(a, b).2, compare_spec(
            a,
            b,
        ).3),
    }
}

/// Whether a mnemonic names one of the eight 8-bit operations on the
/// accumulator and a second byte.
pub open spec fn is_alu(mnemonic: NopreOpcodeMnemonics) -> bool {
    mnemonic == NopreOpcodeMnemonics::ADD || mnemonic == NopreOpcodeMnemonics::ADC || mnemonic
        == NopreOpcodeMnemonics::SUB || mnemonic == NopreOpcodeMnemonics::SBC || mnemonic
        == NopreOpcodeMnemonics::AND || mnemonic == NopreOpcodeMnemonics::OR || mnemonic
        == NopreOpcodeMnemonics::XOR || mnemonic == NopreOpcodeMnemonics::CP
}

/// The result of a rotate, shift or swap of the prefixed page: (result,
/// zero, subtract, half-carry, carry).
pub open spec fn spec_shift(mnemonic: PrefixOpcodeMnemonics, value: u8, carry: bool) -> (
    u8,
    bool,
    bool,
    bool,
    bool,
) {
    match mnemonic {
        PrefixOpcodeMnemonics::RLC => rotate_left_spec(value),
        PrefixOpcodeMnemonics::RRC => rotate_right_spec(value),
        PrefixOpcodeMnemonics::RL => rotate_left_carry_spec(value, carry),
        PrefixOpcodeMnemonics::RR => rotate_right_carry_spec(value, carry),
        PrefixOpcodeMnemonics::SLA => shift_left_arithmetic_spec(value),
        PrefixOpcodeMnemonics::SRA => shift_right_arithmetic_spec(value),
        PrefixOpcodeMnemonics::SRL => shift_right_logical_spec(value),
        _ => swap_nibble_spec(value),
    }
}

/// Where the operand of a prefixed instruction lives.
pub open spec fn spec_prefixed_place(reg: Registers, target: PreOperands) -> Location {
    match target {
        PreOperands::A => Location::Register(NopreOperands::A),
        PreOperands::B => Location::Register(NopreOperands::B),
        PreOperands::C => Location::Register(NopreOperands::C),
        PreOperands::D => Location::Register(NopreOperands::D),
        PreOperands::E => Location::Register(NopreOperands::E),
        PreOperands::H => Location::Register(NopreOperands::H),
        PreOperands::L => Location::Register(NopreOperands::L),
        PreOperands::HL => Location::Memory(reg.hl),
        _ => Location::Nowhere,
    }
}

/// Whether a load descriptor moves a word rather than a byte.
pub open spec fn is_load_16bit(instruction: Opcode) -> bool {
    instruction.n_operands == 3 || instruction.second.name == NopreOperands::n16
        || instruction.second.name == NopreOperands::SP || instruction.first.name
        == NopreOperands::SP
}

/// Whether an arithmetic descriptor works on a register pair.
pub open spec fn is_arith_16bit(instruction: Opcode) -> bool {
    match instruction.mnemonic {
        NopreOpcodeMnemonics::ADD => instruction.first.name == NopreOperands::HL,
        NopreOpcodeMnemonics::INC | NopreOpcodeMnemonics::DEC => is_wide_pair(
            instruction.first.name,
        ) && instruction.first.immediate,
        _ => false,
    }
}

impl CPU {
    /// The processor with other registers.
    pub open spec fn with_reg(self, reg: Registers) -> CPU {
        CPU { reg, ..self }
    }

    /// An 8-bit load: the byte at the second operand goes to the first; HL
    /// moves where an operand asks for it. No flag changes.
    pub open spec fn op_load_8bit_spec(self, bus: BusView, instruction: Opcode) -> (CPU, BusView) {
        let from = spec_locate(self.reg, bus, instruction.second);
        let into = spec_locate(self.reg, bus, instruction.first);
        if instruction.n_operands == 2 && from != Location::Nowhere && spec_writable(into) {
            let value = spec_load(self.reg, bus, from);
            let stored = spec_store(spec_after_access(self.reg, instruction.second), bus, into, value);
            (self.with_reg(spec_after_access(stored.0, instruction.first)), stored.1)
        } else {
            (self.spec_lock(), bus)
        }
    }

    /// A 16-bit load: a pair takes the word in the instruction, the stack
    /// pointer takes HL or is stored in memory, or HL takes the stack
    /// pointer moved by a signed byte.
    pub open spec fn op_load_16bit_spec(self, bus: BusView, instruction: Opcode) -> (CPU, BusView) {
        let into = instruction.first;
        let from = instruction.second;
        if instruction.n_operands == 3 {
            if into.name == NopreOperands::HL && into.immediate && from.name == NopreOperands::SP
                && instruction.third.name == NopreOperands::e8 {
                let sum = signed_addition_spec(self.reg.sp, bus.read_cpu(next_address(self.reg.pc)));
                (
                    self.with_reg(
                        Registers { hl: sum.0, ..self.reg }.with_flags(false, false, sum.1, sum.2),
                    ),
                    bus,
                )
            } else {
                (self.spec_lock(), bus)
            }
        } else if instruction.n_operands == 2 {
            if from.name == NopreOperands::n16 && is_wide_pair(into.name) && into.immediate {
                (
                    self.with_reg(
                        self.reg.with_pair(into.name, bus.read16_cpu(next_address(self.reg.pc))),
                    ),
                    bus,
                )
            } else if from.name == NopreOperands::HL && from.immediate && into.name
                == NopreOperands::SP && into.immediate {
                (self.with_reg(Registers { sp: self.reg.hl, ..self.reg }), bus)
            } else if from.name == NopreOperands::SP && into.name == NopreOperands::a16
                && !into.immediate {
                (self, bus.write16_cpu(bus.read16_cpu(next_address(self.reg.pc)), self.reg.sp))
            } else {
                (self.spec_lock(), bus)
            }
        } else {
            (self.spec_lock(), bus)
        }
    }

    /// LD and LDH.
    pub open spec fn op_load_spec(self, bus: BusView, instruction: Opcode) -> (CPU, BusView) {
        if is_load_16bit(instruction) {
            self.op_load_16bit_spec(bus, instruction)
        } else {
            self.op_load_8bit_spec(bus, instruction)
        }
    }

    /// One of the eight operations on the accumulator and a second byte:
    /// the accumulator takes the result (not for CP) and the four flags
    /// are set from it.
    pub open spec fn op_alu_spec(self, bus: BusView, instruction: Opcode) -> (CPU, BusView) {
        let from = spec_locate(self.reg, bus, instruction.second);
        if instruction.n_operands == 2 && instruction.first.name == NopreOperands::A
            && instruction.first.immediate && from != Location::Nowhere {
            let r = spec_alu(
                instruction.mnemonic,
                self.reg.spec_a(),
                spec_load(self.reg, bus, from),
                self.reg.spec_flag_c(),
            );
            let flagged = self.reg.with_flags(r.1, r.2, r.3, r.4);
            if instruction.mnemonic == NopreOpcodeMnemonics::CP {
                (self.with_reg(flagged), bus)
            } else {
                (self.with_reg(flagged.with_a(r.0)), bus)
            }
        } else {
            (self.spec_lock(), bus)
        }
    }

    /// INC and DEC of a byte: the byte moves by one; zero, subtract and
    /// half-carry are set from it and the carry flag stays.
    pub open spec fn op_inc_dec_8bit_spec(self, bus: BusView, instruction: Opcode) -> (
        CPU,
        BusView,
    ) {
        let place = spec_locate(self.reg, bus, instruction.first);
        if instruction.n_operands == 1 && spec_writable(place) {
            let value = spec_load(self.reg, bus, place);
            let r = if instruction.mnemonic == NopreOpcodeMnemonics::INC {
                inc_spec(value)
            } else {
                dec_spec(value)
            };
            let flagged = self.reg.with_flag_z(r.1).with_flag_n(r.2).with_flag_h(r.3);
            let stored = spec_store(flagged, bus, place, r.0);
            (self.with_reg(stored.0), stored.1)
        } else {
            (self.spec_lock(), bus)
        }
    }

    /// INC and DEC of a register pair: the pair moves by one, modulo 2^16.
    /// No flag changes.
    pub open spec fn op_inc_dec_16bit_spec(self, bus: BusView, instruction: Opcode) -> (
        CPU,
        BusView,
    ) {
        let name = instruction.first.name;
        if instruction.n_operands == 1 && is_wide_pair(name) {
            let value = self.reg.spec_get_pair(name);
            let moved = if instruction.mnemonic == NopreOpcodeMnemonics::INC {
                inc_16bit_spec(value)
            } else {
                dec_16bit_spec(value)
            };
            (self.with_reg(self.reg.with_pair(name, moved)), bus)
        } else {
            (self.spec_lock(), bus)
        }
    }

    /// ADD HL,pair: HL takes the sum; subtract is cleared, half-carry is
    /// the carry out of bit 11, carry the carry out of bit 15, and the
    /// zero flag stays.
    pub open spec fn op_add_16bit_spec(self, bus: BusView, instruction: Opcode) -> (CPU, BusView) {
        let name = instruction.second.name;
        if instruction.n_operands == 2 && is_wide_pair(name) {
            let r = addition_16bit_spec(self.reg.hl, self.reg.spec_get_pair(name));
            (
                self.with_reg(
                    Registers { hl: r.0, ..self.reg }.with_flag_n(r.1).with_flag_h(r.2).with_flag_c(
                        r.3,
                    ),
                ),
                bus,
            )
        } else {
            (self.spec_lock(), bus)
        }
    }

    /// ADD SP,e8: the stack pointer moves by a signed byte; zero and
    /// subtract are cleared, half-carry and carry come from the unsigned
    /// addition of the low bytes.
    pub open spec fn op_add_sp_spec(self, bus: BusView, instruction: Opcode) -> (CPU, BusView) {
        if instruction.n_operands == 2 && instruction.second.name == NopreOperands::e8 {
            let r = signed_addition_spec(self.reg.sp, bus.read_cpu(next_address(self.reg.pc)));
            (
                self.with_reg(Registers { sp: r.0, ..self.reg }.with_flags(false, false, r.1, r.2)),
                bus,
            )
        } else {
            (self.spec_lock(), bus)
        }
    }

    /// The operations on the accumulator and the flags alone.
    pub open spec fn op_accumulator_spec(self, bus: BusView, instruction: Opcode) -> (CPU, BusView) {
        let reg = self.reg;
        let a = reg.spec_a();
        let carry = reg.spec_flag_c();
        match instruction.mnemonic {
            NopreOpcodeMnemonics::DAA => {
                let r = daa_spec(a, reg.spec_flag_h(), carry, reg.spec_flag_n());
                (
                    self.with_reg(
                        reg.with_a(r.0).with_flag_z(r.1).with_flag_h(false).with_flag_c(r.2),
                    ),
                    bus,
                )
            },
            NopreOpcodeMnemonics::CPL => (
                self.with_reg(reg.with_a(complement_spec(a)).with_flag_n(true).with_flag_h(true)),
                bus,
            ),
            NopreOpcodeMnemonics::CCF => (
                self.with_reg(reg.with_flag_n(false).with_flag_h(false).with_flag_c(!carry)),
                bus,
            ),
            NopreOpcodeMnemonics::SCF => (
                self.with_reg(reg.with_flag_n(false).with_flag_h(false).with_flag_c(true)),
                bus,
            ),
            NopreOpcodeMnemonics::RLCA => {
                let r = rotate_left_spec(a);
                (self.with_reg(reg.with_a(r.0).with_flags(false, r.2, r.3, r.4)), bus)
            },
            NopreOpcodeMnemonics::RLA => {
                let r = rotate_left_carry_spec(a, carry);
                (self.with_reg(reg.with_a(r.0).with_flags(false, r.2, r.3, r.4)), bus)
            },
            NopreOpcodeMnemonics::RRCA => {
                let r = rotate_right_spec(a);
                (self.with_reg(reg.with_a(r.0).with_flags(false, r.2, r.3, r.4)), bus)
            },
            NopreOpcodeMnemonics::RRA => {
                let r = rotate_right_carry_spec(a, carry);
                (self.with_reg(reg.with_a(r.0).with_flags(false, r.2, r.3, r.4)), bus)
            },
            _ => (self.spec_lock(), bus),
        }
    }

    /// The arithmetic families.
    pub open spec fn op_arith_spec(self, bus: BusView, instruction: Opcode) -> (CPU, BusView) {
        match instruction.mnemonic {
            NopreOpcodeMnemonics::ADD => if instruction.first.name == NopreOperands::HL {
                self.op_add_16bit_spec(bus, instruction)
            } else if instruction.first.name == NopreOperands::SP {
                self.op_add_sp_spec(bus, instruction)
            } else {
                self.op_alu_spec(bus, instruction)
            },
            NopreOpcodeMnemonics::INC | NopreOpcodeMnemonics::DEC => if is_arith_16bit(
                instruction,
            ) {
                self.op_inc_dec_16bit_spec(bus, instruction)
            } else {
                self.op_inc_dec_8bit_spec(bus, instruction)
            },
            NopreOpcodeMnemonics::ADC
            | NopreOpcodeMnemonics::SUB
            | NopreOpcodeMnemonics::SBC
            | NopreOpcodeMnemonics::AND
            | NopreOpcodeMnemonics::OR
            | NopreOpcodeMnemonics::XOR
            | NopreOpcodeMnemonics::CP => self.op_alu_spec(bus, instruction),
            _ => self.op_accumulator_spec(bus, instruction),
        }
    }

    /// HALT: the processor sleeps until an interrupt is pending, unless one
    /// is pending already while the master enable is off: then it goes on,
    /// and reads the next opcode twice.
    pub open spec fn op_halt_spec(self, bus: BusView) -> (CPU, BusView) {
        if !self.ime && pending_interrupts(bus) != 0 {
            (CPU { halt_bug: true, ..self }, bus)
        } else {
            (CPU { halted: true, ..self }, bus)
        }
    }

    /// An instruction of the unprefixed page, but for the prefix itself.
    #[verifier::opaque]
    pub open spec fn opcode_noprefix_tick_spec(self, bus: BusView, instruction: Opcode) -> (
        CPU,
        BusView,
    ) {
        match instruction.mnemonic {
            NopreOpcodeMnemonics::AND
            | NopreOpcodeMnemonics::OR
            | NopreOpcodeMnemonics::XOR
            | NopreOpcodeMnemonics::ADD
            | NopreOpcodeMnemonics::SUB
            | NopreOpcodeMnemonics::ADC
            | NopreOpcodeMnemonics::SBC
            | NopreOpcodeMnemonics::DEC
            | NopreOpcodeMnemonics::INC
            | NopreOpcodeMnemonics::CP
            | NopreOpcodeMnemonics::DAA
            | NopreOpcodeMnemonics::CPL
            | NopreOpcodeMnemonics::CCF
            | NopreOpcodeMnemonics::SCF
            | NopreOpcodeMnemonics::RLCA
            | NopreOpcodeMnemonics::RLA
            | NopreOpcodeMnemonics::RRCA
            | NopreOpcodeMnemonics::RRA => self.op_arith_spec(bus, instruction),
            NopreOpcodeMnemonics::LD | NopreOpcodeMnemonics::LDH => self.op_load_spec(
                bus,
                instruction,
            ),
            NopreOpcodeMnemonics::JP => self.op_jump_spec(bus, instruction),
            NopreOpcodeMnemonics::JR => self.op_jump_rel_spec(bus, instruction),
            NopreOpcodeMnemonics::CALL => self.op_call_spec(bus, instruction),
            NopreOpcodeMnemonics::RET => self.op_ret_spec(bus, instruction),
            NopreOpcodeMnemonics::RETI => {
                let returned = self.op_ret_spec(bus, instruction);
                (CPU { ime: true, ime_scheduled: false, ..returned.0 }, returned.1)
            },
            NopreOpcodeMnemonics::RST => self.op_rst_spec(bus, instruction),
            NopreOpcodeMnemonics::POP => self.op_pop_spec(bus, instruction),
            NopreOpcodeMnemonics::PUSH => self.op_push_spec(bus, instruction),
            NopreOpcodeMnemonics::NOP => (self, bus),
            NopreOpcodeMnemonics::DI => (CPU { ime: false, ime_scheduled: false, ..self }, bus),
            NopreOpcodeMnemonics::EI => (CPU { ime_scheduled: true, ..self }, bus),
            NopreOpcodeMnemonics::HALT => self.op_halt_spec(bus),
            NopreOpcodeMnemonics::STOP => (self, bus.write_cpu(DIV, 0)),
            _ => (self.spec_lock(), bus),
        }
    }

    /// An instruction of the prefixed page.
    #[verifier::opaque]
    pub open spec fn opcode_prefixed_tick_spec(self, bus: BusView, instruction: PrefixedOpcode) -> (
        CPU,
        BusView,
    ) {
        let place = spec_prefixed_place(self.reg, instruction.target);
        let value = spec_load(self.reg, bus, place);
        if place == Location::Nowhere || instruction.bit >= 8 {
            (self.spec_lock(), bus)
        } else {
            match instruction.mnemonic {
                PrefixOpcodeMnemonics::INVALID => (self.spec_lock(), bus),
                PrefixOpcodeMnemonics::BIT => {
                    let r = test_bit_spec(value, instruction.bit);
                    (
                        self.with_reg(self.reg.with_flag_z(r.0).with_flag_n(r.1).with_flag_h(r.2)),
                        bus,
                    )
                },
                PrefixOpcodeMnemonics::SET => {
                    let stored = spec_store(
                        self.reg,
                        bus,
                        place,
                        byte_with_bit(value, instruction.bit, true),
                    );
                    (self.with_reg(stored.0), stored.1)
                },
                PrefixOpcodeMnemonics::RES => {
                    let stored = spec_store(
                        self.reg,
                        bus,
                        place,
                        byte_with_bit(value, instruction.bit, false),
                    );
                    (self.with_reg(stored.0), stored.1)
                },
                _ => {
                    let r = spec_shift(instruction.mnemonic, value, self.reg.spec_flag_c());
                    let stored = spec_store(
                        self.reg.with_flags(r.1, r.2, r.3, r.4),
                        bus,
                        place,
                        r.0,
                    );
                    (self.with_reg(stored.0), stored.1)
                },
            }
        }
    }

    /// The descriptor of an opcode of the unprefixed page.
    pub open spec fn spec_descriptor(self, opcode: u8) -> Opcode {
        self.instruction_dict_notprefixed@[opcode as int]
    }

    /// Whether an opcode is the prefix of the second page: the byte 0xCB.
    pub open spec fn spec_prefixed(self, opcode: u8) -> bool {
        opcode == 0xCB
    }

    /// The descriptor of the prefixed instruction at the program counter.
    pub open spec fn spec_prefixed_descriptor(self, bus: BusView) -> PrefixedOpcode {
        self.instruction_dict_prefixed@[bus.read_cpu(next_address(self.reg.pc)) as int]
    }

    /// The address of the instruction that follows the one at the program
    /// counter: the program counter moved by the length of the
    /// instruction, modulo 2^16.
    pub open spec fn spec_next_pc(self, bus: BusView, opcode: u8) -> u16 {
        if self.spec_prefixed(opcode) {
            address_after(self.reg.pc, self.spec_prefixed_descriptor(bus).bytes as int)
        } else {
            address_after(self.reg.pc, self.spec_descriptor(opcode).bytes as int)
        }
    }

    /// The instruction with opcode `opcode` at the program counter: the
    /// address of the next instruction and the clock cycles are taken from
    /// the descriptor, then the instruction runs and may change both. After
    /// the opcode 0xCB the next byte selects a descriptor of the prefixed
    /// page.
    #[verifier::opaque]
    pub open spec fn tick_spec(self, bus: BusView, opcode: u8) -> (CPU, BusView) {
        let instruction = self.instruction_dict_notprefixed@[opcode as int];
        if opcode == 0xCB {
            let prefixed = self.instruction_dict_prefixed@[bus.read_cpu(
                next_address(self.reg.pc),
            ) as int];
            CPU {
                next_pc: address_after(self.reg.pc, prefixed.bytes as int),
                cycles_to_wait: prefixed.cycles,
                ..self
            }.opcode_prefixed_tick_spec(bus, prefixed)
        } else {
            CPU {
                next_pc: address_after(self.reg.pc, instruction.bytes as int),
                cycles_to_wait: instruction.cycles,
                ..self
            }.opcode_noprefix_tick_spec(bus, instruction)
        }
    }

    #[verifier::rlimit(30)]

    fn op_load_8bit(&mut self, bus: &mut Bus, instruction: Opcode)
        ensures
            keeps_invariants(*old(self), *final(self), instruction.cycles_alt),
            falls_through(*old(self), *final(self)),
            (*final(self), final(bus)@) == old(self).op_load_8bit_spec(old(bus)@, instruction),
    {
        let into = instruction.first;
        let from = instruction.second;
        let source = self.locate(bus, &from);
        let target = self.locate(bus, &into);
        if instruction.n_operands != 2 {
            self.lock();
            return ;
        }
        let writable = match target {
            Location::Register(_) => true,
            Location::Memory(_) => true,
            _ => false,
        };
        let readable = match source {
            Location::Nowhere => false,
            _ => true,
        };
        if !writable || !readable {
            self.lock();
            return ;
        }
        let value = self.load(bus, &source);
        self.after_access(&from);
        self.store(bus, &target, value);
        self.after_access(&into);
    }

    fn op_load_16bit(&mut self, bus: &mut Bus, instruction: Opcode)
        ensures
            keeps_invariants(*old(self), *final(self), instruction.cycles_alt),
            falls_through(*old(self), *final(self)),
            (*final(self), final(bus)@) == old(self).op_load_16bit_spec(old(bus)@, instruction),
    {
        let into = instruction.first;
        let from = instruction.second;
        if instruction.n_operands == 3 {
            if matches!(into.name, NopreOperands::HL) && into.immediate && matches!(
                from.name,
                NopreOperands::SP
            ) && matches!(instruction.third.name, NopreOperands::e8) {
                let (result, h, c) = signed_addition(self.reg.sp, bus.read_next_byte(self.reg.pc));
                self.reg.hl = result;
                self.reg.set_flags(false, false, h, c);
            } else {
                self.lock();
            }
            return ;
        }
        if instruction.n_operands != 2 {
            self.lock();
            return ;
        }
        match from.name {
            NopreOperands::n16 => {
                let value = bus.get_a16_address(self.reg.pc);
                match into.name {
                    NopreOperands::BC | NopreOperands::DE | NopreOperands::HL | NopreOperands::SP => {
                        if into.immediate {
                            self.reg.set_pair(&into.name, value);
                        } else {
                            self.lock();
                        }
                    },
                    _ => self.lock(),
                }
            },
            NopreOperands::HL => {
                if from.immediate && into.immediate && matches!(into.name, NopreOperands::SP) {
                    self.reg.sp = self.reg.hl;
                } else {
                    self.lock();
                }
            },
            NopreOperands::SP => {
                if matches!(into.name, NopreOperands::a16) && !into.immediate {
                    bus.write_a16(self.reg.pc, self.reg.sp);
                } else {
                    self.lock();
                }
            },
            _ => self.lock(),
        }
    }

    fn op_load(&mut self, bus: &mut Bus, instruction: Opcode)
        ensures
            keeps_invariants(*old(self), *final(self), instruction.cycles_alt),
            falls_through(*old(self), *final(self)),
            (*final(self), final(bus)@) == old(self).op_load_spec(old(bus)@, instruction),
    {
        // a load of a word has three operands, or a word or the stack
        // pointer as its source, or the stack pointer as its target
        let wide = instruction.n_operands == 3 || matches!(
            instruction.second.name,
            NopreOperands::n16
        ) || matches!(instruction.second.name, NopreOperands::SP) || matches!(
            instruction.first.name,
            NopreOperands::SP
        );
        if wide {
            self.op_load_16bit(bus, instruction)
        } else {
            self.op_load_8bit(bus, instruction)
        }
    }

    /// The second byte of an operation on the accumulator, if the
    /// descriptor has the shape of one.
    fn alu_operand(&self, bus: &Bus, instruction: &Opcode) -> (value: Option<u8>)
        ensures
            value == if instruction.n_operands == 2 && instruction.first.name == NopreOperands::A
                && instruction.first.immediate && spec_locate(self.reg, bus@, instruction.second)
                != Location::Nowhere {
                Some(spec_load(self.reg, bus@, spec_locate(self.reg, bus@, instruction.second)))
            } else {
                None
            },
    {
        let source = self.locate(bus, &instruction.second);
        let readable = match source {
            Location::Nowhere => false,
            _ => true,
        };
        if instruction.n_operands == 2 && matches!(instruction.first.name, NopreOperands::A)
            && instruction.first.immediate && readable {
            Some(self.load(bus, &source))
        } else {
            None
        }
    }

    fn op_cp_8bit(&mut self, bus: &mut Bus, instruction: Opcode)
        requires
            instruction.mnemonic == NopreOpcodeMnemonics::CP,
        ensures
            keeps_invariants(*old(self), *final(self), instruction.cycles_alt),
            falls_through(*old(self), *final(self)),
            (*final(self), final(bus)@) == old(self).op_alu_spec(old(bus)@, instruction),
    {
        match self.alu_operand(bus, &instruction) {
            Some(value) => {
                let a = self.reg.get_a();
                let (z, n, h, c) = compare(a, value);
                self.reg.set_flags(z, n, h, c);
            },
            None => self.lock(),
        }
    }

    fn op_adc_sbc_8bit(&mut self, bus: &mut Bus, instruction: Opcode)
        requires
            instruction.mnemonic == NopreOpcodeMnemonics::ADC || instruction.mnemonic
                == NopreOpcodeMnemonics::SBC,
        ensures
            keeps_invariants(*old(self), *final(self), instruction.cycles_alt),
            falls_through(*old(self), *final(self)),
            (*final(self), final(bus)@) == old(self).op_alu_spec(old(bus)@, instruction),
    {
        match self.alu_operand(bus, &instruction) {
            Some(value) => {
                let a = self.reg.get_a();
                let carry = self.reg.flag_c();
                let (new_a, z, n, h, c) = if matches!(
                    instruction.mnemonic,
                    NopreOpcodeMnemonics::ADC
                ) {
                    adc(a, value, carry)
                } else {
                    sbc(a, value, carry)
                };
                self.reg.set_flags(z, n, h, c);
                self.reg.set_a(new_a);
            },
            None => self.lock(),
        }
    }

    fn op_add_sub_bit_8bit(&mut self, bus: &mut Bus, instruction: Opcode)
        requires
            instruction.mnemonic == NopreOpcodeMnemonics::ADD || instruction.mnemonic
                == NopreOpcodeMnemonics::SUB || instruction.mnemonic == NopreOpcodeMnemonics::AND
                || instruction.mnemonic == NopreOpcodeMnemonics::OR || instruction.mnemonic
                == NopreOpcodeMnemonics::XOR,
        ensures
            keeps_invariants(*old(self), *final(self), instruction.cycles_alt),
            falls_through(*old(self), *final(self)),
            (*final(self), final(bus)@) == old(self).op_alu_spec(old(bus)@, instruction),
    {
        match self.alu_operand(bus, &instruction) {
            Some(value) => {
                let a = self.reg.get_a();
                let (new_a, z, n, h, c) = match instruction.mnemonic {
                    NopreOpcodeMnemonics::ADD => addition(a, value),
                    NopreOpcodeMnemonics::SUB => subtraction(a, value),
                    NopreOpcodeMnemonics::AND => and(a, value),
                    NopreOpcodeMnemonics::OR => or(a, value),
                    _ => xor(a, value),
                };
                self.reg.set_flags(z, n, h, c);
                self.reg.set_a(new_a);
            },
            None => self.lock(),
        }
    }

    fn op_inc_dec_8bit(&mut self, bus: &mut Bus, instruction: Opcode)
        ensures
            keeps_invariants(*old(self), *final(self), instruction.cycles_alt),
            falls_through(*old(self), *final(self)),
            (*final(self), final(bus)@) == old(self).op_inc_dec_8bit_spec(old(bus)@, instruction),
    {
        let target = self.locate(bus, &instruction.first);
        let writable = match target {
            Location::Register(_) => true,
            Location::Memory(_) => true,
            _ => false,
        };
        if instruction.n_operands != 1 || !writable {
            self.lock();
            return ;
        }
        let value = self.load(bus, &target);
        let (new_value, z, n, h) = if matches!(instruction.mnemonic, NopreOpcodeMnemonics::INC) {
            inc(value)
        } else {
            dec(value)
        };
        self.reg.set_flag_z(z);
        self.reg.set_flag_n(n);
        self.reg.set_flag_h(h);
        self.store(bus, &target, new_value);
    }

    fn op_inc_dec_16bit(&mut self, bus: &mut Bus, instruction: Opcode)
        ensures
            keeps_invariants(*old(self), *final(self), instruction.cycles_alt),
            falls_through(*old(self), *final(self)),
            (*final(self), final(bus)@) == old(self).op_inc_dec_16bit_spec(old(bus)@, instruction),
    {
        let target_operand = instruction.first.name;
        if instruction.n_operands != 1 {
            self.lock();
            return ;
        }
        match target_operand {
            NopreOperands::SP | NopreOperands::BC | NopreOperands::DE | NopreOperands::HL => {
                let value = self.reg.get_pair(&target_operand);
                let new_value = if matches!(instruction.mnemonic, NopreOpcodeMnemonics::INC) {
                    inc_16bit(value)
                } else {
                    dec_16bit(value)
                };
                self.reg.set_pair(&target_operand, new_value);
            },
            _ => self.lock(),
        }
    }

    fn op_add_16bit(&mut self, bus: &mut Bus, instruction: Opcode)
        ensures
            keeps_invariants(*old(self), *final(self), instruction.cycles_alt),
            falls_through(*old(self), *final(self)),
            (*final(self), final(bus)@) == old(self).op_add_16bit_spec(old(bus)@, instruction),
    {
        let target_operand = instruction.second.name;
        if instruction.n_operands != 2 {
            self.lock();
            return ;
        }
        match target_operand {
            NopreOperands::SP | NopreOperands::BC | NopreOperands::DE | NopreOperands::HL => {
                let (result, n, h, c) = addition_16bit(
                    self.reg.hl,
                    self.reg.get_pair(&target_operand),
                );
                self.reg.hl = result;
                self.reg.set_flag_n(n);
                self.reg.set_flag_h(h);
                self.reg.set_flag_c(c);
            },
            _ => self.lock(),
        }
    }

    fn op_add_sp(&mut self, bus: &mut Bus, instruction: Opcode)
        ensures
            keeps_invariants(*old(self), *final(self), instruction.cycles_alt),
            falls_through(*old(self), *final(self)),
            (*final(self), final(bus)@) == old(self).op_add_sp_spec(old(bus)@, instruction),
    {
        if instruction.n_operands == 2 && matches!(instruction.second.name, NopreOperands::e8) {
            let (result, h, c) = signed_addition(self.reg.sp, bus.read_next_byte(self.reg.pc));
            self.reg.sp = result;
            self.reg.set_flags(false, false, h, c);
        } else {
            self.lock();
        }
    }

    fn op_accumulator(&mut self, bus: &mut Bus, instruction: Opcode)
        ensures
            keeps_invariants(*old(self), *final(self), instruction.cycles_alt),
            falls_through(*old(self), *final(self)),
            (*final(self), final(bus)@) == old(self).op_accumulator_spec(old(bus)@, instruction),
    {
        let a = self.reg.get_a();
        let carry = self.reg.flag_c();
        match instruction.mnemonic {
            NopreOpcodeMnemonics::DAA => {
                let (res, z, c) = daa(a, self.reg.flag_h(), carry, self.reg.flag_n());
                self.reg.set_a(res);
                self.reg.set_flag_z(z);
                self.reg.set_flag_h(false);
                self.reg.set_flag_c(c);
            },
            NopreOpcodeMnemonics::CPL => {
                self.reg.set_a(complement(a));
                self.reg.set_flag_n(true);
                self.reg.set_flag_h(true);
            },
            NopreOpcodeMnemonics::CCF => {
                self.reg.set_flag_n(false);
                self.reg.set_flag_h(false);
                self.reg.set_flag_c(!carry);
            },
            NopreOpcodeMnemonics::SCF => {
                self.reg.set_flag_n(false);
                self.reg.set_flag_h(false);
                self.reg.set_flag_c(true);
            },
            NopreOpcodeMnemonics::RLCA => {
                let (res, _, n, h, c) = rotate_left(a);
                self.reg.set_a(res);
                self.reg.set_flags(false, n, h, c);
            },
            NopreOpcodeMnemonics::RLA => {
                let (res, _, n, h, c) = rotate_left_carry(a, carry);
                self.reg.set_a(res);
                self.reg.set_flags(false, n, h, c);
            },
            NopreOpcodeMnemonics::RRCA => {
                let (res, _, n, h, c) = rotate_right(a);
                self.reg.set_a(res);
                self.reg.set_flags(false, n, h, c);
            },
            NopreOpcodeMnemonics::RRA => {
                let (res, _, n, h, c) = rotate_right_carry(a, carry);
                self.reg.set_a(res);
                self.reg.set_flags(false, n, h, c);
            },
            _ => self.lock(),
        }
    }

    fn op_arith_16bit(&mut self, bus: &mut Bus, instruction: Opcode)
        requires
            instruction.mnemonic == NopreOpcodeMnemonics::ADD || instruction.mnemonic
                == NopreOpcodeMnemonics::INC || instruction.mnemonic == NopreOpcodeMnemonics::DEC,
        ensures
            keeps_invariants(*old(self), *final(self), instruction.cycles_alt),
            falls_through(*old(self), *final(self)),
            (*final(self), final(bus)@) == if instruction.mnemonic == NopreOpcodeMnemonics::ADD {
                old(self).op_add_16bit_spec(old(bus)@, instruction)
            } else {
                old(self).op_inc_dec_16bit_spec(old(bus)@, instruction)
            },
    {
        match instruction.mnemonic {
            NopreOpcodeMnemonics::ADD => self.op_add_16bit(bus, instruction),
            _ => self.op_inc_dec_16bit(bus, instruction),
        }
    }

    fn op_arith_8bit(&mut self, bus: &mut Bus, instruction: Opcode)
        ensures
            keeps_invariants(*old(self), *final(self), instruction.cycles_alt),
            falls_through(*old(self), *final(self)),
            (*final(self), final(bus)@) == if is_alu(instruction.mnemonic) {
                old(self).op_alu_spec(old(bus)@, instruction)
            } else if instruction.mnemonic == NopreOpcodeMnemonics::INC || instruction.mnemonic
                == NopreOpcodeMnemonics::DEC {
                old(self).op_inc_dec_8bit_spec(old(bus)@, instruction)
            } else {
                old(self).op_accumulator_spec(old(bus)@, instruction)
            },
    {
        match instruction.mnemonic {
            NopreOpcodeMnemonics::AND
            | NopreOpcodeMnemonics::OR
            | NopreOpcodeMnemonics::XOR
            | NopreOpcodeMnemonics::ADD
            | NopreOpcodeMnemonics::SUB => self.op_add_sub_bit_8bit(bus, instruction),
            NopreOpcodeMnemonics::ADC | NopreOpcodeMnemonics::SBC => self.op_adc_sbc_8bit(
                bus,
                instruction,
            ),
            NopreOpcodeMnemonics::DEC | NopreOpcodeMnemonics::INC => self.op_inc_dec_8bit(
                bus,
                instruction,
            ),
            NopreOpcodeMnemonics::CP => self.op_cp_8bit(bus, instruction),
            _ => self.op_accumulator(bus, instruction),
        }
    }

    /// The arithmetic families; ADD, INC and DEC come for bytes and for
    /// register pairs.
    fn op_arith(&mut self, bus: &mut Bus, instruction: Opcode)
        ensures
            keeps_invariants(*old(self), *final(self), instruction.cycles_alt),
            falls_through(*old(self), *final(self)),
            (*final(self), final(bus)@) == old(self).op_arith_spec(old(bus)@, instruction),
    {
        match instruction.mnemonic {
            NopreOpcodeMnemonics::ADD => {
                if matches!(instruction.first.name, NopreOperands::HL) {
                    self.op_arith_16bit(bus, instruction)
                } else if matches!(instruction.first.name, NopreOperands::SP) {
                    self.op_add_sp(bus, instruction)
                } else {
                    self.op_arith_8bit(bus, instruction)
                }
            },
            NopreOpcodeMnemonics::INC | NopreOpcodeMnemonics::DEC => {
                let wide = instruction.first.immediate && match instruction.first.name {
                    NopreOperands::SP | NopreOperands::BC | NopreOperands::DE | NopreOperands::HL => true,
                    _ => false,
                };
                if wide {
                    self.op_arith_16bit(bus, instruction)
                } else {
                    self.op_arith_8bit(bus, instruction)
                }
            },
            _ => self.op_arith_8bit(bus, instruction),
        }
    }

    /// STOP: the divider of the timer is reset.
    pub fn stop(&mut self, bus: &mut Bus)
        ensures
            *final(self) == *old(self),
            final(bus)@ == old(bus)@.write_cpu(DIV, 0),
    {
        bus.write_byte_as_cpu(0xFF04, 0x00);
    }

    fn op_halt(&mut self, bus: &mut Bus)
        ensures
            keeps_invariants(*old(self), *final(self), old(self).cycles_to_wait),
            falls_through(*old(self), *final(self)),
            (*final(self), final(bus)@) == old(self).op_halt_spec(old(bus)@),
    {
        if !self.ime && self.interupt_reg.pending(bus) != 0 {
            self.halt_bug = true;
        } else {
            self.halted = true;
        }
    }

    #[verifier::rlimit(30)]

    fn opcode_noprefix_tick(&mut self, bus: &mut Bus, instruction: Opcode)
        ensures
            keeps_invariants(*old(self), *final(self), instruction.cycles_alt),
            is_control_transfer(instruction.mnemonic) || falls_through(*old(self), *final(self)),
            (*final(self), final(bus)@) == old(self).opcode_noprefix_tick_spec(
                old(bus)@,
                instruction,
            ),
    {
        proof {
            reveal(CPU::opcode_noprefix_tick_spec);
        }
        match instruction.mnemonic {
            NopreOpcodeMnemonics::AND
            | NopreOpcodeMnemonics::OR
            | NopreOpcodeMnemonics::XOR
            | NopreOpcodeMnemonics::ADD
            | NopreOpcodeMnemonics::SUB
            | NopreOpcodeMnemonics::ADC
            | NopreOpcodeMnemonics::SBC
            | NopreOpcodeMnemonics::DEC
            | NopreOpcodeMnemonics::INC
            | NopreOpcodeMnemonics::CP
            | NopreOpcodeMnemonics::DAA
            | NopreOpcodeMnemonics::CPL
            | NopreOpcodeMnemonics::CCF
            | NopreOpcodeMnemonics::SCF
            | NopreOpcodeMnemonics::RLCA
            | NopreOpcodeMnemonics::RLA
            | NopreOpcodeMnemonics::RRCA
            | NopreOpcodeMnemonics::RRA => self.op_arith(bus, instruction),
            NopreOpcodeMnemonics::LD => self.op_load(bus, instruction),
            NopreOpcodeMnemonics::LDH => self.op_load(bus, instruction),
            NopreOpcodeMnemonics::JP => self.op_jump(bus, instruction),
            NopreOpcodeMnemonics::JR => self.op_jump_rel(bus, instruction),
            NopreOpcodeMnemonics::CALL => self.op_call(bus, instruction),
            NopreOpcodeMnemonics::RET => self.op_ret(bus, instruction),
            NopreOpcodeMnemonics::RETI => {
                self.op_ret(bus, instruction);
                self.ime = true;
                self.ime_scheduled = false;
            },
            NopreOpcodeMnemonics::RST => self.op_rst(bus, instruction),
            NopreOpcodeMnemonics::POP => self.op_pop(bus, instruction),
            NopreOpcodeMnemonics::PUSH => self.op_push(bus, instruction),
            NopreOpcodeMnemonics::NOP => (),
            NopreOpcodeMnemonics::DI => {
                self.ime = false;
                self.ime_scheduled = false;
            },
            NopreOpcodeMnemonics::EI => self.ime_scheduled = true,
            NopreOpcodeMnemonics::HALT => self.op_halt(bus),
            NopreOpcodeMnemonics::STOP => self.stop(bus),
            _ => self.lock(),
        }
    }

    fn prefixed_place(&self, target: &PreOperands) -> (place: Location)
        ensures
            place == spec_prefixed_place(self.reg, *target),
    {
        match target {
            PreOperands::A => Location::Register(NopreOperands::A),
            PreOperands::B => Location::Register(NopreOperands::B),
            PreOperands::C => Location::Register(NopreOperands::C),
            PreOperands::D => Location::Register(NopreOperands::D),
            PreOperands::E => Location::Register(NopreOperands::E),
            PreOperands::H => Location::Register(NopreOperands::H),
            PreOperands::L => Location::Register(NopreOperands::L),
            PreOperands::HL => Location::Memory(self.reg.hl),
            _ => Location::Nowhere,
        }
    }

    fn op_pre_bit(&mut self, bus: &mut Bus, instruction: PrefixedOpcode)
        requires
            instruction.mnemonic == PrefixOpcodeMnemonics::BIT,
        ensures
            keeps_invariants(*old(self), *final(self), old(self).cycles_to_wait),
            falls_through(*old(self), *final(self)),
            (*final(self), final(bus)@) == old(self).opcode_prefixed_tick_spec(
                old(bus)@,
                instruction,
            ),
    {
        proof {
            reveal(CPU::opcode_prefixed_tick_spec);
        }
        let place = self.prefixed_place(&instruction.target);
        if matches!(place, Location::Nowhere) || instruction.bit >= 8 {
            self.lock();
            return ;
        }
        let b = self.load(bus, &place);
        let (z, n, h) = test_bit(b, instruction.bit);
        self.reg.set_flag_z(z);
        self.reg.set_flag_n(n);
        self.reg.set_flag_h(h);
    }

    fn op_pre_res_set(&mut self, bus: &mut Bus, instruction: PrefixedOpcode)
        requires
            instruction.mnemonic == PrefixOpcodeMnemonics::SET || instruction.mnemonic
                == PrefixOpcodeMnemonics::RES,
        ensures
            keeps_invariants(*old(self), *final(self), old(self).cycles_to_wait),
            falls_through(*old(self), *final(self)),
            (*final(self), final(bus)@) == old(self).opcode_prefixed_tick_spec(
                old(bus)@,
                instruction,
            ),
    {
        proof {
            reveal(CPU::opcode_prefixed_tick_spec);
        }
        let place = self.prefixed_place(&instruction.target);
        if matches!(place, Location::Nowhere) || instruction.bit >= 8 {
            self.lock();
            return ;
        }
        let b = self.load(bus, &place);
        let changed = if matches!(instruction.mnemonic, PrefixOpcodeMnemonics::SET) {
            set_bit(b, instruction.bit)
        } else {
            res_bit(b, instruction.bit)
        };
        self.store(bus, &place, changed);
    }

    fn op_pre_1arg_with_carry(&mut self, bus: &mut Bus, instruction: PrefixedOpcode)
        requires
            instruction.mnemonic == PrefixOpcodeMnemonics::RL || instruction.mnemonic
                == PrefixOpcodeMnemonics::RR,
        ensures
            keeps_invariants(*old(self), *final(self), old(self).cycles_to_wait),
            falls_through(*old(self), *final(self)),
            (*final(self), final(bus)@) == old(self).opcode_prefixed_tick_spec(
                old(bus)@,
                instruction,
            ),
    {
        proof {
            reveal(CPU::opcode_prefixed_tick_spec);
        }
        let place = self.prefixed_place(&instruction.target);
        if matches!(place, Location::Nowhere) || instruction.bit >= 8 {
            self.lock();
            return ;
        }
        let carry = self.reg.flag_c();
        let value = self.load(bus, &place);
        let (new_value, z, n, h, c) = if matches!(instruction.mnemonic, PrefixOpcodeMnemonics::RL) {
            rotate_left_carry(value, carry)
        } else {
            rotate_right_carry(value, carry)
        };
        self.reg.set_flags(z, n, h, c);
        self.store(bus, &place, new_value);
    }

    /// The rotates, shifts and swaps that take no carry in.
    fn op_pre_1arg_carryless(&mut self, bus: &mut Bus, instruction: PrefixedOpcode)
        requires
            instruction.mnemonic == PrefixOpcodeMnemonics::RLC || instruction.mnemonic
                == PrefixOpcodeMnemonics::RRC || instruction.mnemonic == PrefixOpcodeMnemonics::SLA
                || instruction.mnemonic == PrefixOpcodeMnemonics::SRA || instruction.mnemonic
                == PrefixOpcodeMnemonics::SRL || instruction.mnemonic
                == PrefixOpcodeMnemonics::SWAP,
        ensures
            keeps_invariants(*old(self), *final(self), old(self).cycles_to_wait),
            falls_through(*old(self), *final(self)),
            (*final(self), final(bus)@) == old(self).opcode_prefixed_tick_spec(
                old(bus)@,
                instruction,
            ),
    {
        proof {
            reveal(CPU::opcode_prefixed_tick_spec);
        }
        let place = self.prefixed_place(&instruction.target);
        if matches!(place, Location::Nowhere) || instruction.bit >= 8 {
            self.lock();
            return ;
        }
        let value = self.load(bus, &place);
        let (new_value, z, n, h, c) = match instruction.mnemonic {
            PrefixOpcodeMnemonics::RLC => rotate_left(value),
            PrefixOpcodeMnemonics::RRC => rotate_right(value),
            PrefixOpcodeMnemonics::SLA => shift_left_arithmetic(value),
            PrefixOpcodeMnemonics::SRA => shift_right_arithmetic(value),
            PrefixOpcodeMnemonics::SRL => shift_right_logical(value),
            _ => swap_nibble(value),
        };
        self.reg.set_flags(z, n, h, c);
        self.store(bus, &place, new_value);
    }

    fn opcode_prefixed_tick(&mut self, bus: &mut Bus, instruction: PrefixedOpcode)
        ensures
            keeps_invariants(*old(self), *final(self), old(self).cycles_to_wait),
            falls_through(*old(self), *final(self)),
            (*final(self), final(bus)@) == old(self).opcode_prefixed_tick_spec(
                old(bus)@,
                instruction,
            ),
    {
        proof {
            reveal(CPU::opcode_prefixed_tick_spec);
        }
        match instruction.mnemonic {
            PrefixOpcodeMnemonics::RLC
            | PrefixOpcodeMnemonics::RRC
            | PrefixOpcodeMnemonics::SLA
            | PrefixOpcodeMnemonics::SRA
            | PrefixOpcodeMnemonics::SRL
            | PrefixOpcodeMnemonics::SWAP => self.op_pre_1arg_carryless(bus, instruction),
            PrefixOpcodeMnemonics::RL | PrefixOpcodeMnemonics::RR => self.op_pre_1arg_with_carry(
                bus,
                instruction,
            ),
            PrefixOpcodeMnemonics::SET | PrefixOpcodeMnemonics::RES => self.op_pre_res_set(
                bus,
                instruction,
            ),
            PrefixOpcodeMnemonics::BIT => self.op_pre_bit(bus, instruction),
            PrefixOpcodeMnemonics::INVALID => self.lock(),
        }
    }

    /// Runs the instruction with opcode `opcode` at the program counter. The
    /// program counter itself stays; `next_pc` says where the program goes on.
    #[verifier::rlimit(30)]
    pub fn tick(&mut self, bus: &mut Bus, opcode: u8)
        ensures
            (*final(self), final(bus)@) == old(self).tick_spec(old(bus)@, opcode),
            old(self).reg.wf() ==> final(self).reg.wf(),
            old(self).spec_prefixed(opcode) ==> final(self).cycles_to_wait == old(self).spec_prefixed_descriptor(old(bus)@).cycles,
            !old(self).spec_prefixed(opcode) ==> final(self).cycles_to_wait == old(self).spec_descriptor(opcode).cycles || final(self).cycles_to_wait == old(self).spec_descriptor(opcode).cycles_alt,
            !is_control_transfer(old(self).spec_descriptor(opcode).mnemonic) ==> final(self).next_pc
                == old(self).spec_next_pc(old(bus)@, opcode) || (final(self).locked && final(self).next_pc == old(self).reg.pc),
    {
        proof {
            reveal(CPU::tick_spec);
        }
        if opcode == 0xCB {
            // the byte after the prefix selects the instruction
            let opcode = bus.read_byte_as_cpu(self.reg.get_pc_next());
            let prefixed = self.instruction_dict_prefixed[opcode as usize];
            self.next_pc = self.reg.pc.wrapping_add(prefixed.bytes as u16);
            self.cycles_to_wait = prefixed.cycles;
            self.opcode_prefixed_tick(bus, prefixed);
        } else {
            // a jump may set next_pc again
            let instruction = self.instruction_dict_notprefixed[opcode as usize];
            self.next_pc = self.get_next_pc(opcode);
            self.cycles_to_wait = self.get_cycles_to_wait(opcode);
            self.opcode_noprefix_tick(bus, instruction);
        }
    }

    fn get_cycles_to_wait(&self, opcode: u8) -> (cycles: u8)
        ensures
            cycles == self.instruction_dict_notprefixed@[opcode as int].cycles,
    {
        let instruction = &self.instruction_dict_notprefixed[opcode as usize];
        instruction.cycles
    }

    fn get_next_pc(&self, opcode: u8) -> (next: u16)
        ensures
            next == address_after(
                self.reg.pc,
                self.instruction_dict_notprefixed@[opcode as int].bytes as int,
            ),
    {
        let instruction = &self.instruction_dict_notprefixed[opcode as usize];
        return self.reg.pc.wrapping_add(instruction.bytes as u16);
    }
}

impl CPU {
    /// The tables hold the built-in descriptor of every opcode.
    pub open spec fn has_default_tables(self) -> bool {
        &&& forall|i: int|
            0 <= i < 256 ==> self.instruction_dict_notprefixed@[i] == spec_decode_opcode(i as u8)
        &&& forall|i: int|
            0 <= i < 256 ==> self.instruction_dict_prefixed@[i] == spec_decode_prefixed(i as u8)
    }

    /// A processor at rest with the given registers: interrupts off, not
    /// halted, nothing to wait for, the opcode register at zero.
    pub open spec fn at_reset(self, reg: Registers) -> bool {
        &&& self.reg == reg
        &&& self.cycles_since_last_cmd == 0
        &&& self.cycles_to_wait == 0
        &&& self.total_tick == 0
        &&& !self.ime
        &&& !self.ime_scheduled
        &&& !self.halted
        &&& !self.halt_bug
        &&& !self.locked
        &&& self.opcode == 0
        &&& self.next_pc == 0
    }

    fn with_registers(reg: Registers) -> (cpu: CPU)
        ensures
            cpu.at_reset(reg),
            cpu.has_default_tables(),
    {
        let mut nopre: [Opcode; 256] = [decode_opcode(0);256];
        let mut pre: [PrefixedOpcode; 256] = [decode_prefixed(0);256];
        let mut i: usize = 0;
        while i < 256
            invariant
                i <= 256,
                forall|j: int| 0 <= j < i ==> nopre@[j] == spec_decode_opcode(j as u8),
                forall|j: int| 0 <= j < i ==> pre@[j] == spec_decode_prefixed(j as u8),
            decreases 256 - i,
        {
            nopre[i] = decode_opcode(i as u8);
            pre[i] = decode_prefixed(i as u8);
            i += 1;
        }
        CPU {
            reg,
            interupt_reg: InteruptReg::new(),
            cycles_to_wait: 0,
            opcode: 0x00,
            cycles_since_last_cmd: 0,
            total_tick: 0,
            instruction_dict_notprefixed: nopre,
            instruction_dict_prefixed: pre,
            ime: false,
            ime_scheduled: false,
            halted: false,
            halt_bug: false,
            locked: false,
            next_pc: 0x00,
        }
    }

    /// A processor with all registers at zero and the built-in tables.
    pub fn new() -> (cpu: CPU)
        ensures
            cpu.at_reset(Registers { af: 0, bc: 0, de: 0, hl: 0, sp: 0, pc: 0 }),
            cpu.has_default_tables(),
            cpu.reg.wf(),
    {
        CPU::with_registers(Registers::new())
    }

    /// A processor with the registers as the boot program leaves them.
    pub fn new_doctor() -> (cpu: CPU)
        ensures
            cpu.at_reset(
                Registers {
                    af: 0x01B0,
                    bc: 0x0013,
                    de: 0x00D8,
                    hl: 0x014D,
                    sp: 0xFFFE,
                    pc: 0x0100,
                },
            ),
            cpu.has_default_tables(),
            cpu.reg.wf(),
    {
        CPU::with_registers(Registers::new_doctor())
    }

    /// Replaces the two tables by loaded ones, which must hold one
    /// descriptor per opcode.
    pub fn load_tables(&mut self, nopre: &Vec<Opcode>, pre: &Vec<PrefixedOpcode>) -> (r: Result<
        (),
        Errors,
    >)
        ensures
            nopre@.len() == 256 && pre@.len() == 256 ==> r.is_ok()
                && final(self).instruction_dict_notprefixed@ == nopre@ && final(self).instruction_dict_prefixed@ == pre@ && *final(self) == (CPU {
                instruction_dict_notprefixed: final(self).instruction_dict_notprefixed,
                instruction_dict_prefixed: final(self).instruction_dict_prefixed,
                ..*old(self)
            }),
            !(nopre@.len() == 256 && pre@.len() == 256) ==> r == Err::<(), Errors>(
                Errors::InstructionTable,
            ) && *final(self) == *old(self),
    {
        if nopre.len() != 256 || pre.len() != 256 {
            return Err(Errors::InstructionTable);
        }
        let mut i: usize = 0;
        while i < 256
            invariant
                i <= 256,
                nopre@.len() == 256,
                pre@.len() == 256,
                forall|j: int| 0 <= j < i ==> self.instruction_dict_notprefixed@[j] == nopre@[j],
                forall|j: int| 0 <= j < i ==> self.instruction_dict_prefixed@[j] == pre@[j],
                *self == (CPU {
                    instruction_dict_notprefixed: self.instruction_dict_notprefixed,
                    instruction_dict_prefixed: self.instruction_dict_prefixed,
                    ..*old(self)
                }),
            decreases 256 - i,
        {
            self.instruction_dict_notprefixed[i] = nopre[i];
            self.instruction_dict_prefixed[i] = pre[i];
            i += 1;
        }
        assert(self.instruction_dict_notprefixed@ =~= nopre@);
        assert(self.instruction_dict_prefixed@ =~= pre@);
        Ok(())
    }

    /// The service of an interrupt: the master enable goes off, the
    /// request is cleared, the program counter is pushed, and the program
    /// continues at the handler after 20 clock cycles.
    pub open spec fn service_spec(self, bus: BusView, kind: InteruptType) -> (CPU, BusView) {
        let pushed = CPU { ime: false, halted: false, ..self }.spec_push_word(
            bus.write_bit(IF, kind.spec_bit(), false),
            self.reg.pc,
        );
        (
            CPU {
                reg: Registers { pc: kind.spec_vector(), ..pushed.0.reg },
                next_pc: kind.spec_vector(),
                cycles_to_wait: 20,
                ..pushed.0
            },
            pushed.1,
        )
    }

    /// The interrupt that is serviced before the next instruction, if any:
    /// the pending one of highest priority, with the master enable on.
    pub open spec fn check_for_interupt_spec(self, bus: BusView) -> Option<InteruptType> {
        if self.ime {
            lowest_interrupt(pending_interrupts(bus))
        } else {
            None
        }
    }

    /// The fetch and run of one instruction: the opcode is read at the
    /// program counter, the instruction runs, the program counter takes
    /// the address of the next one, and a master enable that EI scheduled
    /// before this instruction is switched on.
    pub open spec fn execute_spec(self, bus: BusView) -> (CPU, BusView) {
        let opcode = bus.read_cpu(self.reg.pc);
        let fetched = if self.halt_bug {
            CPU {
                opcode,
                halt_bug: false,
                reg: Registers { pc: address_before(self.reg.pc, 1), ..self.reg },
                ..self
            }
        } else {
            CPU { opcode, ..self }
        };
        let ran = fetched.tick_spec(bus, opcode);
        let moved = CPU { reg: Registers { pc: ran.0.next_pc, ..ran.0.reg }, ..ran.0 };
        if self.ime_scheduled && moved.ime_scheduled {
            (CPU { ime: true, ime_scheduled: false, ..moved }, ran.1)
        } else {
            (moved, ran.1)
        }
    }

    /// Whether the next step runs an instruction: the processor is not
    /// locked, is not left asleep, and services no interrupt.
    pub open spec fn spec_runs_instruction(self, bus: BusView) -> bool {
        &&& !self.locked
        &&& !(self.halted && lowest_interrupt(pending_interrupts(bus)) is None)
        &&& self.check_for_interupt_spec(bus) is None
    }

    /// One step of the processor: a locked or sleeping processor idles for
    /// four clock cycles; a pending interrupt wakes a sleeping one and is
    /// serviced if the master enable is on; otherwise one instruction runs.
    pub open spec fn step_spec(self, bus: BusView) -> (CPU, BusView) {
        let pending = lowest_interrupt(pending_interrupts(bus));
        if self.locked || (self.halted && pending is None) {
            (CPU { cycles_to_wait: 4, ..self }, bus)
        } else {
            match self.check_for_interupt_spec(bus) {
                Some(kind) => self.service_spec(bus, kind),
                None => CPU { halted: false, ..self }.execute_spec(bus),
            }
        }
    }

    /// One clock cycle of the processor: it waits until the cycles of the
    /// last instruction have passed, then takes the next step.
    pub open spec fn next_tick_spec(self, bus: BusView) -> (CPU, BusView) {
        let waited = if self.cycles_since_last_cmd == u64::MAX {
            u64::MAX
        } else {
            (self.cycles_since_last_cmd + 1) as u64
        };
        if waited >= self.cycles_to_wait {
            CPU {
                cycles_since_last_cmd: 0,
                total_tick: if self.total_tick == u64::MAX {
                    0
                } else {
                    (self.total_tick + 1) as u64
                },
                ..self
            }.step_spec(bus)
        } else {
            (CPU { cycles_since_last_cmd: waited, ..self }, bus)
        }
    }

    /// Services the pending interrupt of highest priority if the master
    /// enable is on, and says whether it did.
    fn check_for_interupt(&mut self, bus: &mut Bus) -> (serviced: bool)
        ensures
            match old(self).check_for_interupt_spec(old(bus)@) {
                Some(kind) => serviced && (*final(self), final(bus)@) == old(self).service_spec(
                    old(bus)@,
                    kind,
                ),
                None => !serviced && *final(self) == *old(self) && final(bus)@ == old(bus)@,
            },
            old(self).reg.wf() ==> final(self).reg.wf(),
    {
        if !self.ime {
            return false;
        }
        match self.interupt_reg.highest_pending(bus) {
            Some(current_interupt) => {
                self.ime = false;
                self.halted = false;
                self.interupt_reg.reset_flag(bus, &current_interupt);
                // push current pc on stack
                let pc = self.reg.pc;
                self.push_word(bus, pc);
                // set pc to correct address
                self.next_pc = current_interupt.vector();
                self.reg.pc = self.next_pc;
                self.cycles_to_wait = 20;
                true
            },
            None => false,
        }
    }

    #[verifier::rlimit(30)]

    fn execute(&mut self, bus: &mut Bus)
        ensures
            (*final(self), final(bus)@) == old(self).execute_spec(old(bus)@),
            old(self).reg.wf() ==> final(self).reg.wf(),
            !old(self).halt_bug && old(self).spec_prefixed(old(bus)@.read_cpu(old(self).reg.pc))
                ==> final(self).cycles_to_wait == old(self).spec_prefixed_descriptor(
                old(bus)@,
            ).cycles,
            !old(self).halt_bug && !old(self).spec_prefixed(old(bus)@.read_cpu(old(self).reg.pc))
                ==> final(self).cycles_to_wait == old(self).spec_descriptor(
                old(bus)@.read_cpu(old(self).reg.pc),
            ).cycles || final(self).cycles_to_wait == old(self).spec_descriptor(
                old(bus)@.read_cpu(old(self).reg.pc),
            ).cycles_alt,
            !old(self).halt_bug && !is_control_transfer(
                old(self).spec_descriptor(old(bus)@.read_cpu(old(self).reg.pc)).mnemonic,
            ) ==> final(self).reg.pc == old(self).spec_next_pc(
                old(bus)@,
                old(bus)@.read_cpu(old(self).reg.pc),
            ) || (final(self).locked && final(self).reg.pc == old(self).reg.pc),
    {
        let enable_after = self.ime_scheduled;
        self.opcode = bus.read_byte_as_cpu(self.reg.pc);
        if self.halt_bug {
            self.halt_bug = false;
            self.reg.pc = self.reg.pc.wrapping_sub(1);
        }
        let opcode = self.opcode;
        self.tick(bus, opcode);
        self.reg.pc = self.next_pc;
        if enable_after && self.ime_scheduled {
            self.ime = true;
            self.ime_scheduled = false;
        }
    }

    /// Advances the processor by one instruction, or by the service of one
    /// interrupt, or lets it idle, and returns the clock cycles that took.
    #[verifier::rlimit(30)]
    pub fn step(&mut self, bus: &mut Bus) -> (cycles: u8)
        ensures
            (*final(self), final(bus)@) == old(self).step_spec(old(bus)@),
            cycles == final(self).cycles_to_wait,
            old(self).reg.wf() ==> final(self).reg.wf(),
            !old(self).spec_runs_instruction(old(bus)@) ==> cycles == 4 || cycles == 20,
            old(self).spec_runs_instruction(old(bus)@) && !old(self).halt_bug ==> ({
                let opcode = old(bus)@.read_cpu(old(self).reg.pc);
                let descriptor = old(self).spec_descriptor(opcode);
                &&& old(self).spec_prefixed(opcode) ==> cycles == old(self).spec_prefixed_descriptor(old(bus)@).cycles
                &&& !old(self).spec_prefixed(opcode) ==> cycles == descriptor.cycles || cycles
                    == descriptor.cycles_alt
                &&& !is_control_transfer(descriptor.mnemonic) ==> final(self).reg.pc == old(self).spec_next_pc(old(bus)@, opcode) || (final(self).locked && final(self).reg.pc
                    == old(self).reg.pc)
            }),
    {
        let pending = self.interupt_reg.highest_pending(bus);
        if self.locked || (self.halted && pending.is_none()) {
            self.cycles_to_wait = 4;
            return 4;
        }
        if !self.check_for_interupt(bus) {
            self.halted = false;
            self.execute(bus);
        }
        self.cycles_to_wait
    }

    /// One clock cycle of the processor: when the cycles of the last step
    /// have passed it takes the next step, else it waits.
    pub fn next_tick(&mut self, bus: &mut Bus)
        ensures
            (*final(self), final(bus)@) == old(self).next_tick_spec(old(bus)@),
            old(self).reg.wf() ==> final(self).reg.wf(),
    {
        self.cycles_since_last_cmd = self.cycles_since_last_cmd.saturating_add(1);
        if self.cycles_since_last_cmd >= self.cycles_to_wait as u64 {
            self.total_tick = self.total_tick.wrapping_add(1);
            self.cycles_since_last_cmd = 0;
            self.step(bus);
        }
    }
}

/// The line that the state log holds for a processor: the eight 8-bit
/// registers, the stack pointer, the program counter and the four bytes
/// at the program counter as the processor reads them, all in upper-case
/// hexadecimal digits.
pub open spec fn log_line_spec(reg: Registers, bus: BusView) -> Seq<char> {
    "A:"@ + hex_byte(reg.spec_a()) + " F:"@ + hex_byte(reg.spec_f()) + " B:"@ + hex_byte(
        reg.spec_b(),
    ) + " C:"@ + hex_byte(reg.spec_c()) + " D:"@ + hex_byte(reg.spec_d()) + " E:"@ + hex_byte(
        reg.spec_e(),
    ) + " H:"@ + hex_byte(reg.spec_h()) + " L:"@ + hex_byte(reg.spec_l()) + " SP:"@ + hex_word(
        reg.sp,
    ) + " PC:"@ + hex_word(reg.pc) + " PCMEM:"@ + hex_byte(bus.read_cpu(reg.pc)) + ","@
        + hex_byte(bus.read_cpu(address_after(reg.pc, 1))) + ","@ + hex_byte(
        bus.read_cpu(address_after(reg.pc, 2)),
    ) + ","@ + hex_byte(bus.read_cpu(address_after(reg.pc, 3)))
}

impl CPU {
    /// The line of the state log for the processor as it stands.
    pub fn log_line(&self, bus: &Bus) -> (text: String)
        ensures
            text@ == log_line_spec(self.reg, bus@),
    {
        let reg = &self.reg;
        let mut text = String::new();
        assert(text@ + "A:"@ =~= "A:"@);
        text.append("A:");
        push_hex_byte(&mut text, reg.get_a());
        text.append(" F:");
        push_hex_byte(&mut text, reg.get_f());
        text.append(" B:");
        push_hex_byte(&mut text, reg.get_b());
        text.append(" C:");
        push_hex_byte(&mut text, reg.get_c());
        text.append(" D:");
        push_hex_byte(&mut text, reg.get_d());
        text.append(" E:");
        push_hex_byte(&mut text, reg.get_e());
        text.append(" H:");
        push_hex_byte(&mut text, reg.get_h());
        text.append(" L:");
        push_hex_byte(&mut text, reg.get_l());
        text.append(" SP:");
        push_hex_word(&mut text, reg.sp);
        text.append(" PC:");
        push_hex_word(&mut text, reg.pc);
        text.append(" PCMEM:");
        push_hex_byte(&mut text, bus.read_byte_as_cpu(reg.pc));
        text.append(",");
        push_hex_byte(&mut text, bus.read_byte_as_cpu(reg.pc.wrapping_add(1)));
        text.append(",");
        push_hex_byte(&mut text, bus.read_byte_as_cpu(reg.pc.wrapping_add(2)));
        text.append(",");
        push_hex_byte(&mut text, bus.read_byte_as_cpu(reg.pc.wrapping_add(3)));
        text
    }
}

/// The address in the last page of the address space at offset `a8`.
pub fn get_a8_address(a8: u8) -> (address: u16)
    ensures
        address == high_page(a8),
{
    return 0xFF00 + a8 as u16;
}

} // verus!

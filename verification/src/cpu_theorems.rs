use crate::bus::{is_plain_ram, lemma_plain_ram, lemma_plain_word, next_address, BusView};
use crate::cpu::{
    address_after, address_before, is_stack_pair, spec_load, spec_locate, spec_prefixed_place,
    Location, CPU,
};
use crate::register::{
    is_byte_register, lemma_byte_reg_written, lemma_flags_independent, lemma_flags_keep_registers,
    Registers,
};
use crate::util::extract_opcode::{
    spec_decode_opcode, spec_decode_prefixed, Opcode, PrefixedOpcode,
};
use crate::util::math_util::{
    complement_spec, lemma_complement_twice, lemma_swap_twice, lemma_xor_twice, swap_nibble_spec,
    xor_spec,
};
use crate::util::opcode_dict_util::{
    NopreOpcodeMnemonics, NopreOperands, PreOperands, PrefixOpcodeMnemonics,
};
use vstd::prelude::*;

verus! {

/// The processor about to run the instruction that the last one led to.
pub open spec fn at_next(cpu: CPU) -> CPU {
    CPU { reg: Registers { pc: cpu.next_pc, ..cpu.reg }, ..cpu }
}

/// PUSH moves the stack pointer down by two and POP moves it up by two,
/// both modulo 2^16.
pub proof fn lemma_stack_pointer_wraps(cpu: CPU, bus: BusView, instruction: Opcode)
    requires
        instruction.n_operands == 1,
        is_stack_pair(instruction.first.name),
    ensures
        cpu.op_push_spec(bus, instruction).0.reg.sp == (cpu.reg.sp - 2) % 0x1_0000,
        cpu.op_pop_spec(bus, instruction).0.reg.sp == (cpu.reg.sp + 2) % 0x1_0000,
{
}

/// A pair that is pushed and popped again holds what it held, but for the
/// low four bits of the flag register, which are zero; the stack pointer
/// is where it was. The two stack cells must be plain memory.
pub proof fn lemma_push_pop_restores(cpu: CPU, bus: BusView, push: Opcode, pop: Opcode)
    requires
        bus.wf(),
        push.n_operands == 1,
        pop.n_operands == 1,
        is_stack_pair(push.first.name),
        pop.first.name == push.first.name,
        is_plain_ram(address_before(cpu.reg.sp, 2)),
        is_plain_ram(address_before(cpu.reg.sp, 1)),
    ensures
        ({
            let pushed = cpu.op_push_spec(bus, push);
            let popped = pushed.0.op_pop_spec(pushed.1, pop);
            &&& popped.0.reg == cpu.reg.with_pair(
                push.first.name,
                cpu.reg.spec_get_pair(push.first.name),
            )
            &&& popped.0.reg.sp == cpu.reg.sp
            &&& cpu.reg.wf() ==> popped.0.reg == cpu.reg
        }),
{
    let sp = address_before(cpu.reg.sp, 2);
    assert(next_address(sp) == address_before(cpu.reg.sp, 1));
    assert(address_after(sp, 2) == cpu.reg.sp);
    lemma_plain_word(bus, sp, cpu.reg.spec_get_pair(push.first.name));
}

/// A call followed by a return leads to the instruction after the call,
/// with the stack pointer where it was. The two stack cells must be plain
/// memory.
pub proof fn lemma_call_ret_returns(cpu: CPU, bus: BusView, call: Opcode, ret: Opcode)
    requires
        bus.wf(),
        call.n_operands == 1,
        ret.n_operands == 0,
        is_plain_ram(address_before(cpu.reg.sp, 2)),
        is_plain_ram(address_before(cpu.reg.sp, 1)),
    ensures
        ({
            let called = cpu.op_call_spec(bus, call);
            let returned = at_next(called.0).op_ret_spec(called.1, ret);
            &&& called.0.next_pc == bus.read16_cpu(next_address(cpu.reg.pc))
            &&& returned.0.next_pc == address_after(cpu.reg.pc, call.bytes as int)
            &&& returned.0.reg.sp == cpu.reg.sp
        }),
{
    let sp = address_before(cpu.reg.sp, 2);
    assert(next_address(sp) == address_before(cpu.reg.sp, 1));
    assert(address_after(sp, 2) == cpu.reg.sp);
    lemma_plain_word(bus, sp, address_after(cpu.reg.pc, call.bytes as int));
}

/// XOR with the same register, memory cell or immediate byte twice gives
/// the accumulator what it held; XOR of the accumulator with itself
/// leaves it zero, also after the second time.
pub proof fn lemma_xor_twice_restores(cpu: CPU, bus: BusView, instruction: Opcode)
    requires
        instruction.mnemonic == NopreOpcodeMnemonics::XOR,
        instruction.n_operands == 2,
        instruction.first.name == NopreOperands::A,
        instruction.first.immediate,
        spec_locate(cpu.reg, bus, instruction.second) != Location::Nowhere,
    ensures
        ({
            let once = cpu.op_alu_spec(bus, instruction);
            let twice = once.0.op_alu_spec(once.1, instruction);
            &&& twice.1 == bus
            &&& instruction.second.name != NopreOperands::A ==> twice.0.reg.spec_a()
                == cpu.reg.spec_a()
            &&& instruction.second.name == NopreOperands::A ==> once.0.reg.spec_a() == 0
                && twice.0.reg.spec_a() == 0
        }),
{
    let place = spec_locate(cpu.reg, bus, instruction.second);
    let value = spec_load(cpu.reg, bus, place);
    let a = cpu.reg.spec_a();
    let r = xor_spec(a, value);
    let flagged = cpu.reg.with_flags(r.1, r.2, r.3, r.4);
    let after = flagged.with_a(r.0);
    lemma_flags_keep_registers(cpu.reg, r.1, r.2, r.3, r.4);
    lemma_flags_independent(cpu.reg, r.1, r.2, r.3, r.4);
    lemma_byte_reg_written(flagged, NopreOperands::A, r.0);
    assert(after == flagged.with_byte_reg(NopreOperands::A, r.0));
    assert(after.bc == cpu.reg.bc && after.de == cpu.reg.de && after.hl == cpu.reg.hl && after.pc
        == cpu.reg.pc);
    assert(after.spec_c() == cpu.reg.spec_c());
    assert(spec_locate(after, bus, instruction.second) == place);
    assert(after.spec_a() == r.0);
    lemma_xor_twice(a, value);
    let second = xor_spec(r.0, spec_load(after, bus, place));
    let flagged2 = after.with_flags(second.1, second.2, second.3, second.4);
    lemma_flags_keep_registers(after, second.1, second.2, second.3, second.4);
    lemma_byte_reg_written(flagged2, NopreOperands::A, second.0);
    assert(flagged2.with_a(second.0) == flagged2.with_byte_reg(NopreOperands::A, second.0));
    if instruction.second.name == NopreOperands::A {
        assert(value == a);
        assert(spec_load(after, bus, place) == r.0);
        lemma_xor_twice(r.0, r.0);
    } else {
        match place {
            Location::Register(name) => {
                assert(is_byte_register(name) && name != NopreOperands::A);
                assert(spec_load(after, bus, place) == value);
            },
            _ => {
                assert(spec_load(after, bus, place) == value);
            },
        }
    }
}

/// SWAP of the same register twice gives the register what it held.
pub proof fn lemma_swap_twice_restores(cpu: CPU, bus: BusView, instruction: PrefixedOpcode)
    requires
        instruction.mnemonic == PrefixOpcodeMnemonics::SWAP,
        instruction.bit < 8,
        spec_prefixed_place(cpu.reg, instruction.target) is Register,
    ensures
        ({
            let place = spec_prefixed_place(cpu.reg, instruction.target);
            let once = cpu.opcode_prefixed_tick_spec(bus, instruction);
            let twice = once.0.opcode_prefixed_tick_spec(once.1, instruction);
            &&& twice.1 == bus
            &&& spec_load(once.0.reg, once.1, place) == swap_nibble_spec(
                spec_load(cpu.reg, bus, place),
            ).0
            &&& spec_load(twice.0.reg, twice.1, place) == spec_load(cpu.reg, bus, place)
        }),
{
    reveal(CPU::opcode_prefixed_tick_spec);
    let place = spec_prefixed_place(cpu.reg, instruction.target);
    let name = place->Register_0;
    let value = cpu.reg.spec_get(name);
    let r = swap_nibble_spec(value);
    let flagged = cpu.reg.with_flags(r.1, r.2, r.3, r.4);
    lemma_flags_keep_registers(cpu.reg, r.1, r.2, r.3, r.4);
    lemma_byte_reg_written(flagged, name, r.0);
    let after = flagged.with_byte_reg(name, r.0);
    assert(spec_prefixed_place(after, instruction.target) == place);
    let r2 = swap_nibble_spec(r.0);
    lemma_swap_twice(value);
    let flagged2 = after.with_flags(r2.1, r2.2, r2.3, r2.4);
    lemma_flags_keep_registers(after, r2.1, r2.2, r2.3, r2.4);
    lemma_byte_reg_written(flagged2, name, r2.0);
}

/// SWAP of the same cell of plain memory twice gives the cell what it held.
pub proof fn lemma_swap_twice_restores_memory(cpu: CPU, bus: BusView, instruction: PrefixedOpcode)
    requires
        bus.wf(),
        instruction.mnemonic == PrefixOpcodeMnemonics::SWAP,
        instruction.bit < 8,
        instruction.target == PreOperands::HL,
        is_plain_ram(cpu.reg.hl),
    ensures
        ({
            let once = cpu.opcode_prefixed_tick_spec(bus, instruction);
            let twice = once.0.opcode_prefixed_tick_spec(once.1, instruction);
            &&& once.1.read_cpu(cpu.reg.hl) == swap_nibble_spec(bus.read_cpu(cpu.reg.hl)).0
            &&& twice.1.read_cpu(cpu.reg.hl) == bus.read_cpu(cpu.reg.hl)
        }),
{
    reveal(CPU::opcode_prefixed_tick_spec);
    let value = bus.read_cpu(cpu.reg.hl);
    let r = swap_nibble_spec(value);
    lemma_flags_keep_registers(cpu.reg, r.1, r.2, r.3, r.4);
    lemma_plain_ram(bus, cpu.reg.hl, r.0);
    let once = cpu.opcode_prefixed_tick_spec(bus, instruction);
    let r2 = swap_nibble_spec(r.0);
    lemma_swap_twice(value);
    lemma_flags_keep_registers(once.0.reg, r2.1, r2.2, r2.3, r2.4);
    lemma_plain_ram(once.1, cpu.reg.hl, r2.0);
}

/// CPL twice gives the accumulator what it held.
pub proof fn lemma_cpl_twice_restores(cpu: CPU, bus: BusView, instruction: Opcode)
    requires
        instruction.mnemonic == NopreOpcodeMnemonics::CPL,
    ensures
        ({
            let once = cpu.op_accumulator_spec(bus, instruction);
            let twice = once.0.op_accumulator_spec(once.1, instruction);
            &&& twice.1 == bus
            &&& once.0.reg.spec_a() == complement_spec(cpu.reg.spec_a())
            &&& twice.0.reg.spec_a() == cpu.reg.spec_a()
        }),
{
    let a = cpu.reg.spec_a();
    let first = cpu.reg.with_a(complement_spec(a));
    lemma_byte_reg_written(cpu.reg, NopreOperands::A, complement_spec(a));
    assert(first == cpu.reg.with_byte_reg(NopreOperands::A, complement_spec(a)));
    crate::register::lemma_word_with_bit(first.af, 6, true);
    crate::register::lemma_word_with_bit(first.with_flag_n(true).af, 5, true);
    let once = first.with_flag_n(true).with_flag_h(true);
    assert(once.spec_a() == complement_spec(a));
    lemma_complement_twice(a);
    let second = once.with_a(a);
    lemma_byte_reg_written(once, NopreOperands::A, a);
    assert(second == once.with_byte_reg(NopreOperands::A, a));
    crate::register::lemma_word_with_bit(second.af, 6, true);
    crate::register::lemma_word_with_bit(second.with_flag_n(true).af, 5, true);
}

} // verus!

verus! {

/// Whether an opcode is one of the eleven that the processor does not
/// implement.
pub open spec fn is_illegal_opcode(opcode: u8) -> bool {
    opcode == 0xD3 || opcode == 0xDB || opcode == 0xDD || opcode == 0xE3 || opcode == 0xE4
        || opcode == 0xEB || opcode == 0xEC || opcode == 0xED || opcode == 0xF4 || opcode == 0xFC
        || opcode == 0xFD
}

/// With the built-in tables every instruction of the prefixed page runs:
/// none locks the processor.
pub proof fn lemma_prefixed_opcodes_run(cpu: CPU, bus: BusView, opcode: u8)
    requires
        !cpu.locked,
    ensures
        !cpu.opcode_prefixed_tick_spec(bus, spec_decode_prefixed(opcode)).0.locked,
{
    reveal(CPU::opcode_prefixed_tick_spec);
}

#[verifier::rlimit(30)]

proof fn lemma_block0_column0_runs(cpu: CPU, bus: BusView, opcode: u8)
    requires
        !cpu.locked,
        opcode != 0xCB,
        opcode / 64 == 0,
        opcode % 8 == 0,
    ensures
        cpu.opcode_noprefix_tick_spec(bus, spec_decode_opcode(opcode)).0.locked
            == is_illegal_opcode(opcode),
{
    reveal(CPU::opcode_noprefix_tick_spec);
    let y = (opcode / 8) % 8;
    if y == 0 {
    } else if y == 1 {
    } else if y == 2 {
    } else if y == 3 {
    } else if y == 4 {
    } else if y == 5 {
    } else if y == 6 {
    } else {
    }
}

#[verifier::rlimit(30)]

proof fn lemma_block0_column1_runs(cpu: CPU, bus: BusView, opcode: u8)
    requires
        !cpu.locked,
        opcode != 0xCB,
        opcode / 64 == 0,
        opcode % 8 == 1,
    ensures
        cpu.opcode_noprefix_tick_spec(bus, spec_decode_opcode(opcode)).0.locked
            == is_illegal_opcode(opcode),
{
    reveal(CPU::opcode_noprefix_tick_spec);
    let y = (opcode / 8) % 8;
    if y == 0 {
    } else if y == 1 {
    } else if y == 2 {
    } else if y == 3 {
    } else if y == 4 {
    } else if y == 5 {
    } else if y == 6 {
    } else {
    }
}

#[verifier::rlimit(30)]

proof fn lemma_block0_column2_runs(cpu: CPU, bus: BusView, opcode: u8)
    requires
        !cpu.locked,
        opcode != 0xCB,
        opcode / 64 == 0,
        opcode % 8 == 2,
    ensures
        cpu.opcode_noprefix_tick_spec(bus, spec_decode_opcode(opcode)).0.locked
            == is_illegal_opcode(opcode),
{
    reveal(CPU::opcode_noprefix_tick_spec);
    let y = (opcode / 8) % 8;
    if y == 0 {
    } else if y == 1 {
    } else if y == 2 {
    } else if y == 3 {
    } else if y == 4 {
    } else if y == 5 {
    } else if y == 6 {
    } else {
    }
}

#[verifier::rlimit(30)]

proof fn lemma_block0_column3_runs(cpu: CPU, bus: BusView, opcode: u8)
    requires
        !cpu.locked,
        opcode != 0xCB,
        opcode / 64 == 0,
        opcode % 8 == 3,
    ensures
        cpu.opcode_noprefix_tick_spec(bus, spec_decode_opcode(opcode)).0.locked
            == is_illegal_opcode(opcode),
{
    reveal(CPU::opcode_noprefix_tick_spec);
    let y = (opcode / 8) % 8;
    if y == 0 {
    } else if y == 1 {
    } else if y == 2 {
    } else if y == 3 {
    } else if y == 4 {
    } else if y == 5 {
    } else if y == 6 {
    } else {
    }
}

#[verifier::rlimit(30)]

proof fn lemma_block0_column4_runs(cpu: CPU, bus: BusView, opcode: u8)
    requires
        !cpu.locked,
        opcode != 0xCB,
        opcode / 64 == 0,
        opcode % 8 == 4,
    ensures
        cpu.opcode_noprefix_tick_spec(bus, spec_decode_opcode(opcode)).0.locked
            == is_illegal_opcode(opcode),
{
    reveal(CPU::opcode_noprefix_tick_spec);
    let y = (opcode / 8) % 8;
    if y == 0 {
    } else if y == 1 {
    } else if y == 2 {
    } else if y == 3 {
    } else if y == 4 {
    } else if y == 5 {
    } else if y == 6 {
    } else {
    }
}

#[verifier::rlimit(30)]

proof fn lemma_block0_column5_runs(cpu: CPU, bus: BusView, opcode: u8)
    requires
        !cpu.locked,
        opcode != 0xCB,
        opcode / 64 == 0,
        opcode % 8 == 5,
    ensures
        cpu.opcode_noprefix_tick_spec(bus, spec_decode_opcode(opcode)).0.locked
            == is_illegal_opcode(opcode),
{
    reveal(CPU::opcode_noprefix_tick_spec);
    let y = (opcode / 8) % 8;
    if y == 0 {
    } else if y == 1 {
    } else if y == 2 {
    } else if y == 3 {
    } else if y == 4 {
    } else if y == 5 {
    } else if y == 6 {
    } else {
    }
}

#[verifier::rlimit(30)]

proof fn lemma_block0_column6_runs(cpu: CPU, bus: BusView, opcode: u8)
    requires
        !cpu.locked,
        opcode != 0xCB,
        opcode / 64 == 0,
        opcode % 8 == 6,
    ensures
        cpu.opcode_noprefix_tick_spec(bus, spec_decode_opcode(opcode)).0.locked
            == is_illegal_opcode(opcode),
{
    reveal(CPU::opcode_noprefix_tick_spec);
    let y = (opcode / 8) % 8;
    if y == 0 {
    } else if y == 1 {
    } else if y == 2 {
    } else if y == 3 {
    } else if y == 4 {
    } else if y == 5 {
    } else if y == 6 {
    } else {
    }
}

#[verifier::rlimit(30)]

proof fn lemma_block0_column7_runs(cpu: CPU, bus: BusView, opcode: u8)
    requires
        !cpu.locked,
        opcode != 0xCB,
        opcode / 64 == 0,
        opcode % 8 == 7,
    ensures
        cpu.opcode_noprefix_tick_spec(bus, spec_decode_opcode(opcode)).0.locked
            == is_illegal_opcode(opcode),
{
    reveal(CPU::opcode_noprefix_tick_spec);
    let y = (opcode / 8) % 8;
    if y == 0 {
    } else if y == 1 {
    } else if y == 2 {
    } else if y == 3 {
    } else if y == 4 {
    } else if y == 5 {
    } else if y == 6 {
    } else {
    }
}

#[verifier::rlimit(30)]

proof fn lemma_block3_column0_runs(cpu: CPU, bus: BusView, opcode: u8)
    requires
        !cpu.locked,
        opcode != 0xCB,
        opcode / 64 == 3,
        opcode % 8 == 0,
    ensures
        cpu.opcode_noprefix_tick_spec(bus, spec_decode_opcode(opcode)).0.locked
            == is_illegal_opcode(opcode),
{
    reveal(CPU::opcode_noprefix_tick_spec);
    let y = (opcode / 8) % 8;
    if y == 0 {
    } else if y == 1 {
    } else if y == 2 {
    } else if y == 3 {
    } else if y == 4 {
    } else if y == 5 {
    } else if y == 6 {
    } else {
    }
}

#[verifier::rlimit(30)]

proof fn lemma_block3_column1_runs(cpu: CPU, bus: BusView, opcode: u8)
    requires
        !cpu.locked,
        opcode != 0xCB,
        opcode / 64 == 3,
        opcode % 8 == 1,
    ensures
        cpu.opcode_noprefix_tick_spec(bus, spec_decode_opcode(opcode)).0.locked
            == is_illegal_opcode(opcode),
{
    reveal(CPU::opcode_noprefix_tick_spec);
    let y = (opcode / 8) % 8;
    if y == 0 {
    } else if y == 1 {
    } else if y == 2 {
    } else if y == 3 {
    } else if y == 4 {
    } else if y == 5 {
    } else if y == 6 {
    } else {
    }
}

#[verifier::rlimit(30)]

proof fn lemma_block3_column2_runs(cpu: CPU, bus: BusView, opcode: u8)
    requires
        !cpu.locked,
        opcode != 0xCB,
        opcode / 64 == 3,
        opcode % 8 == 2,
    ensures
        cpu.opcode_noprefix_tick_spec(bus, spec_decode_opcode(opcode)).0.locked
            == is_illegal_opcode(opcode),
{
    reveal(CPU::opcode_noprefix_tick_spec);
    let y = (opcode / 8) % 8;
    if y == 0 {
    } else if y == 1 {
    } else if y == 2 {
    } else if y == 3 {
    } else if y == 4 {
    } else if y == 5 {
    } else if y == 6 {
    } else {
    }
}

#[verifier::rlimit(30)]

proof fn lemma_block3_column3_runs(cpu: CPU, bus: BusView, opcode: u8)
    requires
        !cpu.locked,
        opcode != 0xCB,
        opcode / 64 == 3,
        opcode % 8 == 3,
    ensures
        cpu.opcode_noprefix_tick_spec(bus, spec_decode_opcode(opcode)).0.locked
            == is_illegal_opcode(opcode),
{
    reveal(CPU::opcode_noprefix_tick_spec);
    let y = (opcode / 8) % 8;
    if y == 0 {
    } else if y == 1 {
    } else if y == 2 {
    } else if y == 3 {
    } else if y == 4 {
    } else if y == 5 {
    } else if y == 6 {
    } else {
    }
}

#[verifier::rlimit(30)]

proof fn lemma_block3_column4_runs(cpu: CPU, bus: BusView, opcode: u8)
    requires
        !cpu.locked,
        opcode != 0xCB,
        opcode / 64 == 3,
        opcode % 8 == 4,
    ensures
        cpu.opcode_noprefix_tick_spec(bus, spec_decode_opcode(opcode)).0.locked
            == is_illegal_opcode(opcode),
{
    reveal(CPU::opcode_noprefix_tick_spec);
    let y = (opcode / 8) % 8;
    if y == 0 {
    } else if y == 1 {
    } else if y == 2 {
    } else if y == 3 {
    } else if y == 4 {
    } else if y == 5 {
    } else if y == 6 {
    } else {
    }
}

#[verifier::rlimit(30)]

proof fn lemma_block3_column5_runs(cpu: CPU, bus: BusView, opcode: u8)
    requires
        !cpu.locked,
        opcode != 0xCB,
        opcode / 64 == 3,
        opcode % 8 == 5,
    ensures
        cpu.opcode_noprefix_tick_spec(bus, spec_decode_opcode(opcode)).0.locked
            == is_illegal_opcode(opcode),
{
    reveal(CPU::opcode_noprefix_tick_spec);
    let y = (opcode / 8) % 8;
    if y == 0 {
    } else if y == 1 {
    } else if y == 2 {
    } else if y == 3 {
    } else if y == 4 {
    } else if y == 5 {
    } else if y == 6 {
    } else {
    }
}

#[verifier::rlimit(30)]

proof fn lemma_block3_column6_runs(cpu: CPU, bus: BusView, opcode: u8)
    requires
        !cpu.locked,
        opcode != 0xCB,
        opcode / 64 == 3,
        opcode % 8 == 6,
    ensures
        cpu.opcode_noprefix_tick_spec(bus, spec_decode_opcode(opcode)).0.locked
            == is_illegal_opcode(opcode),
{
    reveal(CPU::opcode_noprefix_tick_spec);
    let y = (opcode / 8) % 8;
    if y == 0 {
    } else if y == 1 {
    } else if y == 2 {
    } else if y == 3 {
    } else if y == 4 {
    } else if y == 5 {
    } else if y == 6 {
    } else {
    }
}

#[verifier::rlimit(30)]

proof fn lemma_block3_column7_runs(cpu: CPU, bus: BusView, opcode: u8)
    requires
        !cpu.locked,
        opcode != 0xCB,
        opcode / 64 == 3,
        opcode % 8 == 7,
    ensures
        cpu.opcode_noprefix_tick_spec(bus, spec_decode_opcode(opcode)).0.locked
            == is_illegal_opcode(opcode),
{
    reveal(CPU::opcode_noprefix_tick_spec);
    let y = (opcode / 8) % 8;
    if y == 0 {
    } else if y == 1 {
    } else if y == 2 {
    } else if y == 3 {
    } else if y == 4 {
    } else if y == 5 {
    } else if y == 6 {
    } else {
    }
}

#[verifier::rlimit(30)]

proof fn lemma_block1_runs(cpu: CPU, bus: BusView, opcode: u8)
    requires
        !cpu.locked,
        opcode != 0xCB,
        opcode / 64 == 1,
    ensures
        cpu.opcode_noprefix_tick_spec(bus, spec_decode_opcode(opcode)).0.locked
            == is_illegal_opcode(opcode),
{
    reveal(CPU::opcode_noprefix_tick_spec);
    let y = (opcode / 8) % 8;
    if y == 0 {
    } else if y == 1 {
    } else if y == 2 {
    } else if y == 3 {
    } else if y == 4 {
    } else if y == 5 {
    } else if y == 6 {
    } else {
    }
}

#[verifier::rlimit(30)]

proof fn lemma_block2_runs(cpu: CPU, bus: BusView, opcode: u8)
    requires
        !cpu.locked,
        opcode != 0xCB,
        opcode / 64 == 2,
    ensures
        cpu.opcode_noprefix_tick_spec(bus, spec_decode_opcode(opcode)).0.locked
            == is_illegal_opcode(opcode),
{
    reveal(CPU::opcode_noprefix_tick_spec);
    let y = (opcode / 8) % 8;
    if y == 0 {
    } else if y == 1 {
    } else if y == 2 {
    } else if y == 3 {
    } else if y == 4 {
    } else if y == 5 {
    } else if y == 6 {
    } else {
    }
}

/// With the built-in tables every instruction of the unprefixed page runs,
/// but for the eleven opcodes that the processor does not implement, which
/// lock it.
pub proof fn lemma_opcodes_run(cpu: CPU, bus: BusView, opcode: u8)
    requires
        !cpu.locked,
        opcode != 0xCB,
    ensures
        cpu.opcode_noprefix_tick_spec(bus, spec_decode_opcode(opcode)).0.locked
            == is_illegal_opcode(opcode),
{
    let x = opcode / 64;
    let z = opcode % 8;
    if x == 1 {
        lemma_block1_runs(cpu, bus, opcode);
    } else if x == 2 {
        lemma_block2_runs(cpu, bus, opcode);
    } else if x == 0 && z == 0 {
        lemma_block0_column0_runs(cpu, bus, opcode);
    } else if x == 0 && z == 1 {
        lemma_block0_column1_runs(cpu, bus, opcode);
    } else if x == 0 && z == 2 {
        lemma_block0_column2_runs(cpu, bus, opcode);
    } else if x == 0 && z == 3 {
        lemma_block0_column3_runs(cpu, bus, opcode);
    } else if x == 0 && z == 4 {
        lemma_block0_column4_runs(cpu, bus, opcode);
    } else if x == 0 && z == 5 {
        lemma_block0_column5_runs(cpu, bus, opcode);
    } else if x == 0 && z == 6 {
        lemma_block0_column6_runs(cpu, bus, opcode);
    } else if x == 0 && z == 7 {
        lemma_block0_column7_runs(cpu, bus, opcode);
    } else if x == 3 && z == 0 {
        lemma_block3_column0_runs(cpu, bus, opcode);
    } else if x == 3 && z == 1 {
        lemma_block3_column1_runs(cpu, bus, opcode);
    } else if x == 3 && z == 2 {
        lemma_block3_column2_runs(cpu, bus, opcode);
    } else if x == 3 && z == 3 {
        lemma_block3_column3_runs(cpu, bus, opcode);
    } else if x == 3 && z == 4 {
        lemma_block3_column4_runs(cpu, bus, opcode);
    } else if x == 3 && z == 5 {
        lemma_block3_column5_runs(cpu, bus, opcode);
    } else if x == 3 && z == 6 {
        lemma_block3_column6_runs(cpu, bus, opcode);
    } else if x == 3 && z == 7 {
        lemma_block3_column7_runs(cpu, bus, opcode);
    }
}

/// A processor with the built-in tables runs every instruction, but for
/// the eleven opcodes that it does not implement, which lock it.
pub proof fn lemma_default_tables_run(cpu: CPU, bus: BusView, opcode: u8)
    requires
        cpu.has_default_tables(),
        !cpu.locked,
    ensures
        cpu.tick_spec(bus, opcode).0.locked == is_illegal_opcode(opcode),
{
    reveal(CPU::tick_spec);
    assert(cpu.instruction_dict_notprefixed@[opcode as int] == spec_decode_opcode(opcode));
    if opcode == 0xCB {
        let second = bus.read_cpu(next_address(cpu.reg.pc));
        assert(cpu.instruction_dict_prefixed@[second as int] == spec_decode_prefixed(second));
        let prefixed = spec_decode_prefixed(second);
        lemma_prefixed_opcodes_run(
            CPU {
                next_pc: address_after(cpu.reg.pc, prefixed.bytes as int),
                cycles_to_wait: prefixed.cycles,
                ..cpu
            },
            bus,
            second,
        );
    } else {
        let instruction = spec_decode_opcode(opcode);
        lemma_opcodes_run(
            CPU {
                next_pc: address_after(cpu.reg.pc, instruction.bytes as int),
                cycles_to_wait: instruction.cycles,
                ..cpu
            },
            bus,
            opcode,
        );
    }
}

/// The processor about to run an instruction: the address of the next one
/// and the clock cycles are those of the descriptor.
pub open spec fn entered(cpu: CPU, bytes: u8, cycles: u8) -> CPU {
    CPU { next_pc: address_after(cpu.reg.pc, bytes as int), cycles_to_wait: cycles, ..cpu }
}

/// The register pair that a push or pop opcode works on.
pub open spec fn stack_pair_of(index: u8) -> NopreOperands {
    if index == 0 {
        NopreOperands::BC
    } else if index == 1 {
        NopreOperands::DE
    } else if index == 2 {
        NopreOperands::HL
    } else {
        NopreOperands::AF
    }
}

/// An instruction runs on the processor as it is entered with the
/// descriptor of its opcode: after the byte 0xCB with the descriptor that
/// the next byte selects in the prefixed page.
pub proof fn lemma_tick_enters(cpu: CPU, bus: BusView, opcode: u8)
    ensures
        opcode != 0xCB ==> cpu.tick_spec(bus, opcode) == entered(
            cpu,
            cpu.spec_descriptor(opcode).bytes,
            cpu.spec_descriptor(opcode).cycles,
        ).opcode_noprefix_tick_spec(bus, cpu.spec_descriptor(opcode)),
        opcode == 0xCB ==> cpu.tick_spec(bus, opcode) == entered(
            cpu,
            cpu.spec_prefixed_descriptor(bus).bytes,
            cpu.spec_prefixed_descriptor(bus).cycles,
        ).opcode_prefixed_tick_spec(bus, cpu.spec_prefixed_descriptor(bus)),
{
    reveal(CPU::tick_spec);
}

/// Which family runs an instruction of the unprefixed page, by its
/// mnemonic.
pub proof fn lemma_families(cpu: CPU, bus: BusView, instruction: Opcode)
    ensures
        instruction.mnemonic == NopreOpcodeMnemonics::PUSH ==> cpu.opcode_noprefix_tick_spec(
            bus,
            instruction,
        ) == cpu.op_push_spec(bus, instruction),
        instruction.mnemonic == NopreOpcodeMnemonics::POP ==> cpu.opcode_noprefix_tick_spec(
            bus,
            instruction,
        ) == cpu.op_pop_spec(bus, instruction),
        instruction.mnemonic == NopreOpcodeMnemonics::CALL ==> cpu.opcode_noprefix_tick_spec(
            bus,
            instruction,
        ) == cpu.op_call_spec(bus, instruction),
        instruction.mnemonic == NopreOpcodeMnemonics::RET ==> cpu.opcode_noprefix_tick_spec(
            bus,
            instruction,
        ) == cpu.op_ret_spec(bus, instruction),
        instruction.mnemonic == NopreOpcodeMnemonics::RST ==> cpu.opcode_noprefix_tick_spec(
            bus,
            instruction,
        ) == cpu.op_rst_spec(bus, instruction),
        instruction.mnemonic == NopreOpcodeMnemonics::JP ==> cpu.opcode_noprefix_tick_spec(
            bus,
            instruction,
        ) == cpu.op_jump_spec(bus, instruction),
        instruction.mnemonic == NopreOpcodeMnemonics::JR ==> cpu.opcode_noprefix_tick_spec(
            bus,
            instruction,
        ) == cpu.op_jump_rel_spec(bus, instruction),
        instruction.mnemonic == NopreOpcodeMnemonics::LD || instruction.mnemonic
            == NopreOpcodeMnemonics::LDH ==> cpu.opcode_noprefix_tick_spec(bus, instruction)
            == cpu.op_load_spec(bus, instruction),
        instruction.mnemonic == NopreOpcodeMnemonics::XOR ==> cpu.opcode_noprefix_tick_spec(
            bus,
            instruction,
        ) == cpu.op_alu_spec(bus, instruction),
        instruction.mnemonic == NopreOpcodeMnemonics::CPL ==> cpu.opcode_noprefix_tick_spec(
            bus,
            instruction,
        ) == cpu.op_accumulator_spec(bus, instruction),
        instruction.mnemonic == NopreOpcodeMnemonics::NOP ==> cpu.opcode_noprefix_tick_spec(
            bus,
            instruction,
        ) == (cpu, bus),
{
    reveal(CPU::opcode_noprefix_tick_spec);
}

/// The opcode that pushes the pair with the given index.
pub open spec fn push_opcode(index: u8) -> u8 {
    if index == 0 {
        0xC5
    } else if index == 1 {
        0xD5
    } else if index == 2 {
        0xE5
    } else {
        0xF5
    }
}

/// The opcode that pops the pair with the given index.
pub open spec fn pop_opcode(index: u8) -> u8 {
    if index == 0 {
        0xC1
    } else if index == 1 {
        0xD1
    } else if index == 2 {
        0xE1
    } else {
        0xF1
    }
}

/// What the built-in table holds for the push and pop of a pair.
#[verifier::rlimit(30)]
proof fn lemma_stack_descriptors(index: u8)
    requires
        index < 4,
    ensures
        ({
            let push = spec_decode_opcode(push_opcode(index));
            push.mnemonic == NopreOpcodeMnemonics::PUSH && push.n_operands == 1 && push.first.name
                == stack_pair_of(index) && push.bytes == 1
        }),
        ({
            let pop = spec_decode_opcode(pop_opcode(index));
            pop.mnemonic == NopreOpcodeMnemonics::POP && pop.n_operands == 1 && pop.first.name
                == stack_pair_of(index) && pop.bytes == 1
        }),
{
    if index == 0 {
        assert(0xC5u8 / 64 == 3 && (0xC5u8 / 8) % 8 == 0 && 0xC5u8 % 8 == 5);
        assert(0xC1u8 / 64 == 3 && (0xC1u8 / 8) % 8 == 0 && 0xC1u8 % 8 == 1);
    } else if index == 1 {
        assert(0xD5u8 / 64 == 3 && (0xD5u8 / 8) % 8 == 2 && 0xD5u8 % 8 == 5);
        assert(0xD1u8 / 64 == 3 && (0xD1u8 / 8) % 8 == 2 && 0xD1u8 % 8 == 1);
    } else if index == 2 {
        assert(0xE5u8 / 64 == 3 && (0xE5u8 / 8) % 8 == 4 && 0xE5u8 % 8 == 5);
        assert(0xE1u8 / 64 == 3 && (0xE1u8 / 8) % 8 == 4 && 0xE1u8 % 8 == 1);
    } else {
        assert(0xF5u8 / 64 == 3 && (0xF5u8 / 8) % 8 == 6 && 0xF5u8 % 8 == 5);
        assert(0xF1u8 / 64 == 3 && (0xF1u8 / 8) % 8 == 6 && 0xF1u8 % 8 == 1);
    }
}

/// What the built-in table holds for CALL, RET and CPL.
proof fn lemma_plain_descriptors()
    ensures
        ({
            let call = spec_decode_opcode(0xCD);
            call.mnemonic == NopreOpcodeMnemonics::CALL && call.n_operands == 1 && call.bytes == 3
        }),
        ({
            let ret = spec_decode_opcode(0xC9);
            ret.mnemonic == NopreOpcodeMnemonics::RET && ret.n_operands == 0 && ret.bytes == 1
        }),
        ({
            let cpl = spec_decode_opcode(0x2F);
            cpl.mnemonic == NopreOpcodeMnemonics::CPL && cpl.bytes == 1
        }),
{
    assert(0xCDu8 / 64 == 3 && (0xCDu8 / 8) % 8 == 1 && 0xCDu8 % 8 == 5);
    assert(0xC9u8 / 64 == 3 && (0xC9u8 / 8) % 8 == 1 && 0xC9u8 % 8 == 1);
    assert(0x2Fu8 / 64 == 0 && (0x2Fu8 / 8) % 8 == 5 && 0x2Fu8 % 8 == 7);
}

/// What the built-in tables hold for XOR and SWAP of a register.
#[verifier::rlimit(30)]
proof fn lemma_register_descriptors(register: u8)
    requires
        register < 8,
        register != 6,
    ensures
        ({
            let xor = spec_decode_opcode((0xA8 + register) as u8);
            xor.mnemonic == NopreOpcodeMnemonics::XOR && xor.n_operands == 2 && xor.first.name
                == NopreOperands::A && xor.first.immediate && xor.second.immediate
                && is_byte_register(xor.second.name) && (xor.second.name == NopreOperands::A)
                == (register == 7) && xor.bytes == 1
        }),
        ({
            let swap = spec_decode_prefixed((0x30 + register) as u8);
            swap.mnemonic == PrefixOpcodeMnemonics::SWAP && swap.bit == 0 && swap.bytes == 2
                && swap.target != PreOperands::HL && bit_free_target(swap.target)
        }),
{
    let xor = (0xA8 + register) as u8;
    let swap = (0x30 + register) as u8;
    assert(xor / 64 == 2 && (xor / 8) % 8 == 5 && xor % 8 == register);
    assert(swap / 64 == 0 && (swap / 8) % 8 == 6 && swap % 8 == register);
}

/// Whether a target of the prefixed page names a register or the memory at
/// HL rather than a bit index.
pub open spec fn bit_free_target(target: PreOperands) -> bool {
    target == PreOperands::A || target == PreOperands::B || target == PreOperands::C || target
        == PreOperands::D || target == PreOperands::E || target == PreOperands::H || target
        == PreOperands::L || target == PreOperands::HL
}

/// With the built-in tables, PUSH of a pair (opcodes 0xC5, 0xD5, 0xE5,
/// 0xF5) followed by POP of the same pair (0xC1, 0xD1, 0xE1, 0xF1) leaves
/// all registers but the program counter as they were, if the low four
/// bits of the flag register were zero. The two stack cells must be plain
/// memory.
pub proof fn lemma_push_pop_instructions(cpu: CPU, bus: BusView, index: u8)
    requires
        cpu.has_default_tables(),
        bus.wf(),
        cpu.reg.wf(),
        index < 4,
        is_plain_ram(address_before(cpu.reg.sp, 2)),
        is_plain_ram(address_before(cpu.reg.sp, 1)),
    ensures
        ({
            let pushed = cpu.tick_spec(bus, push_opcode(index));
            let popped = at_next(pushed.0).tick_spec(pushed.1, pop_opcode(index));
            &&& pushed.0.reg.sp == address_before(cpu.reg.sp, 2)
            &&& pushed.0.next_pc == address_after(cpu.reg.pc, 1)
            &&& at_next(popped.0).reg == (Registers {
                pc: address_after(cpu.reg.pc, 2),
                ..cpu.reg
            })
        }),
{
    let push_opcode = push_opcode(index);
    let pop_opcode = pop_opcode(index);
    let push = spec_decode_opcode(push_opcode);
    let pop = spec_decode_opcode(pop_opcode);
    lemma_stack_descriptors(index);
    assert(cpu.spec_descriptor(push_opcode) == push);
    assert(cpu.spec_descriptor(pop_opcode) == pop);
    let start = entered(cpu, push.bytes, push.cycles);
    lemma_tick_enters(cpu, bus, push_opcode);
    lemma_families(start, bus, push);
    let pushed = start.op_push_spec(bus, push);
    assert(cpu.tick_spec(bus, push_opcode) == pushed);
    let middle = at_next(pushed.0);
    assert(middle.spec_descriptor(pop_opcode) == pop);
    let between = entered(middle, pop.bytes, pop.cycles);
    lemma_tick_enters(middle, pushed.1, pop_opcode);
    lemma_families(between, pushed.1, pop);
    assert(middle.tick_spec(pushed.1, pop_opcode) == between.op_pop_spec(pushed.1, pop));
    lemma_push_pop_restores(start, bus, push, pop);
    assert(between.reg.sp == pushed.0.reg.sp);
    assert(between.next_pc == address_after(cpu.reg.pc, 2));
}

/// With the built-in tables, CALL (opcode 0xCD) followed by RET (0xC9)
/// leads to the instruction after the call, three bytes on, with the stack
/// pointer and all other registers as they were. The two stack cells must
/// be plain memory.
pub proof fn lemma_call_ret_instructions(cpu: CPU, bus: BusView)
    requires
        cpu.has_default_tables(),
        bus.wf(),
        is_plain_ram(address_before(cpu.reg.sp, 2)),
        is_plain_ram(address_before(cpu.reg.sp, 1)),
    ensures
        ({
            let called = cpu.tick_spec(bus, 0xCD);
            let returned = at_next(called.0).tick_spec(called.1, 0xC9);
            &&& at_next(called.0).reg.pc == bus.read16_cpu(next_address(cpu.reg.pc))
            &&& at_next(returned.0).reg == (Registers {
                pc: address_after(cpu.reg.pc, 3),
                ..cpu.reg
            })
        }),
{
    let call = spec_decode_opcode(0xCD);
    let ret = spec_decode_opcode(0xC9);
    lemma_plain_descriptors();
    assert(cpu.spec_descriptor(0xCD) == call);
    assert(cpu.spec_descriptor(0xC9) == ret);
    let start = entered(cpu, call.bytes, call.cycles);
    lemma_tick_enters(cpu, bus, 0xCD);
    lemma_families(start, bus, call);
    let called = start.op_call_spec(bus, call);
    assert(cpu.tick_spec(bus, 0xCD) == called);
    let middle = at_next(called.0);
    assert(middle.spec_descriptor(0xC9) == ret);
    let between = entered(middle, ret.bytes, ret.cycles);
    lemma_tick_enters(middle, called.1, 0xC9);
    lemma_families(between, called.1, ret);
    assert(middle.tick_spec(called.1, 0xC9) == between.op_ret_spec(called.1, ret));
    lemma_call_ret_returns(start, bus, call, ret);
    assert(between.reg.sp == called.0.reg.sp);
}

/// With the built-in tables, CPL (opcode 0x2F) twice leaves the
/// accumulator as it was.
pub proof fn lemma_cpl_instructions(cpu: CPU, bus: BusView)
    requires
        cpu.has_default_tables(),
    ensures
        ({
            let once = cpu.tick_spec(bus, 0x2F);
            let twice = at_next(once.0).tick_spec(once.1, 0x2F);
            &&& once.0.reg.spec_a() == complement_spec(cpu.reg.spec_a())
            &&& twice.0.reg.spec_a() == cpu.reg.spec_a()
            &&& twice.1 == bus
        }),
{
    let cpl = spec_decode_opcode(0x2F);
    lemma_plain_descriptors();
    assert(cpu.spec_descriptor(0x2F) == cpl);
    let start = entered(cpu, cpl.bytes, cpl.cycles);
    lemma_tick_enters(cpu, bus, 0x2F);
    lemma_families(start, bus, cpl);
    let once = start.op_accumulator_spec(bus, cpl);
    assert(cpu.tick_spec(bus, 0x2F) == once);
    lemma_cpl_twice_restores(start, bus, cpl);
    let middle = at_next(once.0);
    assert(middle.spec_descriptor(0x2F) == cpl);
    let between = entered(middle, cpl.bytes, cpl.cycles);
    lemma_tick_enters(middle, once.1, 0x2F);
    lemma_families(between, once.1, cpl);
    lemma_cpl_twice_restores(between, once.1, cpl);
    assert(between.reg.spec_a() == once.0.reg.spec_a());
    lemma_complement_twice(cpu.reg.spec_a());
}

/// With the built-in tables, XOR with a register other than the
/// accumulator (opcodes 0xA8 to 0xAD) twice leaves the accumulator as it
/// was, and XOR of the accumulator with itself (0xAF) leaves it zero, also
/// the second time.
pub proof fn lemma_xor_instructions(cpu: CPU, bus: BusView, opcode: u8)
    requires
        cpu.has_default_tables(),
        0xA8 <= opcode <= 0xAF,
        opcode != 0xAE,
    ensures
        ({
            let once = cpu.tick_spec(bus, opcode);
            let twice = at_next(once.0).tick_spec(once.1, opcode);
            &&& twice.1 == bus
            &&& opcode != 0xAF ==> twice.0.reg.spec_a() == cpu.reg.spec_a()
            &&& opcode == 0xAF ==> once.0.reg.spec_a() == 0 && twice.0.reg.spec_a() == 0
        }),
{
    let xor = spec_decode_opcode(opcode);
    lemma_register_descriptors((opcode - 0xA8) as u8);
    assert(cpu.spec_descriptor(opcode) == xor);
    let start = entered(cpu, xor.bytes, xor.cycles);
    lemma_tick_enters(cpu, bus, opcode);
    lemma_families(start, bus, xor);
    let once = start.op_alu_spec(bus, xor);
    assert(cpu.tick_spec(bus, opcode) == once);
    lemma_xor_twice_restores(start, bus, xor);
    let middle = at_next(once.0);
    assert(middle.spec_descriptor(opcode) == xor);
    let between = entered(middle, xor.bytes, xor.cycles);
    lemma_tick_enters(middle, once.1, opcode);
    lemma_families(between, once.1, xor);
    lemma_xor_same_registers(once.0, between, once.1, xor);
}

/// XOR with a register gives the same accumulator on two processors that
/// hold the same in all registers but the program counter.
proof fn lemma_xor_same_registers(first: CPU, second: CPU, bus: BusView, instruction: Opcode)
    requires
        instruction.mnemonic == NopreOpcodeMnemonics::XOR,
        instruction.second.immediate,
        is_byte_register(instruction.second.name),
        second.reg == (Registers { pc: second.reg.pc, ..first.reg }),
    ensures
        second.op_alu_spec(bus, instruction).0.reg.spec_a() == first.op_alu_spec(
            bus,
            instruction,
        ).0.reg.spec_a(),
        second.op_alu_spec(bus, instruction).1 == first.op_alu_spec(bus, instruction).1,
{
    let place = spec_locate(first.reg, bus, instruction.second);
    assert(spec_locate(second.reg, bus, instruction.second) == place);
    assert(spec_load(second.reg, bus, place) == spec_load(first.reg, bus, place));
    let r = xor_spec(
        first.reg.spec_a(),
        spec_load(first.reg, bus, place),
    );
    lemma_flags_independent(first.reg, r.1, r.2, r.3, r.4);
    lemma_flags_independent(second.reg, r.1, r.2, r.3, r.4);
    lemma_byte_reg_written(first.reg.with_flags(r.1, r.2, r.3, r.4), NopreOperands::A, r.0);
    lemma_byte_reg_written(second.reg.with_flags(r.1, r.2, r.3, r.4), NopreOperands::A, r.0);
}

/// With the built-in tables, SWAP of a register (opcode 0xCB and then
/// 0x30 to 0x37 but 0x36) twice leaves the register as it was.
pub proof fn lemma_swap_instructions(cpu: CPU, bus: BusView, second: u8)
    requires
        cpu.has_default_tables(),
        0x30 <= second <= 0x37,
        second != 0x36,
        bus.read_cpu(next_address(cpu.reg.pc)) == second,
        bus.read_cpu(next_address(address_after(cpu.reg.pc, 2))) == second,
    ensures
        ({
            let place = spec_prefixed_place(cpu.reg, spec_decode_prefixed(second).target);
            let once = cpu.tick_spec(bus, 0xCB);
            let twice = at_next(once.0).tick_spec(once.1, 0xCB);
            &&& twice.1 == bus
            &&& place is Register
            &&& spec_load(once.0.reg, bus, place) == swap_nibble_spec(
                spec_load(cpu.reg, bus, place),
            ).0
            &&& spec_load(twice.0.reg, bus, place) == spec_load(cpu.reg, bus, place)
        }),
{
    let swap = spec_decode_prefixed(second);
    lemma_register_descriptors((second - 0x30) as u8);
    assert(cpu.spec_prefixed_descriptor(bus) == swap);
    let place = spec_prefixed_place(cpu.reg, swap.target);
    let start = entered(cpu, swap.bytes, swap.cycles);
    lemma_tick_enters(cpu, bus, 0xCB);
    let once = start.opcode_prefixed_tick_spec(bus, swap);
    assert(cpu.tick_spec(bus, 0xCB) == once);
    lemma_swap_twice_restores(start, bus, swap);
    lemma_swap_keeps(start, bus, swap);
    let middle = at_next(once.0);
    assert(middle.reg.pc == address_after(cpu.reg.pc, 2));
    assert(middle.spec_prefixed_descriptor(bus) == swap);
    let between = entered(middle, swap.bytes, swap.cycles);
    lemma_tick_enters(middle, bus, 0xCB);
    assert(spec_prefixed_place(between.reg, swap.target) == place);
    lemma_swap_twice_restores(between, bus, swap);
    lemma_swap_keeps(between, bus, swap);
    assert(middle.tick_spec(bus, 0xCB) == between.opcode_prefixed_tick_spec(bus, swap));
    assert(spec_load(between.reg, bus, place) == spec_load(once.0.reg, bus, place));
    lemma_swap_twice(spec_load(cpu.reg, bus, place));
}

/// SWAP of a register leaves the bus and the address of the next
/// instruction alone.
proof fn lemma_swap_keeps(cpu: CPU, bus: BusView, instruction: PrefixedOpcode)
    requires
        instruction.mnemonic == PrefixOpcodeMnemonics::SWAP,
        instruction.bit < 8,
        spec_prefixed_place(cpu.reg, instruction.target) is Register,
    ensures
        cpu.opcode_prefixed_tick_spec(bus, instruction).1 == bus,
        cpu.opcode_prefixed_tick_spec(bus, instruction).0.next_pc == cpu.next_pc,
        cpu.opcode_prefixed_tick_spec(bus, instruction).0.instruction_dict_prefixed
            == cpu.instruction_dict_prefixed,
{
    reveal(CPU::opcode_prefixed_tick_spec);
}

} // verus!

use game_boyish::bus::Bus;
use game_boyish::cpu::{get_a8_address, Location, CPU};
use game_boyish::emulator::{Emulator, EmulatorState};
use game_boyish::register::Registers;
use game_boyish::util::error_type::Errors;
use game_boyish::util::extract_opcode::{
    decode_opcode, decode_prefixed, default_opcodes, default_prefixed_opcodes, OperandTag,
};
use game_boyish::util::opcode_dict_util::{
    NopreOpcodeMnemonics, NopreOperands, PreOperands, PrefixOpcodeMnemonics,
};

fn machine(program: &[u8]) -> (CPU, Bus) {
    let mut bus = Bus::new();
    bus.write_slice(0xC000, program);
    let mut cpu = CPU::new();
    cpu.reg.pc = 0xC000;
    cpu.reg.sp = 0xDFFE;
    (cpu, bus)
}

#[test]
fn bus_access() {
    let mut bus = Bus::new();
    let _cpu = CPU::new();
    let _cpu2 = CPU::new();
    {
        bus.write_slice(0x0010, &[1, 2, 3]);
        let slice = bus.read_bytes_range(0x0010, 3);
        assert_eq!(slice, &[1, 2, 3]);
    }
    {
        bus.write_byte_as_cpu(0xFF00, 7);
        let slice = bus.read_bytes_range(0xFF00, 3);
        assert_eq!(slice, &[7, 0, 0]);
    }
}

#[test]
fn load_opcode_from_file() {
    let cpu = CPU::new();
    assert_eq!(cpu.instruction_dict_notprefixed[0].mnemonic, NopreOpcodeMnemonics::NOP);
    assert_eq!(cpu.instruction_dict_notprefixed[0xFF].mnemonic, NopreOpcodeMnemonics::RST);
    assert_eq!(cpu.instruction_dict_prefixed[0xFF].mnemonic, PrefixOpcodeMnemonics::SET);
}

#[test]
fn multiple_bus_access() {
    let mut emu = Emulator::new();
    assert!(emu.state == EmulatorState::Paused);
    {
        emu.bus.write_slice(0x0010, &[1, 2, 3]);
        let slice = emu.bus.read_bytes_range(0x0010, 3);
        assert_eq!(slice, &[1, 2, 3]);
    }
    {
        emu.bus.write_slice(0x0010, &[1, 2, 3]);
        let slice = emu.bus.read_bytes_range(0x0010, 3);
        assert_eq!(slice, &[1, 2, 3]);
    }
    {
        emu.bus.write_byte_as_cpu(0x00A0, 5);
        let val = emu.bus.read_byte_as_cpu(0x00A0);
        assert_eq!(val, 5);
    }

    emu.bus.write_slice(0x8000, &[2u8; 8192]);
    let val = emu.bus.read_byte_as_cpu(0x8222);
    assert_eq!(val, 2);
}

#[test]
fn built_in_tables() {
    let nopre = default_opcodes();
    let pre = default_prefixed_opcodes();
    assert_eq!(nopre.len(), 256);
    assert_eq!(pre.len(), 256);
    let ld = decode_opcode(0x3E);
    assert_eq!(ld.mnemonic, NopreOpcodeMnemonics::LD);
    assert_eq!((ld.bytes, ld.cycles, ld.n_operands), (2, 8, 2));
    assert_eq!(ld.first.name, NopreOperands::A);
    assert_eq!(ld.second.name, NopreOperands::n8);
    let jr = decode_opcode(0x20);
    assert_eq!(jr.mnemonic, NopreOpcodeMnemonics::JR);
    assert_eq!((jr.bytes, jr.cycles, jr.cycles_alt), (2, 12, 8));
    assert_eq!(jr.first.name, NopreOperands::NZ);
    let call = decode_opcode(0xC4);
    assert_eq!((call.bytes, call.cycles, call.cycles_alt), (3, 24, 12));
    assert_eq!(decode_opcode(0x76).mnemonic, NopreOpcodeMnemonics::HALT);
    assert_eq!(decode_opcode(0xCB).mnemonic, NopreOpcodeMnemonics::PREFIX);
    assert_eq!(decode_opcode(0xD3).mnemonic, NopreOpcodeMnemonics::IllegalD3);
    assert_eq!(decode_opcode(0xFD).mnemonic, NopreOpcodeMnemonics::IllegalFd);
    assert_eq!(decode_opcode(0xE8).first.name, NopreOperands::SP);
    assert_eq!(decode_opcode(0xF8).n_operands, 3);
    assert_eq!(
        decode_opcode(0x22).first,
        OperandTag { name: NopreOperands::HL, immediate: false, increment: true, decrement: false }
    );
    assert_eq!(decode_opcode(0xEF).first.name, NopreOperands::X28);
    let bit = decode_prefixed(0x7E);
    assert_eq!(bit.mnemonic, PrefixOpcodeMnemonics::BIT);
    assert_eq!((bit.bit, bit.target, bit.cycles), (7, PreOperands::HL, 12));
    assert_eq!(decode_prefixed(0x37).mnemonic, PrefixOpcodeMnemonics::SWAP);
    assert_eq!(decode_prefixed(0x00).mnemonic, PrefixOpcodeMnemonics::RLC);
    assert_eq!(decode_prefixed(0x08).mnemonic, PrefixOpcodeMnemonics::RRC);
    assert_eq!(nopre[0x3E], ld);
    assert_eq!(pre[0x7E], bit);
}

#[test]
fn load_register_to_register() {
    // LD B,D ; LD A,B
    let (mut cpu, mut bus) = machine(&[0x42, 0x78]);
    cpu.reg.set_b(0x00);
    cpu.reg.set_d(0x42);
    let first = cpu.step(&mut bus);
    let second = cpu.step(&mut bus);
    assert_eq!(cpu.reg.get_b(), 0x42);
    assert_eq!(cpu.reg.get_a(), 0x42);
    assert_eq!(cpu.reg.pc, 0xC002);
    assert_eq!(first as u32 + second as u32, 8);
    assert_eq!(cpu.reg.get_f(), 0);
}

#[test]
fn add_accumulator_to_itself() {
    // ADD A,A
    let (mut cpu, mut bus) = machine(&[0x87]);
    cpu.reg.set_a(0x88);
    let cycles = cpu.step(&mut bus);
    assert_eq!(cpu.reg.get_a(), 0x10);
    assert!(!cpu.reg.flag_z());
    assert!(!cpu.reg.flag_n());
    assert!(cpu.reg.flag_h());
    assert!(cpu.reg.flag_c());
    assert_eq!(cycles, 4);
    assert_eq!(cpu.reg.af & 0x000F, 0);
}

#[test]
fn decimal_adjust_after_addition() {
    // LD A,0x15 ; ADD A,0x27 ; DAA
    let (mut cpu, mut bus) = machine(&[0x3E, 0x15, 0xC6, 0x27, 0x27]);
    cpu.step(&mut bus);
    cpu.step(&mut bus);
    assert_eq!(cpu.reg.get_a(), 0x3C);
    assert!(!cpu.reg.flag_n() && !cpu.reg.flag_h() && !cpu.reg.flag_c());
    cpu.step(&mut bus);
    assert_eq!(cpu.reg.get_a(), 0x42);
    assert!(!cpu.reg.flag_z());
    assert!(!cpu.reg.flag_c());
}

#[test]
fn conditional_call_not_taken() {
    // CALL NZ,0x1234 with Z set
    let (mut cpu, mut bus) = machine(&[0xC4, 0x34, 0x12]);
    cpu.reg.set_flag_z(true);
    let cycles = cpu.step(&mut bus);
    assert_eq!(cpu.reg.pc, 0xC003);
    assert_eq!(cpu.reg.sp, 0xDFFE);
    assert_eq!(cycles, 12);
}

#[test]
fn conditional_call_taken_and_return() {
    // CALL Z,0xC010 ... RET
    let (mut cpu, mut bus) = machine(&[0xCC, 0x10, 0xC0]);
    bus.write_byte(0xC010, 0xC9);
    cpu.reg.set_flag_z(true);
    let cycles = cpu.step(&mut bus);
    assert_eq!(cycles, 24);
    assert_eq!(cpu.reg.pc, 0xC010);
    assert_eq!(cpu.reg.sp, 0xDFFC);
    assert_eq!(bus.read_byte(0xDFFC), 0x03);
    assert_eq!(bus.read_byte(0xDFFD), 0xC0);
    let cycles = cpu.step(&mut bus);
    assert_eq!(cycles, 16);
    assert_eq!(cpu.reg.pc, 0xC003);
    assert_eq!(cpu.reg.sp, 0xDFFE);
}

#[test]
fn interrupt_dispatch() {
    let mut bus = Bus::new();
    let mut cpu = CPU::new();
    bus.write_byte_as_cpu(0xFFFF, 0x01);
    bus.write_byte_as_cpu(0xFF0F, 0x01);
    cpu.ime = true;
    cpu.reg.pc = 0x100;
    cpu.reg.sp = 0xFFFE;
    let cycles = cpu.step(&mut bus);
    assert!(!cpu.ime);
    assert_eq!(bus.read_byte(0xFF0F), 0x00);
    assert_eq!(cpu.reg.sp, 0xFFFC);
    assert_eq!(bus.read_byte(0xFFFC), 0x00);
    assert_eq!(bus.read_byte(0xFFFD), 0x01);
    assert_eq!(cpu.reg.pc, 0x0040);
    assert_eq!(cycles, 20);
}

#[test]
fn interrupt_waits_for_master_enable() {
    // NOP with an interrupt pending and the master enable off
    let (mut cpu, mut bus) = machine(&[0x00]);
    bus.write_byte_as_cpu(0xFFFF, 0x04);
    bus.write_byte_as_cpu(0xFF0F, 0x04);
    let cycles = cpu.step(&mut bus);
    assert_eq!(cycles, 4);
    assert_eq!(cpu.reg.pc, 0xC001);
    assert_eq!(bus.read_byte(0xFF0F), 0x04);
}

#[test]
fn enable_interrupts_takes_effect_one_instruction_late() {
    // EI ; NOP ; NOP
    let (mut cpu, mut bus) = machine(&[0xFB, 0x00, 0x00]);
    bus.write_byte_as_cpu(0xFFFF, 0x01);
    bus.write_byte_as_cpu(0xFF0F, 0x01);
    cpu.step(&mut bus);
    assert!(!cpu.ime);
    cpu.step(&mut bus);
    assert!(cpu.ime);
    assert_eq!(cpu.reg.pc, 0xC002);
    let cycles = cpu.step(&mut bus);
    assert_eq!(cycles, 20);
    assert_eq!(cpu.reg.pc, 0x0040);
    assert_eq!(bus.read_2_bytes_little_endian(cpu.reg.sp), 0xC002);
    // DI switches off at once, and cancels a pending EI
    let (mut cpu, mut bus) = machine(&[0xFB, 0xF3, 0x00]);
    cpu.step(&mut bus);
    cpu.step(&mut bus);
    cpu.step(&mut bus);
    assert!(!cpu.ime);
    // RETI switches on at once
    let (mut cpu, mut bus) = machine(&[0xD9]);
    bus.write_2_bytes_little_endian(0xDFFE, 0x1234);
    cpu.step(&mut bus);
    assert!(cpu.ime);
    assert_eq!(cpu.reg.pc, 0x1234);
    assert_eq!(cpu.reg.sp, 0xE000);
}

#[test]
fn halt_sleeps_until_an_interrupt_is_pending() {
    // HALT ; INC A
    let (mut cpu, mut bus) = machine(&[0x76, 0x3C]);
    bus.write_byte_as_cpu(0xFFFF, 0x04);
    cpu.step(&mut bus);
    assert!(cpu.halted);
    assert_eq!(cpu.reg.pc, 0xC001);
    assert_eq!(cpu.step(&mut bus), 4);
    assert_eq!(cpu.step(&mut bus), 4);
    assert_eq!(cpu.reg.pc, 0xC001);
    assert_eq!(cpu.reg.get_a(), 0);
    // with the master enable off the processor goes on without service
    bus.write_byte_as_cpu(0xFF0F, 0x04);
    cpu.step(&mut bus);
    assert!(!cpu.halted);
    assert_eq!(cpu.reg.get_a(), 1);
    assert_eq!(cpu.reg.pc, 0xC002);
    assert_eq!(bus.read_byte(0xFF0F), 0x04);
    // with the master enable on the interrupt is served on waking
    let (mut cpu, mut bus) = machine(&[0x76, 0x3C]);
    bus.write_byte_as_cpu(0xFFFF, 0x04);
    cpu.ime = true;
    cpu.step(&mut bus);
    assert!(cpu.halted);
    bus.write_byte_as_cpu(0xFF0F, 0x04);
    assert_eq!(cpu.step(&mut bus), 20);
    assert!(!cpu.halted);
    assert_eq!(cpu.reg.pc, 0x0050);
    assert_eq!(bus.read_2_bytes_little_endian(cpu.reg.sp), 0xC001);
}

#[test]
fn halt_bug_reads_the_next_opcode_twice() {
    // HALT ; LD A,0x14 runs as LD A,0x3E ; INC D
    let (mut cpu, mut bus) = machine(&[0x76, 0x3E, 0x14]);
    bus.write_byte_as_cpu(0xFFFF, 0x01);
    bus.write_byte_as_cpu(0xFF0F, 0x01);
    cpu.step(&mut bus);
    assert!(!cpu.halted);
    assert!(cpu.halt_bug);
    cpu.step(&mut bus);
    assert_eq!(cpu.reg.get_a(), 0x3E);
    assert_eq!(cpu.reg.pc, 0xC002);
    cpu.step(&mut bus);
    assert_eq!(cpu.reg.get_d(), 1);
    assert_eq!(cpu.reg.pc, 0xC003);
}

#[test]
fn illegal_opcode_locks_the_processor() {
    let (mut cpu, mut bus) = machine(&[0xD3, 0x3C]);
    let before = cpu.reg;
    cpu.step(&mut bus);
    assert!(cpu.locked);
    assert_eq!(cpu.reg, before);
    assert_eq!(cpu.step(&mut bus), 4);
    assert_eq!(cpu.reg, before);
    for opcode in [0xD3u8, 0xDB, 0xDD, 0xE3, 0xE4, 0xEB, 0xEC, 0xED, 0xF4, 0xFC, 0xFD] {
        let (mut cpu, mut bus) = machine(&[opcode]);
        cpu.step(&mut bus);
        assert!(cpu.locked);
        assert_eq!(cpu.reg.pc, 0xC000);
    }
}

#[test]
fn push_and_pop() {
    // PUSH BC ; POP DE ; PUSH AF ; POP AF
    let (mut cpu, mut bus) = machine(&[0xC5, 0xD1, 0xF5, 0xF1]);
    cpu.reg.bc = 0x1234;
    cpu.reg.af = 0x56F0;
    assert_eq!(cpu.step(&mut bus), 16);
    assert_eq!(cpu.reg.sp, 0xDFFC);
    assert_eq!(bus.read_byte(0xDFFC), 0x34);
    assert_eq!(bus.read_byte(0xDFFD), 0x12);
    assert_eq!(cpu.step(&mut bus), 12);
    assert_eq!(cpu.reg.de, 0x1234);
    assert_eq!(cpu.reg.sp, 0xDFFE);
    cpu.step(&mut bus);
    bus.write_byte(0xDFFC, 0xFF);
    cpu.step(&mut bus);
    assert_eq!(cpu.reg.af, 0x56F0);
    // the stack pointer wraps
    let (mut cpu, mut bus) = machine(&[0xC5, 0xC1]);
    cpu.reg.sp = 0x0001;
    cpu.reg.bc = 0xBEEF;
    cpu.step(&mut bus);
    assert_eq!(cpu.reg.sp, 0xFFFF);
    cpu.reg.bc = 0;
    cpu.step(&mut bus);
    assert_eq!(cpu.reg.sp, 0x0001);
    assert_eq!(cpu.reg.bc, 0xBEEF);
}

#[test]
fn jumps() {
    // JP 0xC010
    let (mut cpu, mut bus) = machine(&[0xC3, 0x10, 0xC0]);
    assert_eq!(cpu.step(&mut bus), 16);
    assert_eq!(cpu.reg.pc, 0xC010);
    // JP NC,0xC010 with carry set
    let (mut cpu, mut bus) = machine(&[0xD2, 0x10, 0xC0]);
    cpu.reg.set_flag_c(true);
    assert_eq!(cpu.step(&mut bus), 12);
    assert_eq!(cpu.reg.pc, 0xC003);
    // JP HL
    let (mut cpu, mut bus) = machine(&[0xE9]);
    cpu.reg.hl = 0x4321;
    assert_eq!(cpu.step(&mut bus), 4);
    assert_eq!(cpu.reg.pc, 0x4321);
    // JR -2 jumps onto itself
    let (mut cpu, mut bus) = machine(&[0x18, 0xFE]);
    assert_eq!(cpu.step(&mut bus), 12);
    assert_eq!(cpu.reg.pc, 0xC000);
    // JR Z,+5 not taken
    let (mut cpu, mut bus) = machine(&[0x28, 0x05]);
    assert_eq!(cpu.step(&mut bus), 8);
    assert_eq!(cpu.reg.pc, 0xC002);
    // JR C,+5 taken
    let (mut cpu, mut bus) = machine(&[0x38, 0x05]);
    cpu.reg.set_flag_c(true);
    assert_eq!(cpu.step(&mut bus), 12);
    assert_eq!(cpu.reg.pc, 0xC007);
    // RST 0x20
    let (mut cpu, mut bus) = machine(&[0xE7]);
    assert_eq!(cpu.step(&mut bus), 16);
    assert_eq!(cpu.reg.pc, 0x0020);
    assert_eq!(bus.read_2_bytes_little_endian(cpu.reg.sp), 0xC001);
    // RET NZ not taken
    let (mut cpu, mut bus) = machine(&[0xC0]);
    cpu.reg.set_flag_z(true);
    assert_eq!(cpu.step(&mut bus), 8);
    assert_eq!(cpu.reg.pc, 0xC001);
    assert_eq!(cpu.reg.sp, 0xDFFE);
    // the program counter wraps
    let mut bus = Bus::new();
    let mut cpu = CPU::new();
    cpu.reg.pc = 0xFFFF;
    cpu.step(&mut bus);
    assert_eq!(cpu.reg.pc, 0x0000);
}

#[test]
fn loads_through_memory() {
    // LD HL,0xC100 ; LD (HL+),A ; LD (HL-),A ; LD A,(HL+) ; LD (HL),0x77 ; LD B,(HL)
    let (mut cpu, mut bus) = machine(&[0x21, 0x00, 0xC1, 0x22, 0x32, 0x2A, 0x36, 0x77, 0x46]);
    cpu.reg.set_a(0x5A);
    assert_eq!(cpu.step(&mut bus), 12);
    assert_eq!(cpu.reg.hl, 0xC100);
    assert_eq!(cpu.step(&mut bus), 8);
    assert_eq!(bus.read_byte(0xC100), 0x5A);
    assert_eq!(cpu.reg.hl, 0xC101);
    cpu.reg.set_a(0xA5);
    cpu.step(&mut bus);
    assert_eq!(bus.read_byte(0xC101), 0xA5);
    assert_eq!(cpu.reg.hl, 0xC100);
    cpu.step(&mut bus);
    assert_eq!(cpu.reg.get_a(), 0x5A);
    assert_eq!(cpu.reg.hl, 0xC101);
    assert_eq!(cpu.step(&mut bus), 12);
    assert_eq!(bus.read_byte(0xC101), 0x77);
    assert_eq!(cpu.step(&mut bus), 8);
    assert_eq!(cpu.reg.get_b(), 0x77);
    assert_eq!(cpu.reg.pc, 0xC009);
    assert_eq!(cpu.reg.get_f(), 0);
    // LDH (0x80),A ; LDH A,(C) ; LD (0xC200),A ; LD A,(BC)
    let (mut cpu, mut bus) = machine(&[0xE0, 0x80, 0xF2, 0xEA, 0x00, 0xC2, 0x0A]);
    cpu.reg.set_a(0x99);
    assert_eq!(cpu.step(&mut bus), 12);
    assert_eq!(bus.read_byte(0xFF80), 0x99);
    bus.write_byte(0xFF81, 0x11);
    cpu.reg.set_c(0x81);
    assert_eq!(cpu.step(&mut bus), 8);
    assert_eq!(cpu.reg.get_a(), 0x11);
    assert_eq!(cpu.step(&mut bus), 16);
    assert_eq!(bus.read_byte(0xC200), 0x11);
    cpu.reg.bc = 0xFF80;
    cpu.step(&mut bus);
    assert_eq!(cpu.reg.get_a(), 0x99);
    assert_eq!(get_a8_address(0x80), 0xFF80);
}

#[test]
fn wide_loads_and_arithmetic() {
    // LD SP,0xFFF8 ; LD HL,SP+8 ; LD SP,HL ; LD (0xC100),SP ; ADD SP,-1 ; ADD HL,HL ; INC BC ; DEC DE
    let (mut cpu, mut bus) =
        machine(&[0x31, 0xF8, 0xFF, 0xF8, 0x08, 0xF9, 0x08, 0x00, 0xC1, 0xE8, 0xFF, 0x29, 0x03, 0x1B]);
    cpu.reg.set_flag_z(true);
    cpu.step(&mut bus);
    assert_eq!(cpu.reg.sp, 0xFFF8);
    assert_eq!(cpu.step(&mut bus), 12);
    assert_eq!(cpu.reg.hl, 0x0000);
    assert!(!cpu.reg.flag_z() && !cpu.reg.flag_n() && cpu.reg.flag_h() && cpu.reg.flag_c());
    cpu.reg.hl = 0x8800;
    assert_eq!(cpu.step(&mut bus), 8);
    assert_eq!(cpu.reg.sp, 0x8800);
    assert_eq!(cpu.step(&mut bus), 20);
    assert_eq!(bus.read_byte(0xC100), 0x00);
    assert_eq!(bus.read_byte(0xC101), 0x88);
    assert_eq!(cpu.step(&mut bus), 16);
    assert_eq!(cpu.reg.sp, 0x87FF);
    assert!(!cpu.reg.flag_z() && !cpu.reg.flag_h() && !cpu.reg.flag_c());
    cpu.reg.set_flag_z(true);
    assert_eq!(cpu.step(&mut bus), 8);
    assert_eq!(cpu.reg.hl, 0x1000);
    assert!(cpu.reg.flag_z() && !cpu.reg.flag_n() && cpu.reg.flag_h() && cpu.reg.flag_c());
    cpu.reg.bc = 0xFFFF;
    cpu.reg.de = 0x0000;
    let flags = cpu.reg.get_f();
    cpu.step(&mut bus);
    cpu.step(&mut bus);
    assert_eq!(cpu.reg.bc, 0x0000);
    assert_eq!(cpu.reg.de, 0xFFFF);
    assert_eq!(cpu.reg.get_f(), flags);
}

#[test]
fn byte_arithmetic_on_registers_and_memory() {
    // SUB A,B ; CP A,0x10 ; INC (HL) ; DEC L ; AND A,(HL) ; OR A,C ; ADC A,0x01 ; SBC A,A
    let (mut cpu, mut bus) =
        machine(&[0x90, 0xFE, 0x10, 0x34, 0x2D, 0xA6, 0xB1, 0xCE, 0x01, 0x9F]);
    cpu.reg.set_a(0x20);
    cpu.reg.set_b(0x10);
    cpu.step(&mut bus);
    assert_eq!(cpu.reg.get_a(), 0x10);
    assert!(cpu.reg.flag_n() && !cpu.reg.flag_z() && !cpu.reg.flag_c());
    assert_eq!(cpu.step(&mut bus), 8);
    assert_eq!(cpu.reg.get_a(), 0x10);
    assert!(cpu.reg.flag_z() && cpu.reg.flag_n());
    cpu.reg.hl = 0xC101;
    bus.write_byte(0xC101, 0xFF);
    cpu.reg.set_flag_c(true);
    assert_eq!(cpu.step(&mut bus), 12);
    assert_eq!(bus.read_byte(0xC101), 0x00);
    assert!(cpu.reg.flag_z() && !cpu.reg.flag_n() && cpu.reg.flag_h() && cpu.reg.flag_c());
    cpu.step(&mut bus);
    assert_eq!(cpu.reg.hl, 0xC100);
    assert!(cpu.reg.flag_z() && cpu.reg.flag_n() && !cpu.reg.flag_h() && cpu.reg.flag_c());
    bus.write_byte(0xC100, 0x30);
    cpu.step(&mut bus);
    assert_eq!(cpu.reg.get_a(), 0x10);
    assert!(cpu.reg.flag_h() && !cpu.reg.flag_c() && !cpu.reg.flag_n());
    cpu.reg.set_c(0x0F);
    cpu.step(&mut bus);
    assert_eq!(cpu.reg.get_a(), 0x1F);
    assert_eq!(cpu.reg.get_f(), 0);
    cpu.reg.set_flag_c(true);
    cpu.step(&mut bus);
    assert_eq!(cpu.reg.get_a(), 0x21);
    assert!(cpu.reg.flag_h() && !cpu.reg.flag_c());
    cpu.reg.set_flag_c(true);
    cpu.step(&mut bus);
    assert_eq!(cpu.reg.get_a(), 0xFF);
    assert!(cpu.reg.flag_n() && cpu.reg.flag_h() && cpu.reg.flag_c());
}

#[test]
fn accumulator_and_flag_operations() {
    // CPL ; CPL ; SCF ; CCF ; RLCA ; RRA
    let (mut cpu, mut bus) = machine(&[0x2F, 0x2F, 0x37, 0x3F, 0x07, 0x1F]);
    cpu.reg.set_a(0x81);
    cpu.step(&mut bus);
    assert_eq!(cpu.reg.get_a(), 0x7E);
    assert!(cpu.reg.flag_n() && cpu.reg.flag_h());
    cpu.step(&mut bus);
    assert_eq!(cpu.reg.get_a(), 0x81);
    cpu.step(&mut bus);
    assert!(cpu.reg.flag_c() && !cpu.reg.flag_n() && !cpu.reg.flag_h());
    cpu.step(&mut bus);
    assert!(!cpu.reg.flag_c());
    cpu.reg.set_flag_z(true);
    cpu.step(&mut bus);
    assert_eq!(cpu.reg.get_a(), 0x03);
    assert!(cpu.reg.flag_c() && !cpu.reg.flag_z());
    cpu.step(&mut bus);
    assert_eq!(cpu.reg.get_a(), 0x81);
    assert!(cpu.reg.flag_c());
}

#[test]
fn exclusive_or_twice() {
    // XOR A,B ; XOR A,B ; XOR A,A ; XOR A,A
    let (mut cpu, mut bus) = machine(&[0xA8, 0xA8, 0xAF, 0xAF]);
    cpu.reg.set_a(0x3C);
    cpu.reg.set_b(0xA5);
    cpu.step(&mut bus);
    assert_eq!(cpu.reg.get_a(), 0x99);
    cpu.step(&mut bus);
    assert_eq!(cpu.reg.get_a(), 0x3C);
    cpu.step(&mut bus);
    assert_eq!(cpu.reg.get_a(), 0x00);
    assert!(cpu.reg.flag_z());
    cpu.step(&mut bus);
    assert_eq!(cpu.reg.get_a(), 0x00);
}

#[test]
fn prefixed_page() {
    // SWAP B ; SWAP B ; BIT 7,H ; SET 0,(HL) ; RES 7,A ; RLC C ; RR D ; SLA E ; SRL (HL)
    let (mut cpu, mut bus) = machine(&[
        0xCB, 0x30, 0xCB, 0x30, 0xCB, 0x7C, 0xCB, 0xC6, 0xCB, 0xBF, 0xCB, 0x01, 0xCB, 0x1A, 0xCB, 0x23,
        0xCB, 0x3E,
    ]);
    cpu.reg.set_b(0xA5);
    assert_eq!(cpu.step(&mut bus), 8);
    assert_eq!(cpu.reg.get_b(), 0x5A);
    assert_eq!(cpu.reg.pc, 0xC002);
    cpu.step(&mut bus);
    assert_eq!(cpu.reg.get_b(), 0xA5);
    cpu.reg.hl = 0xC100;
    cpu.reg.set_flag_c(true);
    cpu.step(&mut bus);
    assert!(!cpu.reg.flag_z() && !cpu.reg.flag_n() && cpu.reg.flag_h() && cpu.reg.flag_c());
    assert_eq!(cpu.step(&mut bus), 16);
    assert_eq!(bus.read_byte(0xC100), 0x01);
    cpu.reg.set_a(0xFF);
    let flags = cpu.reg.get_f();
    cpu.step(&mut bus);
    assert_eq!(cpu.reg.get_a(), 0x7F);
    assert_eq!(cpu.reg.get_f(), flags);
    cpu.reg.set_c(0x85);
    cpu.step(&mut bus);
    assert_eq!(cpu.reg.get_c(), 0x0B);
    assert!(cpu.reg.flag_c() && !cpu.reg.flag_z() && !cpu.reg.flag_h());
    cpu.reg.set_d(0x02);
    cpu.step(&mut bus);
    assert_eq!(cpu.reg.get_d(), 0x81);
    assert!(!cpu.reg.flag_c());
    cpu.reg.set_e(0x80);
    cpu.step(&mut bus);
    assert_eq!(cpu.reg.get_e(), 0x00);
    assert!(cpu.reg.flag_z() && cpu.reg.flag_c());
    cpu.step(&mut bus);
    assert_eq!(bus.read_byte(0xC100), 0x00);
    assert!(cpu.reg.flag_z() && cpu.reg.flag_c());
    assert_eq!(cpu.reg.pc, 0xC012);
}

#[test]
fn stop_resets_the_divider() {
    let (mut cpu, mut bus) = machine(&[0x10, 0x00]);
    bus.timer_div_intern = 0x1234;
    assert_eq!(cpu.step(&mut bus), 4);
    assert_eq!(bus.timer_div_intern, 0);
    assert_eq!(cpu.reg.pc, 0xC002);
    bus.timer_div_intern = 0x4321;
    cpu.stop(&mut bus);
    assert_eq!(bus.timer_div_intern, 0);
}

#[test]
fn clock_cycles_pace_the_processor() {
    // INC A ; INC A
    let (mut cpu, mut bus) = machine(&[0x3C, 0x3C]);
    cpu.next_tick(&mut bus);
    assert_eq!(cpu.reg.get_a(), 1);
    assert_eq!(cpu.total_tick, 1);
    for _ in 0..3 {
        cpu.next_tick(&mut bus);
        assert_eq!(cpu.reg.get_a(), 1);
    }
    cpu.next_tick(&mut bus);
    assert_eq!(cpu.reg.get_a(), 2);
    assert_eq!(cpu.total_tick, 2);
    assert_eq!(cpu.cycles_since_last_cmd, 0);
}

#[test]
fn tick_leaves_the_program_counter() {
    let (mut cpu, mut bus) = machine(&[0x06, 0x77]);
    cpu.tick(&mut bus, 0x06);
    assert_eq!(cpu.reg.get_b(), 0x77);
    assert_eq!(cpu.reg.pc, 0xC000);
    assert_eq!(cpu.next_pc, 0xC002);
    assert_eq!(cpu.cycles_to_wait, 8);
}

#[test]
fn operand_locations() {
    let (mut cpu, mut bus) = machine(&[0x00, 0x42]);
    cpu.reg.hl = 0xC100;
    bus.write_byte(0xC100, 0x99);
    let at_hl = cpu.locate(&bus, &decode_opcode(0x7E).second);
    assert_eq!(at_hl, Location::Memory(0xC100));
    assert_eq!(cpu.load(&bus, &at_hl), 0x99);
    let immediate = cpu.locate(&bus, &decode_opcode(0x3E).second);
    assert_eq!(immediate, Location::Value(0x42));
    let nowhere = cpu.locate(&bus, &decode_opcode(0x01).second);
    assert_eq!(nowhere, Location::Nowhere);
    assert_eq!(cpu.load(&bus, &nowhere), 0);
    cpu.store(&mut bus, &Location::Register(NopreOperands::E), 0x12);
    assert_eq!(cpu.reg.get_e(), 0x12);
    cpu.store(&mut bus, &Location::Memory(0xC101), 0x34);
    assert_eq!(bus.read_byte(0xC101), 0x34);
    let before = cpu.reg;
    cpu.store(&mut bus, &Location::Value(1), 0x56);
    assert_eq!(cpu.reg, before);
}

#[test]
fn loaded_tables_replace_the_built_in_ones() {
    let mut cpu = CPU::new();
    let mut nopre = default_opcodes();
    let pre = default_prefixed_opcodes();
    // a table in which opcode 0x00 increments the accumulator
    nopre[0] = decode_opcode(0x3C);
    assert_eq!(cpu.load_tables(&nopre, &pre), Ok(()));
    let mut bus = Bus::new();
    cpu.step(&mut bus);
    assert_eq!(cpu.reg.get_a(), 1);
    nopre.pop();
    assert_eq!(cpu.load_tables(&nopre, &pre), Err(Errors::InstructionTable));
    assert_eq!(cpu.instruction_dict_notprefixed[0], decode_opcode(0x3C));
    // a descriptor that makes no sense locks the processor
    let mut odd = decode_opcode(0x80);
    odd.n_operands = 1;
    let mut nopre = default_opcodes();
    nopre[0] = odd;
    assert_eq!(cpu.load_tables(&nopre, &pre), Ok(()));
    cpu.step(&mut bus);
    assert!(cpu.locked);
}

#[test]
fn registers_after_the_boot_program() {
    let cpu = CPU::new_doctor();
    assert_eq!(
        cpu.reg,
        Registers { af: 0x01B0, bc: 0x0013, de: 0x00D8, hl: 0x014D, sp: 0xFFFE, pc: 0x0100 }
    );
    assert!(!cpu.ime && !cpu.halted && !cpu.locked);
}

use game_boyish::bus::Bus;
use game_boyish::cpu::CPU;
use game_boyish::util::error_type::Errors;
use game_boyish::util::extract_opcode::{
    bit_index, decode_opcode, decode_prefixed, opcode_key, Flags, Instruction, Instructions,
    Operand,
};
use game_boyish::util::opcode_dict_util::{
    NopreOpcodeMnemonics, NopreOperands, PreOperands, PrefixOpcodeMnemonics,
};

fn operand(name: &str, immediate: bool) -> Operand {
    Operand { name: name.to_string(), immediate, increment: None, decrement: None, bytes: None }
}

fn flags() -> Flags {
    Flags { Z: "-".to_string(), N: "-".to_string(), H: "-".to_string(), C: "-".to_string() }
}

fn record(mnemonic: &str, bytes: usize, cycles: Vec<usize>, operands: Vec<Operand>) -> Instruction {
    Instruction { mnemonic: mnemonic.to_string(), bytes, cycles, operands, immediate: true, flags: flags() }
}

fn operand_name(name: NopreOperands) -> &'static str {
    match name {
        NopreOperands::X00 => "$00",
        NopreOperands::X08 => "$08",
        NopreOperands::X10 => "$10",
        NopreOperands::X18 => "$18",
        NopreOperands::X20 => "$20",
        NopreOperands::X28 => "$28",
        NopreOperands::X30 => "$30",
        NopreOperands::X38 => "$38",
        NopreOperands::A => "A",
        NopreOperands::AF => "AF",
        NopreOperands::B => "B",
        NopreOperands::BC => "BC",
        NopreOperands::C => "C",
        NopreOperands::D => "D",
        NopreOperands::DE => "DE",
        NopreOperands::E => "E",
        NopreOperands::H => "H",
        NopreOperands::HL => "HL",
        NopreOperands::L => "L",
        NopreOperands::NC => "NC",
        NopreOperands::NZ => "NZ",
        NopreOperands::SP => "SP",
        NopreOperands::Z => "Z",
        NopreOperands::a16 => "a16",
        NopreOperands::a8 => "a8",
        NopreOperands::e8 => "e8",
        NopreOperands::n16 => "n16",
        NopreOperands::n8 => "n8",
        NopreOperands::INVALID => "?",
    }
}

fn mnemonic_name(mnemonic: NopreOpcodeMnemonics) -> String {
    match mnemonic {
        NopreOpcodeMnemonics::IllegalD3 => "ILLEGAL_D3".to_string(),
        NopreOpcodeMnemonics::IllegalDb => "ILLEGAL_DB".to_string(),
        NopreOpcodeMnemonics::IllegalDd => "ILLEGAL_DD".to_string(),
        NopreOpcodeMnemonics::IllegalE3 => "ILLEGAL_E3".to_string(),
        NopreOpcodeMnemonics::IllegalE4 => "ILLEGAL_E4".to_string(),
        NopreOpcodeMnemonics::IllegalEb => "ILLEGAL_EB".to_string(),
        NopreOpcodeMnemonics::IllegalEc => "ILLEGAL_EC".to_string(),
        NopreOpcodeMnemonics::IllegalEd => "ILLEGAL_ED".to_string(),
        NopreOpcodeMnemonics::IllegalF4 => "ILLEGAL_F4".to_string(),
        NopreOpcodeMnemonics::IllegalFc => "ILLEGAL_FC".to_string(),
        NopreOpcodeMnemonics::IllegalFd => "ILLEGAL_FD".to_string(),
        other => format!("{:?}", other),
    }
}

fn pre_name(name: PreOperands) -> String {
    format!("{:?}", name)
}

fn nopre_page() -> Instructions {
    let mut entries = Vec::new();
    // in falling order: the order of the entries does not matter
    for opcode in (0..=255u8).rev() {
        let d = decode_opcode(opcode);
        let mut operands = Vec::new();
        for tag in [d.first, d.second, d.third].iter().take(d.n_operands as usize) {
            operands.push(Operand {
                name: operand_name(tag.name).to_string(),
                immediate: tag.immediate,
                increment: if tag.increment { Some(true) } else { None },
                decrement: if tag.decrement { Some(true) } else { None },
                bytes: None,
            });
        }
        let cycles = if d.cycles_alt != d.cycles {
            vec![d.cycles as usize, d.cycles_alt as usize]
        } else {
            vec![d.cycles as usize]
        };
        entries.push((
            format!("0x{:02X}", opcode),
            record(&mnemonic_name(d.mnemonic), d.bytes as usize, cycles, operands),
        ));
    }
    Instructions(entries)
}

fn prefixed_page() -> Instructions {
    let mut entries = Vec::new();
    for opcode in 0..=255u8 {
        let d = decode_prefixed(opcode);
        let mut operands = Vec::new();
        if opcode >= 0x40 {
            operands.push(operand(&format!("{}", d.bit), true));
        }
        operands.push(operand(&pre_name(d.target), d.target != PreOperands::HL));
        entries.push((
            format!("0x{:02X}", opcode),
            record(&format!("{:?}", d.mnemonic), d.bytes as usize, vec![d.cycles as usize], operands),
        ));
    }
    Instructions(entries)
}

#[test]
fn keys_of_opcodes() {
    assert_eq!(opcode_key(0x00), "0x00");
    assert_eq!(opcode_key(0x3F), "0x3F");
    assert_eq!(opcode_key(0xAB), "0xAB");
    assert_eq!(opcode_key(0xFF), "0xFF");
    assert_eq!(bit_index(&PreOperands::N5), Some(5));
    assert_eq!(bit_index(&PreOperands::A), None);
}

#[test]
fn operands_as_a_pair() {
    let ld = record("LD", 1, vec![4], vec![operand("B", true), operand("D", true)]);
    let (into, from) = ld.operands_tuple().unwrap();
    assert_eq!(into.name, "B");
    assert_eq!(from.name, "D");
    assert!(into.immediate && from.immediate);
    assert!(record("NOP", 1, vec![4], vec![]).operands_tuple().is_none());
    assert!(record("INC", 1, vec![4], vec![operand("B", true)]).operands_tuple().is_none());
    let three = vec![operand("HL", true), operand("SP", true), operand("e8", true)];
    assert!(record("LD", 2, vec![12], three).operands_tuple().is_none());
    let copy = operand("HL", false).copy();
    assert_eq!(copy.name, "HL");
    let mut moving = operand("HL", false);
    moving.increment = Some(true);
    let tag = moving.tag();
    assert_eq!(tag.name, NopreOperands::HL);
    assert!(!tag.immediate && tag.increment && !tag.decrement);
}

#[test]
fn records_become_descriptors() {
    let jr = record("JR", 2, vec![12, 8], vec![operand("NZ", true), operand("e8", true)]);
    assert_eq!(jr.to_opcode(), Some(decode_opcode(0x20)));
    let nop = record("NOP", 1, vec![4], vec![]);
    assert_eq!(nop.to_opcode(), Some(decode_opcode(0x00)));
    let unknown = record("FOO", 1, vec![4], vec![]).to_opcode().unwrap();
    assert_eq!(unknown.mnemonic, NopreOpcodeMnemonics::INVALID);
    assert_eq!(record("NOP", 256, vec![4], vec![]).to_opcode(), None);
    assert_eq!(record("NOP", 1, vec![], vec![]).to_opcode(), None);
    assert_eq!(record("NOP", 1, vec![4, 4, 4], vec![]).to_opcode(), None);
    assert_eq!(record("NOP", 1, vec![4, 300], vec![]).to_opcode(), None);
    assert_eq!(record("NOP", 1, vec![300, 4], vec![]).to_opcode(), None);
    let four = vec![operand("A", true), operand("A", true), operand("A", true), operand("A", true)];
    assert_eq!(record("LD", 1, vec![4], four).to_opcode(), None);
    let bit = record("BIT", 2, vec![12], vec![operand("7", true), operand("HL", false)]);
    assert_eq!(bit.to_prefixed(), Some(decode_prefixed(0x7E)));
    let swap = record("SWAP", 2, vec![8], vec![operand("A", true)]);
    assert_eq!(swap.to_prefixed(), Some(decode_prefixed(0x37)));
    assert_eq!(record("BIT", 2, vec![8], vec![operand("A", true)]).to_prefixed(), None);
    let no_bit = record("SET", 2, vec![8], vec![operand("A", true), operand("A", true)]);
    assert_eq!(no_bit.to_prefixed(), None);
    let two = record("SWAP", 2, vec![8], vec![operand("1", true), operand("A", true)]);
    assert_eq!(two.to_prefixed(), None);
    assert_eq!(record("SWAP", 2, vec![8, 8], vec![operand("A", true)]).to_prefixed(), None);
    let odd = record("FOO", 2, vec![8], vec![operand("A", true)]).to_prefixed().unwrap();
    assert_eq!(odd.mnemonic, PrefixOpcodeMnemonics::INVALID);
}

#[test]
fn pages_in_opcode_order() {
    let page = nopre_page();
    assert_eq!(page.find("0x00"), Some(255));
    assert_eq!(page.find("0xFF"), Some(0));
    assert_eq!(page.find("0x100"), None);
    assert_eq!(page.find("0xff"), None);
    let table = page.opcodes().unwrap();
    assert_eq!(table.len(), 256);
    for opcode in 0..=255u8 {
        assert_eq!(table[opcode as usize], decode_opcode(opcode));
    }
    let prefixed = prefixed_page().prefixed_opcodes().unwrap();
    for opcode in 0..=255u8 {
        assert_eq!(prefixed[opcode as usize], decode_prefixed(opcode));
    }
    // the first of two entries under one key counts
    let mut twice = nopre_page();
    twice.0.push(("0x00".to_string(), record("HALT", 1, vec![4], vec![])));
    assert_eq!(twice.opcodes().unwrap()[0].mnemonic, NopreOpcodeMnemonics::NOP);
    // a page with a gap is no table
    let mut gap = nopre_page();
    gap.0.remove(3);
    assert_eq!(gap.opcodes(), Err(Errors::InstructionTable));
    let mut unfit = nopre_page();
    unfit.0[10].1.bytes = 1000;
    assert_eq!(unfit.opcodes(), Err(Errors::InstructionTable));
    assert_eq!(nopre_page().prefixed_opcodes(), Err(Errors::InstructionTable));
    assert_eq!(Instructions(Vec::new()).opcodes(), Err(Errors::InstructionTable));
    // loaded tables drive the processor as the built-in ones do
    let mut cpu = CPU::new();
    assert_eq!(cpu.load_tables(&table, &prefixed), Ok(()));
    let mut bus = Bus::new();
    bus.write_slice(0xC000, &[0x3E, 0x81, 0xCB, 0x37]);
    cpu.reg.pc = 0xC000;
    cpu.step(&mut bus);
    cpu.step(&mut bus);
    assert_eq!(cpu.reg.get_a(), 0x18);
}

#[test]
fn state_log_line() {
    let cpu = CPU::new_doctor();
    let mut bus = Bus::new();
    bus.write_slice(0x0100, &[0x00, 0xC3, 0x13, 0x02]);
    assert_eq!(
        cpu.log_line(&bus),
        "A:01 F:B0 B:00 C:13 D:00 E:D8 H:01 L:4D SP:FFFE PC:0100 PCMEM:00,C3,13,02"
    );
    let mut cpu = CPU::new();
    cpu.reg.pc = 0xFFFE;
    cpu.reg.af = 0xAB50;
    bus.write_byte(0xFFFE, 0x11);
    bus.write_byte(0xFFFF, 0x22);
    bus.write_byte(0x0000, 0x33);
    bus.write_byte(0x0001, 0x44);
    assert_eq!(
        cpu.log_line(&bus),
        "A:AB F:50 B:00 C:00 D:00 E:00 H:00 L:00 SP:0000 PC:FFFE PCMEM:11,22,33,44"
    );
}

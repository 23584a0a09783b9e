use game_boyish::cartridge::Cartridge;
use game_boyish::quartz::{sleep_needed, step_length_nanosec, tick_due, Quartz};
use game_boyish::timer::Timer;
use game_boyish::util::cartridge_util::{
    check_checksum, checked_checksum, CartridgeData, MBCType, MemRange,
};
use game_boyish::util::display_impl::{hex_digit, u8_array_to_individual_char, u8_array_to_string};
use game_boyish::util::opcode_dict_util::{
    NopreOpcodeMnemonics, NopreOperands, PreOperands, PrefixOpcodeMnemonics,
};
use game_boyish::util::tiles_util::{
    from_tile_vec_to_gray_vec, from_u8_gray_to_rgb, tile_fuse_byte, tile_fuse_byte_u8,
    vram_to_screen, vram_to_tile_vec, ScreenVector, TileVector, VRAM_BYTE_SIZE,
};
use game_boyish::windows::game_window::{from_u32_gray_to_rgb, from_u8_rgb};

#[test]
fn quartz_delta_step_test() {
    let timer = Quartz::new();
    println!("tMIEME: {:?}", timer.delta_step);
    assert_eq!(238, timer.delta_step);
}

#[test]
fn timer_delta_step_test() {
    let timer = Timer::new();
    println!("tMIEME: {:?}", timer.delta_step);
    assert_eq!(238, timer.delta_step);
}

#[test]
fn pacing() {
    assert_eq!(step_length_nanosec(4194304), 238);
    assert_eq!(step_length_nanosec(1_000_000_000), 1);
    assert_eq!(step_length_nanosec(3), 333_333_333);
    assert!(tick_due(238, 238));
    assert!(!tick_due(237, 238));
    assert_eq!(sleep_needed(38, 238), 200);
    assert_eq!(sleep_needed(238, 238), 0);
    assert_eq!(sleep_needed(500, 238), 0);
    assert_eq!(sleep_needed(0, u128::MAX), u64::MAX);
    let mut quartz = Quartz::new();
    assert!(quartz.sleep_time() <= 238);
    quartz.next_tick();
    assert_eq!(quartz.delta_step, 238);
    assert_eq!(quartz.frequency, 4194304);
    let _ = quartz.check_next_tick();
    let mut timer = Timer::new();
    assert!(timer.sleep_time() <= 238);
    timer.next_tick();
    let _ = timer.check_next_tick();
}

#[test]
fn u8_array_to_string_test() {
    let text = u8_array_to_string(&[0xE8, 8u8, 0b11, 0xeC]);
    println!("text: {}", text);
    assert_eq!(u8_array_to_string(&[5u8, 8u8]), "05 08");
    assert_eq!(u8_array_to_string(&[0xFF, 8u8]), "FF 08");
    assert_eq!(u8_array_to_string(&[0xFC, 0xA5]), "FC A5");
    assert_eq!(u8_array_to_string(&[0xFF, 9u8]), "FF 09");
    assert_eq!(u8_array_to_string(&[0xff, 9u8]), "FF 09");
}

#[test]
fn text_of_bytes() {
    assert_eq!(u8_array_to_string(&[]), "");
    assert_eq!(u8_array_to_string(&[0x0A]), "0A");
    assert_eq!(u8_array_to_string(&[0xE8, 8u8, 0b11, 0xeC]), "E8 08 03 EC");
    assert_eq!(hex_digit(11), 'B');
    assert_eq!(u8_array_to_individual_char(b"TETRIS"), "TETRIS");
    assert_eq!(u8_array_to_individual_char(b"  SUPER MARIO \n"), "SUPER MARIO");
    assert_eq!(u8_array_to_individual_char(b" \t "), "");
    assert_eq!(u8_array_to_individual_char(&[]), "");
    assert_eq!(u8_array_to_individual_char(&[0x41, 0x00, 0x00]), "A\0\0");
    assert_eq!(u8_array_to_individual_char(&[0xA0, 0xE9, 0x85]), "\u{e9}");
}

#[test]
fn opcode_mnemonics_from_string() {
    assert_eq!(NopreOpcodeMnemonics::NOP, NopreOpcodeMnemonics::from("NOP".to_string()));
    assert_eq!(
        NopreOpcodeMnemonics::INVALID,
        NopreOpcodeMnemonics::from("not a valid mnemonic".to_string())
    );
}

#[test]
fn prefix_opcode_mnemonics_from_string() {
    assert_eq!(PrefixOpcodeMnemonics::BIT, PrefixOpcodeMnemonics::from("BIT".to_string()));
    assert_eq!(
        PrefixOpcodeMnemonics::INVALID,
        PrefixOpcodeMnemonics::from("not a valid mnemonic".to_string())
    );
}

#[test]
fn names_from_strings() {
    assert_eq!(NopreOpcodeMnemonics::from("ILLEGAL_D3".to_string()), NopreOpcodeMnemonics::IllegalD3);
    assert_eq!(NopreOpcodeMnemonics::from("XOR".to_string()), NopreOpcodeMnemonics::XOR);
    assert_eq!(NopreOpcodeMnemonics::from("xor".to_string()), NopreOpcodeMnemonics::INVALID);
    assert_eq!(NopreOpcodeMnemonics::from("".to_string()), NopreOpcodeMnemonics::INVALID);
    assert_eq!(PrefixOpcodeMnemonics::from("SWAP".to_string()), PrefixOpcodeMnemonics::SWAP);
    assert_eq!(PrefixOpcodeMnemonics::from("RL".to_string()), PrefixOpcodeMnemonics::RL);
    assert_eq!(PrefixOpcodeMnemonics::from("RLC".to_string()), PrefixOpcodeMnemonics::RLC);
    assert_eq!(NopreOperands::from("$38".to_string()), NopreOperands::X38);
    assert_eq!(NopreOperands::from("a16".to_string()), NopreOperands::a16);
    assert_eq!(NopreOperands::from("A".to_string()), NopreOperands::A);
    assert_eq!(NopreOperands::from("AF".to_string()), NopreOperands::AF);
    assert_eq!(NopreOperands::from("7".to_string()), NopreOperands::INVALID);
    assert_eq!(PreOperands::from("7".to_string()), PreOperands::N7);
    assert_eq!(PreOperands::from("HL".to_string()), PreOperands::HL);
    assert_eq!(PreOperands::from("SP".to_string()), PreOperands::INVALID);
}

#[test]
fn tile_fuse_byte_test() {
    let h = 0b0110_0000;
    let l = 0b0101_0000;
    let fused = tile_fuse_byte(l, h);
    assert_eq!(fused, vec![0, 3, 2, 1, 0, 0, 0, 0]);
    let h = 0b1010_0001;
    let l = 0b0100_0101;
    let fused = tile_fuse_byte(l, h);
    assert_eq!(fused, vec![2, 1, 2, 0, 0, 1, 0, 3]);
    let mut vec = vec![0, 8];
    vec.extend_from_slice(vec![1, 2, 0].as_slice());
    assert_eq!(vec, vec![0, 8, 1, 2, 0]);
}

#[test]
fn tile_fuse_byte_test2() {
    let vec = vec![0x3C, 0x7E, 0x3C, 0x7E];
    let mut gray_vec: Vec<u32> = vec![];
    for byte_pair in vec.chunks(2) {
        gray_vec.extend_from_slice(&tile_fuse_byte(byte_pair[0], byte_pair[1]));
    }
    assert_eq!(gray_vec, vec![0, 2, 3, 3, 3, 3, 2, 0, 0, 2, 3, 3, 3, 3, 2, 0]);
}

#[test]
fn vram_to_vec_test() {
    let mut vram = vec![0; VRAM_BYTE_SIZE];
    let tile_per_line = 4u8;
    for (i, e) in &mut vram.iter_mut().enumerate() {
        let a = i as u8 % 4;
        *e = a;
    }
    let _tile_vec = vram_to_tile_vec(vram, tile_per_line);
}

#[test]
fn tiles_side_by_side() {
    // two tiles, two to a row: the rows of the tiles stand next to each other
    let mut vram = vec![0u8; 32];
    for (i, byte) in vram.iter_mut().enumerate() {
        *byte = i as u8;
    }
    let tiles = vram_to_tile_vec(vram.clone(), 2);
    assert_eq!(tiles.bytes_per_line, 4);
    assert_eq!(tiles.tile_vec.len(), VRAM_BYTE_SIZE);
    assert_eq!(&tiles.tile_vec[0..8], &[0, 1, 16, 17, 2, 3, 18, 19]);
    assert_eq!(&tiles.tile_vec[28..32], &[14, 15, 30, 31]);
    assert_eq!(tiles.height(), VRAM_BYTE_SIZE / 4);
    assert_eq!(tile_fuse_byte_u8(0b1000_0001, 0b0000_0001), vec![1, 0, 0, 0, 0, 0, 0, 3]);
    let gray = from_tile_vec_to_gray_vec(TileVector::new(vec![0xFF, 0x00, 0x00, 0xFF], 2));
    assert_eq!(gray.width, 8);
    assert_eq!(gray.pixelcolor_vec, vec![1, 1, 1, 1, 1, 1, 1, 1, 2, 2, 2, 2, 2, 2, 2, 2]);
    let screen = vram_to_screen(vec![0xFF, 0xFF, 0xFF, 0x00], 16);
    assert_eq!(screen.width, 128);
    assert_eq!(screen.pixelcolor_vec[0], 0x00FF_FFFF);
    assert_eq!(screen.pixelcolor_vec[128], 0x0055_5555);
    assert_eq!(screen.pixelcolor_vec[8], 0);
}

#[test]
fn colours() {
    assert_eq!(from_u8_gray_to_rgb(0), 0x0000_0000);
    assert_eq!(from_u8_gray_to_rgb(1), 0x0055_5555);
    assert_eq!(from_u8_gray_to_rgb(2), 0x00AA_AAAA);
    assert_eq!(from_u8_gray_to_rgb(3), 0x00FF_FFFF);
    assert_eq!(from_u8_gray_to_rgb(200), 0x00FF_FFFF);
    assert_eq!(from_u32_gray_to_rgb(0x12), 0x0012_1212);
    assert_eq!(from_u32_gray_to_rgb(0x100), 0x0101_0100);
    assert_eq!(from_u8_rgb(0, 127, 255), 0x0000_7FFF);
    assert_eq!(from_u8_rgb(0x12, 0x34, 0x56), 0x0012_3456);
}

#[test]
fn screen_vector() {
    let mut screen = ScreenVector::new_with_screen_size(4, 3);
    assert_eq!(screen.pixelcolor_vec, vec![0u32; 12]);
    assert_eq!(screen.height(), 3);
    screen.set_x_y_gray(1, 2, 2);
    assert_eq!(screen.pixelcolor_vec[9], 0x00AA_AAAA);
    assert_eq!(screen.pixelcolor_vec.iter().filter(|pixel| **pixel != 0).count(), 1);
    let mut indices = ScreenVector::new(vec![0, 1, 2, 3], 2);
    indices.from_gray_vec_to_screen_vec();
    assert_eq!(indices.pixelcolor_vec, vec![0, 0x0055_5555, 0x00AA_AAAA, 0x00FF_FFFF]);
    assert_eq!(indices.width, 2);
}

fn header() -> Vec<u8> {
    let mut rom = vec![0u8; 0x150];
    rom[0x134..0x13A].copy_from_slice(b"TETRIS");
    rom[0x147] = 0x01;
    let mut checksum = 0u8;
    for address in 0x134..=0x14C {
        checksum = checksum.wrapping_sub(rom[address]).wrapping_sub(1);
    }
    rom[0x14D] = checksum;
    rom
}

#[test]
fn cartridge_header() {
    let rom = header();
    assert!(check_checksum(&rom));
    assert_eq!(checked_checksum(&rom), Some(true));
    let mut broken = rom.clone();
    broken[0x134] = b'X';
    assert!(!check_checksum(&broken));
    assert_eq!(checked_checksum(&vec![0u8; 0x14D]), None);
    // an empty header has the checksum 0xE7
    let mut empty = vec![0u8; 0x150];
    assert!(!check_checksum(&empty));
    empty[0x14D] = 0xE7;
    assert!(check_checksum(&empty));
    let data = CartridgeData(rom);
    assert_eq!(data.get_mbc_type(), MBCType::MBC1);
    assert_eq!(data.mbc_type(), Some(MBCType::MBC1));
    assert_eq!(u8_array_to_individual_char(&data.field(&MemRange::title()).unwrap()[0..6]), "TETRIS");
    assert_eq!(data.field(&MemRange::title()).unwrap().len(), 16);
    assert_eq!(data.field(&MemRange::global_checksum()).unwrap(), &[0, 0]);
    assert_eq!(data.field(&MemRange(0x14F, 0x150)), None);
    assert_eq!(data.field(&MemRange(5, 4)), None);
    assert_eq!(MemRange::header_checksum(), MemRange(0x14D, 0x14D));
    assert_eq!(MemRange::nintendo_logo(), MemRange(0x104, 0x133));
    let cartridge = Cartridge::new(data).unwrap();
    assert_eq!(cartridge.mbc_type, MBCType::MBC1);
    assert_eq!(cartridge.data.0.len(), 0x150);
    let mut unknown = header();
    unknown[0x147] = 0x04;
    assert!(Cartridge::new(CartridgeData(unknown)).is_none());
    assert!(Cartridge::new(CartridgeData(vec![0u8; 0x10])).is_none());
}

#[test]
fn cartridge_kinds() {
    assert_eq!(MBCType::from(0x00), MBCType::ROM_ONLY);
    assert_eq!(MBCType::from(0x13), MBCType::MBC3_RAM_BATTERY_2);
    assert_eq!(MBCType::from(0xFF), MBCType::HuC1_RAM_BATTERY);
    assert_eq!(MBCType::try_from_code(0x22), Some(MBCType::MBC7_SENSOR_RUMBLE_RAM_BATTERY));
    assert_eq!(MBCType::try_from_code(0x04), None);
    assert_eq!(MBCType::try_from_code(0x07), None);
    assert_eq!(MBCType::try_from_code(0x21), None);
}

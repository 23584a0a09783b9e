use game_boyish::bus::{Bus, InteruptReg, InteruptType, LCDControlReg, LCDStatusReg, StatInteruptType};
use game_boyish::ppu::{PPUModes, VideoMemBlock};
use game_boyish::util::error_type::Errors;

#[test]
fn test_read() {
    let mut bus = Bus::new();
    bus.data[0x0003] = 0xFF;
    bus.data[0xF003] = 0xFC;
    bus.data[0xFFFF] = 0xFC;
    assert_eq!(bus.read_byte_as_cpu(0x0003), 0xFF);
    assert_eq!(bus.read_byte_as_cpu(0x0001), 0x00);
    // 0xF003 is an echo of 0xD003, which is empty
    assert_eq!(bus.read_byte_as_cpu(0xF003), 0x00);
    assert_eq!(bus.read_byte(0xF003), 0xFC);
    assert_eq!(bus.read_byte_as_cpu(0xFFFF), 0xFC);

    assert_ne!(bus.read_byte_as_cpu(0x0000), 0xA0);
}

#[test]
fn test_write() {
    let mut bus = Bus::new();
    assert_ne!(bus.read_byte_as_cpu(0x0010), 0x12);
    bus.write_byte_as_cpu(0x0010, 0x12);
    assert_eq!(bus.read_byte_as_cpu(0x0010), 0x12);
}

#[test]
fn read_slice() {
    let mut bus = Bus::new();
    bus.write_slice(0x00F0, &[1, 2, 3, 4, 5]);
    assert_eq!(bus.data[0x00F0], 1);
    assert_eq!(bus.data[0x00F1], 2);
    assert_eq!(bus.data[0x00F2], 3);
}

#[test]
fn write_slice() {
    let mut bus = Bus::new();
    bus.write_slice(0x0000, &[1, 2, 3, 4]);
    assert_eq!(bus.data[0x0002], 3);
    bus.write_slice(0xFFFF, &[4]);
    assert_eq!(bus.data[0xFFFF], 4);
}

#[test]
#[should_panic(expected = "Trying to read out of bus memory")]
fn read_slice_panic() {
    let bus = Bus::new();
    if bus.read_bytes_range_checked(0xFFFF, 2).is_none() {
        panic!("Trying to read out of bus memory");
    }
}

#[test]
#[should_panic(expected = "Trying to write out of bus memory")]
fn write_slice_panic() {
    let mut bus = Bus::new();
    if bus.write_slice_checked(0xFFFF, &[1, 2]) == Err(Errors::OutOfBusMemory) {
        panic!("Trying to write out of bus memory");
    }
}

#[test]
fn load_boot_loader() {
    let mut bus = Bus::new();
    let mut rom = vec![0u8; 256];
    rom[0] = 0x31;
    rom[1] = 0xfe;
    rom[2] = 0xff;
    rom[3] = 0xaf;
    rom[4] = 0x21;
    rom[0xFF] = 0x50;
    let _ = bus.load_boot_rom(&rom);
    assert_eq!(bus.read_bytes_range(0x0000, 5), &[0x31, 0xfe, 0xff, 0xaf, 0x21]);
    assert_eq!(bus.read_byte_as_cpu(0x00FF), 0x50);
}

#[test]
fn get_a16_address_test() {
    let mut bus = Bus::new();
    bus.write_slice(0x0010, &[0x00, 0x10, 0x01]);
    assert_eq!(bus.get_a16_address(0x0010), 0x0110);
}

#[test]
fn cpu_lock_test() {
    let mut bus = Bus::new();
    bus.write_slice(0x0010, &[0x00, 0x10, 0x01]);
    assert_eq!(bus.read_byte_as_cpu(0x8000), 0);
    assert_eq!(bus.read_byte_as_cpu(0x9FFF), 0);
    assert_eq!(bus.read_byte_as_cpu(0x9F00), 0);
    bus.lock_vram();
    assert_eq!(bus.read_byte_as_cpu(0x8000), 0xFF);
    assert_eq!(bus.read_byte_as_cpu(0x9FFF), 0xFF);
    assert_eq!(bus.read_byte(0x9FFF), 0);
    assert_eq!(bus.read_byte_as_cpu(0x9F00), 0xFF);
    bus.unlock_vram();
    assert_eq!(bus.read_byte_as_cpu(0x8000), 0);
    assert_eq!(bus.read_byte_as_cpu(0x9FFF), 0);
    assert_eq!(bus.read_byte_as_cpu(0x9F00), 0);
}

#[test]
fn reset_flag_test() {
    let mut bus = Bus::new();
    let mut interupt_reg = InteruptReg::new();
    println!("0xFF0F: {}", bus.read_byte_as_cpu(0xFF0F));
    bus.write_byte_as_cpu(0xFFFF, 0b0000_0001);
    println!("0xFF0F: {}", bus.read_byte_as_cpu(0xFF0F));
    interupt_reg.reset_flag(&mut bus, &InteruptType::VBlank);
    println!("0xFF0F: {}", bus.read_byte_as_cpu(0xFF0F));
    // the three upper bits of the flag register always read as set
    assert_eq!(bus.read_byte_as_cpu(0xFF0F), 0b1110_0000);
    assert_eq!(bus.read_byte(0xFF0F), 0b0000_0000);
}

#[test]
fn locked_writes_are_dropped() {
    let mut bus = Bus::new();
    bus.lock_vram();
    bus.lock_oam();
    bus.write_byte_as_cpu(0x8123, 0x55);
    bus.write_byte_as_cpu(0xFE10, 0x66);
    assert_eq!(bus.read_byte(0x8123), 0);
    assert_eq!(bus.read_byte(0xFE10), 0);
    assert_eq!(bus.read_byte_as_cpu(0xFE10), 0xFF);
    assert_eq!(bus.video_mem_block(), VideoMemBlock::All);
    bus.unlock_vram();
    assert_eq!(bus.video_mem_block(), VideoMemBlock::OAM);
    bus.write_byte_as_cpu(0x8123, 0x55);
    assert_eq!(bus.read_byte_as_cpu(0x8123), 0x55);
    bus.unlock_oam();
    assert_eq!(bus.video_mem_block(), VideoMemBlock::Free);
    bus.write_byte_as_cpu(0xFE10, 0x66);
    assert_eq!(bus.read_byte_as_cpu(0xFE10), 0x66);
    // raw writes pass the locks
    bus.lock_vram();
    bus.write_byte(0x8124, 0x77);
    assert_eq!(bus.read_byte(0x8124), 0x77);
}

#[test]
fn echo_and_unusable_memory() {
    let mut bus = Bus::new();
    bus.write_byte_as_cpu(0xE123, 0x42);
    assert_eq!(bus.read_byte(0xC123), 0x42);
    assert_eq!(bus.read_byte_as_cpu(0xC123), 0x42);
    assert_eq!(bus.read_byte_as_cpu(0xE123), 0x42);
    bus.write_byte_as_cpu(0xDDFF, 0x17);
    assert_eq!(bus.read_byte_as_cpu(0xFDFF), 0x17);
    bus.write_byte_as_cpu(0xFEA0, 0x99);
    assert_eq!(bus.read_byte(0xFEA0), 0);
    assert_eq!(bus.read_byte_as_cpu(0xFEA0), 0xFF);
    assert_eq!(bus.read_byte_as_cpu(0xFEFF), 0xFF);
}

#[test]
fn boot_rom_overlay() {
    let mut bus = Bus::new();
    let mut rom = vec![0u8; 256];
    rom[0] = 0x31;
    rom[0x80] = 0xAB;
    assert_eq!(bus.load_boot_rom(&rom), Ok(()));
    let cart = vec![0x11u8; 0x200];
    assert_eq!(bus.load_cartridge(&cart), Ok(()));
    // the processor sees the boot program, the store holds the cartridge
    assert_eq!(bus.read_byte_as_cpu(0x0000), 0x31);
    assert_eq!(bus.read_byte_as_cpu(0x0080), 0xAB);
    assert_eq!(bus.read_byte(0x0000), 0x11);
    assert_eq!(bus.read_byte_as_cpu(0x0100), 0x11);
    // only the value one switches the overlay off
    bus.write_byte_as_cpu(0xFF50, 0x00);
    assert_eq!(bus.read_byte_as_cpu(0x0000), 0x31);
    bus.write_byte_as_cpu(0xFF50, 0x01);
    assert_eq!(bus.read_byte_as_cpu(0x0000), 0x11);
    assert_eq!(bus.read_byte_as_cpu(0x0080), 0x11);
    // and nothing switches it on again
    bus.write_byte_as_cpu(0xFF50, 0x00);
    assert_eq!(bus.read_byte_as_cpu(0x0000), 0x11);
}

#[test]
fn boot_rom_and_cartridge_sizes() {
    let mut bus = Bus::new();
    assert_eq!(bus.load_boot_rom(&vec![0u8; 255]), Err(Errors::BootRomSize));
    assert_eq!(bus.load_boot_rom(&vec![0u8; 257]), Err(Errors::BootRomSize));
    assert_eq!(bus.load_cartridge(&vec![0u8; 0x8001]), Err(Errors::CartridgeTooLarge));
    assert_eq!(bus.load_cartridge(&vec![7u8; 0x8000]), Ok(()));
    assert_eq!(bus.read_byte(0x7FFF), 7);
    assert_eq!(bus.read_byte(0x8000), 0);
    assert_eq!(bus.write_slice_checked(0xFFFE, &[1, 2]), Ok(()));
    assert_eq!(bus.read_byte(0xFFFF), 2);
    assert!(bus.read_bytes_range_checked(0xFFFE, 2).is_some());
}

#[test]
fn dma_copies_into_object_memory() {
    let mut bus = Bus::new();
    for i in 0..160u16 {
        bus.write_byte(0xC100 + i, (i as u8).wrapping_add(1));
    }
    bus.write_byte(0xC100 + 160, 0xEE);
    bus.write_byte_as_cpu(0xFF46, 0xC1);
    for i in 0..160u16 {
        assert_eq!(bus.read_byte(0xFE00 + i), (i as u8).wrapping_add(1));
    }
    assert_eq!(bus.read_byte(0xFEA0), 0);
    assert_eq!(bus.read_byte(0xFF46), 0xC1);
}

#[test]
fn words_are_little_endian_and_wrap() {
    let mut bus = Bus::new();
    bus.write_2_bytes_little_endian(0xC000, 0x1234);
    assert_eq!(bus.read_byte(0xC000), 0x34);
    assert_eq!(bus.read_byte(0xC001), 0x12);
    assert_eq!(bus.read_2_bytes_little_endian(0xC000), 0x1234);
    bus.write_2_bytes_big_endian(0xC010, 0x1234);
    assert_eq!(bus.read_byte(0xC010), 0x12);
    assert_eq!(bus.read_byte(0xC011), 0x34);
    bus.write_2_bytes_little_endian(0xFFFF, 0xABCD);
    assert_eq!(bus.read_byte(0xFFFF), 0xCD);
    assert_eq!(bus.read_byte(0x0000), 0xAB);
    assert_eq!(bus.read_2_bytes_little_endian(0xFFFF), 0xABCD);
    assert_eq!(bus.read_next_byte(0xFFFF), 0xAB);
    bus.write_next_byte(0xC020, 0x77);
    assert_eq!(bus.read_byte(0xC021), 0x77);
    bus.write_slice(0xC030, &[0x00, 0x40, 0xC0]);
    bus.write_a16(0xC030, 0xBEEF);
    assert_eq!(bus.read_2_bytes_little_endian(0xC040), 0xBEEF);
    assert_eq!(bus.get_a16_value(0xC030), 0xEF);
    assert_eq!(bus.read_a8(0x80), bus.read_byte(0xFF80));
    bus.write_byte(0x34C0, 0x5A);
    assert_eq!(bus.read_2_bytes_from_little_endian_address(0xC034), 0x5A);
}

#[test]
fn io_registers() {
    let mut bus = Bus::new();
    // the line register cannot be written by the processor
    bus.write_byte_as_cpu(0xFF44, 0x33);
    assert_eq!(bus.read_byte_as_cpu(0xFF44), 0);
    bus.write_byte(0xFF44, 0x12);
    assert_eq!(bus.read_byte_as_cpu(0xFF44), 0x12);
    bus.set_doctor(true);
    assert_eq!(bus.read_byte_as_cpu(0xFF44), 0x90);
    bus.set_doctor(false);
    // only the five low bits of the interrupt flags are kept
    bus.write_byte_as_cpu(0xFF0F, 0xFF);
    assert_eq!(bus.read_byte(0xFF0F), 0x1F);
    assert_eq!(bus.read_byte_as_cpu(0xFF0F), 0xFF);
    // the three low bits of the status register are read-only
    bus.write_byte(0xFF41, 0b0000_0101);
    bus.write_byte_as_cpu(0xFF41, 0b1111_1010);
    assert_eq!(bus.read_byte(0xFF41), 0b0111_1101);
    // writing the divider resets it
    bus.timer_div_intern = 0x1234;
    assert_eq!(bus.read_byte_as_cpu(0xFF04), 0x12);
    bus.write_byte_as_cpu(0xFF04, 0x99);
    assert_eq!(bus.timer_div_intern, 0);
    assert_eq!(bus.read_byte_as_cpu(0xFF04), 0);
}

#[test]
fn joypad_rows() {
    let mut bus = Bus::new();
    // right and the A button are held down
    bus.set_joypad(0b0001_0001);
    assert_eq!(bus.read_byte(0xFF0F) & 0x10, 0x10);
    bus.write_byte_as_cpu(0xFF00, 0x20);
    assert_eq!(bus.read_byte_as_cpu(0xFF00), 0xC0 | 0x20 | 0x0E);
    bus.write_byte_as_cpu(0xFF00, 0x30);
    assert_eq!(bus.read_byte_as_cpu(0xFF00), 0xFF);
    bus.write_byte_as_cpu(0xFF00, 0x00);
    assert_eq!(bus.read_byte_as_cpu(0xFF00), 0xC0 | 0x0E);
    // holding the same buttons asks for no new interrupt
    bus.write_byte(0xFF0F, 0);
    bus.set_joypad(0b0001_0001);
    assert_eq!(bus.read_byte(0xFF0F), 0);
}

#[test]
fn interrupt_priority_and_service() {
    let mut bus = Bus::new();
    let mut reg = InteruptReg::new();
    assert_eq!(reg.query_interupts_flag(&bus), None);
    reg.request(&mut bus, &InteruptType::Timer);
    reg.request(&mut bus, &InteruptType::Joypad);
    assert_eq!(bus.read_byte(0xFF0F), 0b1_0100);
    assert_eq!(reg.query_interupts_flag(&bus), Some(InteruptType::Timer));
    assert_eq!(reg.pending(&bus), 0);
    assert_eq!(reg.query_interupts_flag_enable(&bus), None);
    assert_eq!(reg.service(&mut bus), None);
    bus.write_byte_as_cpu(0xFFFF, 0b1_0000);
    assert_eq!(reg.pending(&bus), 0b1_0000);
    assert_eq!(reg.highest_pending(&bus), Some(InteruptType::Joypad));
    assert_eq!(reg.query_interupts_flag_enable(&bus), Some(InteruptType::Joypad));
    assert_eq!(reg.service(&mut bus), Some(0x0060));
    assert_eq!(bus.read_byte(0xFF0F), 0b0_0100);
    bus.write_byte_as_cpu(0xFFFF, 0xFF);
    assert_eq!(reg.service(&mut bus), Some(0x0050));
    assert_eq!(reg.service(&mut bus), None);
    assert!(reg.is_vblank_enable(&bus) && reg.is_lcd_enable(&bus) && reg.is_timer_enable(&bus));
    assert!(reg.is_serial_enable(&bus) && reg.is_joypad_enable(&bus));
    reg.set_vblank_flag(&mut bus, true);
    reg.set_lcd_flag(&mut bus, true);
    reg.set_serial_flag(&mut bus, true);
    assert!(reg.get_vblank_flag(&bus) && reg.get_lcd_flag(&bus) && reg.get_serial_flag(&bus));
    assert!(!reg.get_timer_flag(&bus) && !reg.get_joypad_flag(&bus));
    reg.set_timer_flag(&mut bus, true);
    reg.set_joypad_flag(&mut bus, true);
    assert_eq!(reg.get_interupt_flag(&bus), 0xFF);
    assert_eq!(reg.get_interupt_enable(&bus), 0xFF);
    assert_eq!(InteruptType::from(0), InteruptType::VBlank);
    assert_eq!(InteruptType::from(4), InteruptType::Joypad);
    assert_eq!(InteruptType::LCD.vector(), 0x48);
    assert_eq!(InteruptType::Serial.bit(), 3);
}

#[test]
fn status_and_control_registers() {
    let mut bus = Bus::new();
    let mut status = LCDStatusReg::new();
    let control = LCDControlReg::new();
    status.set_ppu_mode(&mut bus, &PPUModes::Mode3);
    assert_eq!(bus.read_byte(0xFF41) & 3, 3);
    assert_eq!(status.get_ppu_mode(&bus), PPUModes::Mode3);
    status.set_ppu_mode(&mut bus, &PPUModes::Mode1);
    assert_eq!(status.get_ppu_mode(&bus), PPUModes::Mode1);
    status.set_lyc_ly(&mut bus, true);
    assert_eq!(bus.read_byte(0xFF41), 0b101);
    assert!(matches!(status.get_stat_mode(&bus), StatInteruptType::Off));
    bus.write_byte(0xFF41, 0b0110_0000);
    assert!(matches!(status.get_stat_mode(&bus), StatInteruptType::Mode2));
    bus.write_byte(0xFF41, 0b0100_1000);
    assert!(matches!(status.get_stat_mode(&bus), StatInteruptType::Mode0));
    bus.write_byte(0xFF45, 0x42);
    assert_eq!(status.get_lyc(&bus), 0x42);
    bus.write_byte(0xFF40, 0b1010_0101);
    assert!(control.lcd_ppu_enable(&bus));
    assert!(!control.win_tile_map(&bus));
    assert!(control.win_enable(&bus));
    assert!(!control.bg_win_tiles(&bus));
    assert!(!control.bg_tile_map(&bus));
    assert!(control.obj_size(&bus));
    assert!(!control.obj_enable(&bus));
    assert!(control.bg_win_enable_priority(&bus));
}

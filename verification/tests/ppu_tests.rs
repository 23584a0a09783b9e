use game_boyish::bus::Bus;
use game_boyish::emulator::{Emulator, EmulatorState};
use game_boyish::mem::vram::VRAM;
use game_boyish::ppu::{row_pixel, shade_of, PPUModes, PPU};
use game_boyish::timer_reg::TimerReg;

fn lcd_on() -> (PPU, Bus) {
    let mut bus = Bus::new();
    bus.write_byte(0xFF40, 0x80);
    (PPU::new(), bus)
}

#[test]
fn insert_obj_vec_into_line_pixels_test() {
    let mut ppu = PPU::new();
    let vec = vec![1u8, 3, 2, 3, 1, 1, 0, 0];
    ppu.insert_gray_vec_into_line_pixels(&vec, 0);
    assert_eq!(ppu.line_pixels[0], 1);
    assert_eq!(ppu.line_pixels[1], 3);
    assert_eq!(ppu.line_pixels[2], 2);
    assert_eq!(ppu.line_pixels[3], 3);
    ppu.insert_gray_vec_into_line_pixels(&vec, 158);
    assert_eq!(ppu.line_pixels[158], 1);
    assert_eq!(ppu.line_pixels[159], 3);
}

#[test]
fn mode_sweep() {
    let (mut ppu, mut bus) = lcd_on();
    assert_eq!(ppu.current_mode, PPUModes::Mode2);
    for _ in 0..79 {
        ppu.next_tick(&mut bus);
    }
    assert_eq!(ppu.current_mode, PPUModes::Mode2);
    ppu.next_tick(&mut bus);
    assert_eq!(ppu.dots_counter_frame, 80);
    assert_eq!(ppu.current_mode, PPUModes::Mode3);
    assert_eq!(bus.read_byte(0xFF41) & 3, 3);
    for _ in 0..172 {
        ppu.next_tick(&mut bus);
    }
    assert_eq!(ppu.dots_counter_frame, 80 + 172);
    assert_eq!(ppu.current_mode, PPUModes::Mode0);
    for _ in 0..(456 - 252) {
        ppu.next_tick(&mut bus);
    }
    assert_eq!(ppu.dots_counter_frame, 456);
    assert_eq!(ppu.ly, 1);
    assert_eq!(bus.read_byte(0xFF44), 1);
    assert_eq!(ppu.current_mode, PPUModes::Mode2);
    assert_eq!(bus.read_byte(0xFF0F) & 1, 0);
    for _ in 0..(143 * 456 - 1) {
        ppu.next_tick(&mut bus);
    }
    assert_eq!(ppu.current_mode, PPUModes::Mode0);
    assert_eq!(bus.read_byte(0xFF0F) & 1, 0);
    ppu.next_tick(&mut bus);
    assert_eq!(ppu.dots_counter_frame, 144 * 456);
    assert_eq!(ppu.ly, 144);
    assert_eq!(ppu.current_mode, PPUModes::Mode1);
    assert_eq!(bus.read_byte(0xFF0F) & 1, 1);
}

#[test]
fn frame_counter_and_line_register_sweep() {
    let (mut ppu, mut bus) = lcd_on();
    let mut vblanks = 0;
    for tick in 1..=70224usize {
        bus.write_byte(0xFF0F, 0);
        ppu.next_tick(&mut bus);
        let position = tick % 70224;
        assert_eq!(ppu.dots_counter_frame, position);
        assert_eq!(ppu.dots_counter_line, position % 456);
        let line = position / 456;
        let dot = position % 456;
        let expected_ly = if line == 153 && dot >= 4 { 0 } else { line as u8 };
        assert_eq!(bus.read_byte(0xFF44), expected_ly);
        let expected_mode = if line >= 144 {
            PPUModes::Mode1
        } else if dot < 80 {
            PPUModes::Mode2
        } else if dot < 252 {
            PPUModes::Mode3
        } else {
            PPUModes::Mode0
        };
        assert_eq!(ppu.current_mode, expected_mode);
        if bus.read_byte(0xFF0F) & 1 == 1 {
            vblanks += 1;
            assert_eq!(position, 144 * 456);
        }
    }
    assert_eq!(vblanks, 1);
    assert_eq!(ppu.dots_counter_frame, 0);
    assert_eq!(ppu.current_mode, PPUModes::Mode2);
}

#[test]
fn locks_follow_the_modes() {
    let (mut ppu, mut bus) = lcd_on();
    for _ in 0..456 {
        ppu.next_tick(&mut bus);
    }
    // mode 2 of line 1
    assert!(bus.oam_lock && !bus.vram_lock);
    for _ in 0..80 {
        ppu.next_tick(&mut bus);
    }
    assert!(bus.oam_lock && bus.vram_lock);
    assert_eq!(bus.read_byte_as_cpu(0x8000), 0xFF);
    for _ in 0..172 {
        ppu.next_tick(&mut bus);
    }
    assert!(!bus.oam_lock && !bus.vram_lock);
}

#[test]
fn status_interrupt_on_rising_edge_only() {
    let (mut ppu, mut bus) = lcd_on();
    // select mode 0 as a source
    bus.write_byte(0xFF41, 0b0000_1000);
    for _ in 0..251 {
        ppu.next_tick(&mut bus);
    }
    assert_eq!(bus.read_byte(0xFF0F) & 2, 0);
    ppu.next_tick(&mut bus);
    assert_eq!(ppu.current_mode, PPUModes::Mode0);
    assert_eq!(bus.read_byte(0xFF0F) & 2, 2);
    // the line stays high through mode 0 and asks no second time
    bus.write_byte(0xFF0F, 0);
    for _ in 0..100 {
        ppu.next_tick(&mut bus);
    }
    assert_eq!(bus.read_byte(0xFF0F) & 2, 0);
    // line compare
    let (mut ppu, mut bus) = lcd_on();
    bus.write_byte(0xFF41, 0b0100_0000);
    bus.write_byte(0xFF45, 2);
    for _ in 0..(2 * 456 - 1) {
        ppu.next_tick(&mut bus);
    }
    assert_eq!(bus.read_byte(0xFF0F) & 2, 0);
    assert_eq!(bus.read_byte(0xFF41) & 4, 0);
    ppu.next_tick(&mut bus);
    assert_eq!(bus.read_byte(0xFF41) & 4, 4);
    assert_eq!(bus.read_byte(0xFF0F) & 2, 2);
}

#[test]
fn switching_the_display_off_resets_the_unit() {
    let (mut ppu, mut bus) = lcd_on();
    for _ in 0..1000 {
        ppu.next_tick(&mut bus);
    }
    assert_eq!(ppu.ly, 2);
    bus.write_byte(0xFF40, 0x00);
    ppu.next_tick(&mut bus);
    assert_eq!(ppu.ly, 0);
    assert_eq!(bus.read_byte(0xFF44), 0);
    assert_eq!(ppu.current_mode, PPUModes::Mode0);
    assert_eq!(bus.read_byte(0xFF41) & 3, 0);
    assert!(!bus.oam_lock && !bus.vram_lock);
    assert!(ppu.screen_array.pixelcolor_vec.iter().all(|pixel| *pixel == 0x00FF_FFFF));
    ppu.next_tick(&mut bus);
    assert_eq!(ppu.dots_counter_frame, 0);
    // switched on again the frame starts over
    bus.write_byte(0xFF40, 0x80);
    ppu.next_tick(&mut bus);
    assert_eq!(ppu.dots_counter_frame, 0);
    assert_eq!(ppu.current_mode, PPUModes::Mode2);
    assert!(bus.oam_lock);
    ppu.next_tick(&mut bus);
    assert_eq!(ppu.dots_counter_frame, 1);
}

fn solid_tile(bus: &mut Bus, tile: u16, low: u8, high: u8) {
    for row in 0..8u16 {
        bus.write_byte(0x8000 + tile * 16 + row * 2, low);
        bus.write_byte(0x8000 + tile * 16 + row * 2 + 1, high);
    }
}

fn run_line(ppu: &mut PPU, bus: &mut Bus) {
    // from the off state one cycle reaches the first dot of the frame
    bus.write_byte(0xFF40, bus.read_byte(0xFF40) & 0x7F);
    ppu.next_tick(bus);
    bus.write_byte(0xFF40, bus.read_byte(0xFF40) | 0x80);
    ppu.next_tick(bus);
}

#[test]
fn background_with_scroll_and_palette() {
    let mut bus = Bus::new();
    let mut ppu = PPU::new();
    // tile 1 has colour 1 in its left half and colour 2 in its right half
    solid_tile(&mut bus, 1, 0xF0, 0x0F);
    solid_tile(&mut bus, 2, 0xFF, 0xFF);
    bus.write_byte(0x9800, 1);
    bus.write_byte(0x9801, 2);
    bus.write_byte(0xFF40, 0b1001_0001);
    bus.write_byte(0xFF47, 0b1110_0100);
    run_line(&mut ppu, &mut bus);
    assert_eq!(&ppu.line_pixels[0..10], &[1, 1, 1, 1, 2, 2, 2, 2, 3, 3]);
    assert_eq!(ppu.line_pixels[16], 0);
    // scrolled by three pixels
    bus.write_byte(0xFF43, 3);
    run_line(&mut ppu, &mut bus);
    assert_eq!(&ppu.line_pixels[0..7], &[1, 2, 2, 2, 2, 3, 3]);
    // scrolled so that the picture wraps around
    bus.write_byte(0xFF43, 252);
    run_line(&mut ppu, &mut bus);
    assert_eq!(&ppu.line_pixels[0..6], &[0, 0, 0, 0, 1, 1]);
    // another palette
    bus.write_byte(0xFF43, 0);
    bus.write_byte(0xFF47, 0b0001_1011);
    run_line(&mut ppu, &mut bus);
    assert_eq!(&ppu.line_pixels[0..10], &[2, 2, 2, 2, 1, 1, 1, 1, 0, 0]);
    assert_eq!(ppu.line_pixels[16], 3);
    // the signed tile numbering counts from 0x9000
    bus.write_byte(0xFF47, 0b1110_0100);
    bus.write_byte(0xFF40, 0b1000_0001);
    for row in 0..8u16 {
        bus.write_byte(0x9000 + 16 + row * 2, 0xFF);
        bus.write_byte(0x9000 + 16 + row * 2 + 1, 0x00);
    }
    run_line(&mut ppu, &mut bus);
    assert_eq!(&ppu.line_pixels[0..8], &[1, 1, 1, 1, 1, 1, 1, 1]);
    // background and window switched off
    bus.write_byte(0xFF40, 0b1001_0000);
    run_line(&mut ppu, &mut bus);
    assert!(ppu.line_pixels.iter().all(|shade| *shade == 0));
}

#[test]
fn window_covers_the_background() {
    let mut bus = Bus::new();
    let mut ppu = PPU::new();
    solid_tile(&mut bus, 1, 0xFF, 0x00);
    solid_tile(&mut bus, 2, 0x00, 0xFF);
    for i in 0..32u16 {
        bus.write_byte(0x9800 + i, 1);
        bus.write_byte(0x9C00 + i, 2);
    }
    bus.write_byte(0xFF47, 0b1110_0100);
    // window on, its map at 0x9C00, its left edge at column 80
    bus.write_byte(0xFF40, 0b1111_0001);
    bus.write_byte(0xFF4A, 0);
    bus.write_byte(0xFF4B, 87);
    run_line(&mut ppu, &mut bus);
    assert_eq!(ppu.line_pixels[0], 1);
    assert_eq!(ppu.line_pixels[79], 1);
    assert_eq!(ppu.line_pixels[80], 2);
    assert_eq!(ppu.line_pixels[159], 2);
    assert_eq!(ppu.window_line, 1);
    // below the window's top line nothing of it shows
    bus.write_byte(0xFF4A, 5);
    run_line(&mut ppu, &mut bus);
    assert_eq!(ppu.line_pixels[80], 1);
    assert_eq!(ppu.window_line, 0);
}

#[test]
fn sprites_priority_and_transparency() {
    let mut bus = Bus::new();
    let mut ppu = PPU::new();
    // tile 1: colour 1 everywhere; tile 2: colour 3 in the left half, see-through right
    solid_tile(&mut bus, 1, 0xFF, 0x00);
    solid_tile(&mut bus, 2, 0xF0, 0xF0);
    bus.write_byte(0xFF40, 0b1001_0011);
    bus.write_byte(0xFF47, 0b1110_0100);
    bus.write_byte(0xFF48, 0b1110_0100);
    bus.write_byte(0xFF49, 0b0001_1011);
    // object 0 at column 4 with tile 1, object 1 at column 0 with tile 2
    bus.write_slice(0xFE00, &[16, 12, 1, 0x00]);
    bus.write_slice(0xFE04, &[16, 8, 2, 0x10]);
    run_line(&mut ppu, &mut bus);
    // object 1 is further left and wins where it is not see-through
    assert_eq!(&ppu.line_pixels[0..4], &[0, 0, 0, 0]);
    assert_eq!(&ppu.line_pixels[4..12], &[1, 1, 1, 1, 1, 1, 1, 1]);
    assert_eq!(ppu.line_pixels[12], 0);
    // flipped, object 1 shows its colour in columns 4 to 7
    bus.write_byte(0xFE07, 0x30);
    run_line(&mut ppu, &mut bus);
    assert_eq!(&ppu.line_pixels[0..4], &[0, 0, 0, 0]);
    assert_eq!(&ppu.line_pixels[4..8], &[0, 0, 0, 0]);
    assert_eq!(&ppu.line_pixels[8..12], &[1, 1, 1, 1]);
    // objects switched off
    bus.write_byte(0xFF40, 0b1001_0001);
    run_line(&mut ppu, &mut bus);
    assert!(ppu.line_pixels.iter().all(|shade| *shade == 0));
    // behind a background that is not of colour zero the object hides
    bus.write_byte(0xFF40, 0b1001_0011);
    bus.write_byte(0xFE03, 0x80);
    bus.write_byte(0xFE04, 0);
    bus.write_byte(0x9800, 1);
    bus.write_byte(0x9801, 0);
    run_line(&mut ppu, &mut bus);
    assert_eq!(&ppu.line_pixels[4..8], &[1, 1, 1, 1]);
    assert_eq!(&ppu.line_pixels[8..12], &[1, 1, 1, 1]);
    bus.write_byte(0xFF47, 0b1110_0000);
    run_line(&mut ppu, &mut bus);
    assert_eq!(&ppu.line_pixels[4..8], &[0, 0, 0, 0]);
}

#[test]
fn at_most_ten_objects_on_a_line() {
    let mut bus = Bus::new();
    let mut ppu = PPU::new();
    solid_tile(&mut bus, 1, 0xFF, 0x00);
    bus.write_byte(0xFF40, 0b1001_0011);
    bus.write_byte(0xFF48, 0b1110_0100);
    for i in 0..11u16 {
        bus.write_slice(0xFE00 + i * 4, &[16, 8 + 8 * i as u8, 1, 0]);
    }
    run_line(&mut ppu, &mut bus);
    assert_eq!(ppu.line_pixels[79], 1);
    assert_eq!(ppu.line_pixels[80], 0);
    // tall objects take two tiles
    bus.write_byte(0xFF40, 0b1001_0111);
    solid_tile(&mut bus, 3, 0x00, 0xFF);
    bus.write_slice(0xFE00, &[8, 8, 2, 0]);
    run_line(&mut ppu, &mut bus);
    assert_eq!(ppu.line_pixels[0], 2);
}

#[test]
fn finished_lines_reach_the_screen() {
    let mut bus = Bus::new();
    let mut ppu = PPU::new();
    solid_tile(&mut bus, 1, 0xFF, 0xFF);
    bus.write_byte(0x9800, 1);
    bus.write_byte(0xFF40, 0b1001_0001);
    bus.write_byte(0xFF47, 0b1110_0100);
    run_line(&mut ppu, &mut bus);
    assert_eq!(ppu.screen_array.pixelcolor_vec[0], 0x00FF_FFFF);
    for _ in 0..252 {
        ppu.next_tick(&mut bus);
    }
    // shade three is black, shade zero white
    assert_eq!(ppu.screen_array.pixelcolor_vec[0], 0x0000_0000);
    assert_eq!(ppu.screen_array.pixelcolor_vec[7], 0x0000_0000);
    assert_eq!(ppu.screen_array.pixelcolor_vec[8], 0x00FF_FFFF);
    assert_eq!(ppu.screen_array.pixelcolor_vec[160], 0x00FF_FFFF);
    assert_eq!(ppu.screen_array.width, 160);
    assert_eq!(ppu.screen_array.height(), 144);
}

#[test]
fn palettes_and_tile_rows() {
    assert_eq!(shade_of(0b1110_0100, 0), 0);
    assert_eq!(shade_of(0b1110_0100, 1), 1);
    assert_eq!(shade_of(0b1110_0100, 2), 2);
    assert_eq!(shade_of(0b1110_0100, 3), 3);
    assert_eq!(shade_of(0b0001_1011, 0), 3);
    assert_eq!(shade_of(0b0001_1011, 3), 0);
    assert_eq!(row_pixel(0b1000_0000, 0b0000_0001, 0), 1);
    assert_eq!(row_pixel(0b1000_0000, 0b0000_0001, 7), 2);
    assert_eq!(row_pixel(0b0001_0000, 0b0001_0000, 3), 3);
}

#[test]
fn video_memory_handle() {
    let mut bus = Bus::new();
    let mut vram = VRAM::new();
    bus.write_byte(0xFF42, 7);
    bus.write_byte(0xFF43, 9);
    bus.write_byte(0xFF4A, 11);
    bus.write_byte(0xFF4B, 13);
    assert_eq!(vram.get_background(&bus), (9, 7));
    let window = vram.get_window(&bus);
    assert_eq!((window.wy, window.wx), (11, 13));
    vram.set_ly(&mut bus, 77);
    assert_eq!(vram.get_ly(&bus), 77);
    bus.write_slice(0xFE00 + 39 * 4, &[1, 2, 3, 0b1011_0000]);
    let sprites = vram.get_oam_sprites_vec(&bus);
    assert_eq!(sprites.len(), 40);
    assert_eq!((sprites[39].y, sprites[39].x, sprites[39].tile_number), (1, 2, 3));
    assert!(sprites[39].render_priority() && !sprites[39].y_flip());
    assert!(sprites[39].x_flip() && sprites[39].palette_number());
    bus.write_byte(0x9800 + 5, 0x80);
    bus.write_byte(0x9C00 + 5, 0x7F);
    bus.write_byte(0x8800 + 4, 0xAA);
    bus.write_byte(0x8800 + 5, 0xBB);
    bus.write_byte(0x97F0 + 4, 0xCC);
    bus.write_byte(0x97F0 + 5, 0xDD);
    bus.write_byte(0x8000 + 0x7F * 16 + 4, 0x11);
    bus.write_byte(0x8000 + 0x7F * 16 + 5, 0x22);
    assert_eq!(vram.get_background_tile_line(&bus, 2, 5), (0xAA, 0xBB));
    assert_eq!(vram.get_tile_x_line_2bytes(&bus, 0x9C05, 2), (0xCC, 0xDD));
    bus.write_byte(0xFF40, 0b0101_1000);
    assert_eq!(vram.get_background_tile_line(&bus, 2, 5), (0x11, 0x22));
    assert_eq!(vram.get_window_tile_line(&bus, 2, 5), (0x11, 0x22));
    assert_eq!(vram.get_tile_line(&bus, 2, 0x7F, false), (0x11, 0x22));
    assert_eq!(vram.get_tile_line(&bus, 10, 0x7E, true), (0x11, 0x22));
    assert_eq!(vram.bg_tile_map_vec(&bus)[5], 0x7F);
    assert_eq!(vram.win_tile_map_vec(&bus)[5], 0x7F);
    assert_eq!(vram.win_tile_map_vec(&bus).len(), 1024);
    assert_eq!(vram.bg_win_tile_memory_vec(&bus).len(), 4096);
    assert_eq!(vram.bg_win_tile_memory_vec(&bus)[0x7F * 16 + 4], 0x11);
    vram.lock_oam(&mut bus);
    vram.lock_vram(&mut bus);
    assert!(bus.oam_lock && bus.vram_lock);
    vram.unlock_oam(&mut bus);
    vram.unlock_vram(&mut bus);
    assert!(!bus.oam_lock && !bus.vram_lock);
}

#[test]
fn timer_counts_every_1024_cycles() {
    let mut bus = Bus::new();
    let mut timer = TimerReg::new();
    bus.write_byte(0xFF07, 0b100);
    for _ in 0..1023 {
        timer.next_tick(&mut bus);
    }
    assert_eq!(timer.get_tima_ff05(&bus), 0);
    timer.next_tick(&mut bus);
    assert_eq!(timer.get_tima_ff05(&bus), 1);
    assert_eq!(timer.get_div_ff04(&bus), 4);
    assert_eq!(bus.read_byte_as_cpu(0xFF04), 4);
    for _ in 0..1024 {
        timer.next_tick(&mut bus);
    }
    assert_eq!(timer.get_tima_ff05(&bus), 2);
    // switched off the counter stands still
    bus.write_byte(0xFF07, 0b000);
    for _ in 0..2048 {
        timer.next_tick(&mut bus);
    }
    assert_eq!(timer.get_tima_ff05(&bus), 2);
    assert_eq!(timer.get_tac_ff07(&bus), 0);
}

#[test]
fn timer_rates() {
    for (tac, period) in [(0b101u8, 16u32), (0b110, 64), (0b111, 256), (0b100, 1024)] {
        let mut bus = Bus::new();
        let mut timer = TimerReg::new();
        bus.write_byte(0xFF07, tac);
        for _ in 0..(period * 3) {
            timer.next_tick(&mut bus);
        }
        assert_eq!(timer.get_tima_ff05(&bus), 3);
    }
}

#[test]
fn writing_the_divider_restarts_the_period() {
    let mut bus = Bus::new();
    let mut timer = TimerReg::new();
    bus.write_byte(0xFF07, 0b100);
    for _ in 0..1000 {
        timer.next_tick(&mut bus);
    }
    bus.write_byte_as_cpu(0xFF04, 0x5A);
    assert_eq!(bus.read_byte_as_cpu(0xFF04), 0);
    for _ in 0..1023 {
        timer.next_tick(&mut bus);
    }
    assert_eq!(timer.get_tima_ff05(&bus), 0);
    timer.next_tick(&mut bus);
    assert_eq!(timer.get_tima_ff05(&bus), 1);
}

#[test]
fn timer_overflow_reloads_and_interrupts_once() {
    let mut bus = Bus::new();
    let mut timer = TimerReg::new();
    bus.write_byte(0xFF07, 0b101);
    bus.write_byte(0xFF06, 0xF0);
    bus.write_byte(0xFF05, 0xFF);
    for _ in 0..16 {
        timer.next_tick(&mut bus);
    }
    assert_eq!(timer.get_tima_ff05(&bus), 0);
    assert_eq!(timer.get_tma_ff06(&bus), 0xF0);
    assert_eq!(bus.read_byte(0xFF0F), 0);
    for _ in 0..3 {
        timer.next_tick(&mut bus);
        assert_eq!(timer.get_tima_ff05(&bus), 0);
        assert_eq!(bus.read_byte(0xFF0F), 0);
    }
    timer.next_tick(&mut bus);
    assert_eq!(timer.get_tima_ff05(&bus), 0xF0);
    assert_eq!(bus.read_byte(0xFF0F), 0b100);
    bus.write_byte(0xFF0F, 0);
    for _ in 0..200 {
        timer.next_tick(&mut bus);
    }
    assert_eq!(bus.read_byte(0xFF0F), 0);
    // a write to the counter while the reload waits cancels the reload
    let mut bus = Bus::new();
    bus.write_byte(0xFF07, 0b101);
    bus.write_byte(0xFF06, 0xF0);
    bus.write_byte(0xFF05, 0xFF);
    for _ in 0..17 {
        timer.next_tick(&mut bus);
    }
    bus.write_byte_as_cpu(0xFF05, 0x20);
    for _ in 0..10 {
        timer.next_tick(&mut bus);
    }
    assert_eq!(timer.get_tima_ff05(&bus), 0x20);
    assert_eq!(bus.read_byte(0xFF0F), 0);
}

#[test]
fn scheduler_runs_timer_pixel_unit_and_processor() {
    let mut emu = Emulator::new();
    // INC A ; JR -3
    emu.bus.write_slice(0xC000, &[0x3C, 0x18, 0xFD]);
    emu.bus.write_byte(0xFF40, 0x80);
    emu.cpu.reg.pc = 0xC000;
    assert_eq!(emu.run_cycles(100), 0);
    emu.start();
    assert!(emu.state == EmulatorState::Running);
    assert_eq!(emu.run_cycles(16), 16);
    assert_eq!(emu.cycles, 16);
    assert_eq!(emu.bus.timer_div_intern, 16);
    assert_eq!(emu.ppu.dots_counter_frame, 16);
    assert_eq!(emu.cpu.reg.get_a(), 1);
    assert_eq!(emu.cpu.reg.pc, 0xC000);
    emu.update_emulator_state();
    assert_eq!(emu.cpu.reg.get_a(), 2);
    assert!(!emu.frame_ready());
    emu.run_cycles(144 * 456 - 17);
    assert!(emu.frame_ready());
    assert!(emu.ppu.frame_ready());
    assert_eq!(emu.ppu.dots_counter_frame, 144 * 456);
    emu.run_cycles(1);
    assert!(!emu.frame_ready());
    emu.run_cycles(10 * 456 - 1);
    assert_eq!(emu.ppu.dots_counter_frame, 0);
    assert_eq!(emu.cycles, 70224);
    emu.pause_resume();
    assert!(emu.state == EmulatorState::Paused);
    emu.pause_resume();
    assert!(emu.state == EmulatorState::Running);
    emu.stop();
    emu.pause_resume();
    assert!(emu.state == EmulatorState::Stopped);
    assert_eq!(emu.run_cycles(5), 0);
}

#[test]
fn a_pixel_unit_out_of_step_is_not_run() {
    let mut emu = Emulator::new();
    assert!(emu.ppu.is_well_formed());
    assert!(emu.try_update());
    assert_eq!(emu.cycles, 1);
    assert!(emu.ppu.is_well_formed());
    emu.ppu.dots_counter_line = 17;
    assert!(!emu.ppu.is_well_formed());
    assert!(!emu.try_update());
    assert_eq!(emu.cycles, 1);
    let mut ppu = PPU::new();
    ppu.current_mode = PPUModes::Mode3;
    assert!(!ppu.is_well_formed());
    let mut ppu = PPU::new();
    ppu.screen_array.pixelcolor_vec.pop();
    assert!(!ppu.is_well_formed());
    let (mut ppu, mut bus) = lcd_on();
    for _ in 0..1000 {
        ppu.next_tick(&mut bus);
        assert!(ppu.is_well_formed());
    }
}

use crate::bus::{
    Bus, BusView, LCDControlReg, OAMSprite, WindowReg, LCDC, LY, OAM_START, SCX, SCY, WX, WY,
};
use crate::util::u8_traits::byte_bit;
use vstd::prelude::*;
use vstd::slice::slice_to_vec;

verus! {

/// Where the data of the tile with the given number starts, for the
/// background and the window: counted up from 0x8000 when bit 4 of the
/// control register is set, else from 0x9000 with the number read as a
/// signed byte.
pub open spec fn tile_data_address(bus: BusView, tile_id: u8) -> u16 {
    if byte_bit(bus.read(LCDC), 4) {
        (0x8000 + tile_id * 16) as u16
    } else if tile_id < 128 {
        (0x9000 + tile_id * 16) as u16
    } else {
        (0x8800 + (tile_id - 128) * 16) as u16
    }
}

/// The two bytes of row `line` of the tile whose data starts at `address`.
pub open spec fn tile_row(bus: BusView, address: u16, line: u8) -> (u8, u8) {
    (bus.mem[address + 2 * line], bus.mem[address + 2 * line + 1])
}

/// The two bytes of row `line` of the tile whose number stands at
/// `tile_id_address`.
pub open spec fn tile_row_by_id(bus: BusView, tile_id_address: u16, line: u8) -> (u8, u8) {
    tile_row(bus, tile_data_address(bus, bus.read(tile_id_address)), line)
}

/// Where the tile map of the background starts.
pub open spec fn bg_map_base(bus: BusView) -> u16 {
    if byte_bit(bus.read(LCDC), 3) {
        0x9C00
    } else {
        0x9800
    }
}

/// Where the tile map of the window starts.
pub open spec fn win_map_base(bus: BusView) -> u16 {
    if byte_bit(bus.read(LCDC), 6) {
        0x9C00
    } else {
        0x9800
    }
}

/// The number of the tile that holds row `y_offset` of an object, and the
/// row within that tile: a tall object takes two tiles, the even one on top.
pub open spec fn object_tile(tile_number: u8, y_offset: u8, size_16bit: bool) -> (u8, u8) {
    if size_16bit {
        if y_offset > 7 {
            (((tile_number / 2) * 2 + 1) as u8, (y_offset - 8) as u8)
        } else {
            (((tile_number / 2) * 2) as u8, y_offset)
        }
    } else {
        (tile_number, y_offset)
    }
}

/// The two bytes of row `y_offset` of an object; object tiles are always
/// counted up from 0x8000.
pub open spec fn object_row(bus: BusView, y_offset: u8, tile_number: u8, size_16bit: bool) -> (
    u8,
    u8,
) {
    let at = object_tile(tile_number, y_offset, size_16bit);
    tile_row(bus, (0x8000 + at.0 * 16) as u16, at.1)
}

/// Entry `index` of object memory.
pub open spec fn sprite_at(bus: BusView, index: int) -> OAMSprite {
    OAMSprite {
        y: bus.mem[0xFE00 + index * 4],
        x: bus.mem[0xFE00 + index * 4 + 1],
        tile_number: bus.mem[0xFE00 + index * 4 + 2],
        flags: bus.mem[0xFE00 + index * 4 + 3],
    }
}

/// What the pixel unit reaches of the bus: tile data, tile maps, object
/// memory and its registers. It reads and writes past the locks.
pub struct VRAM {}

impl VRAM {
    pub fn new() -> VRAM {
        VRAM {  }
    }

    /// The scroll of the background: (scx, scy).
    pub fn get_background(&self, bus: &Bus) -> (scroll: (u8, u8))
        ensures
            scroll == (bus@.read(SCX), bus@.read(SCY)),
    {
        (bus.read_byte(0xFF43), bus.read_byte(0xFF42))
    }

    pub fn get_window(&self, bus: &Bus) -> (window: WindowReg)
        ensures
            window == (WindowReg { wy: bus@.read(WY), wx: bus@.read(WX) }),
    {
        WindowReg { wy: bus.read_byte(0xFF4A), wx: bus.read_byte(0xFF4B) }
    }

    /// The two bytes of row `y_offset` of the tile at place `tile_number`
    /// of the background map, which has 32 by 32 places.
    pub fn get_background_tile_line(&self, bus: &Bus, y_offset: u8, tile_number: u16) -> (row: (
        u8,
        u8,
    ))
        requires
            y_offset <= 7,
            tile_number < 1024,
        ensures
            row == tile_row_by_id(bus@, (bg_map_base(bus@) + tile_number) as u16, y_offset),
    {
        let address: u16 = match self.get_lcd_control().bg_tile_map(bus) {
            true => 0x9C00,
            false => 0x9800,
        };
        self.get_tile_x_line_2bytes(bus, address + tile_number, y_offset)
    }

    pub fn get_window_tile_line(&self, bus: &Bus, y_offset: u8, tile_number: u16) -> (row: (
        u8,
        u8,
    ))
        requires
            y_offset <= 7,
            tile_number < 1024,
        ensures
            row == tile_row_by_id(bus@, (win_map_base(bus@) + tile_number) as u16, y_offset),
    {
        let address: u16 = match self.get_lcd_control().win_tile_map(bus) {
            true => 0x9C00,
            false => 0x9800,
        };
        self.get_tile_x_line_2bytes(bus, address + tile_number, y_offset)
    }

    /// The two bytes of row `line` of the tile whose number stands at
    /// `tile_id_address`.
    pub fn get_tile_x_line_2bytes(&self, bus: &Bus, tile_id_address: u16, line: u8) -> (row: (
        u8,
        u8,
    ))
        requires
            line <= 7,
        ensures
            row == tile_row_by_id(bus@, tile_id_address, line),
    {
        let tile_id = bus.read_byte(tile_id_address) as u16;
        let tile_address = match self.get_lcd_control().bg_win_tiles(bus) {
            true => 0x8000u16 + tile_id * 16,
            false => if tile_id < 128 {
                0x9000u16 + tile_id * 16
            } else {
                0x8800u16 + (tile_id - 128) * 16
            },
        };
        (
            bus.read_byte(tile_address + 2 * line as u16),
            bus.read_byte(tile_address + 2 * line as u16 + 1),
        )
    }

    pub fn get_tile_line(&self, bus: &Bus, y_offset: u8, tile_number: u8, size_16bit: bool) -> (row:
        (u8, u8))
        requires
            y_offset <= 15,
            !size_16bit ==> y_offset <= 7,
        ensures
            row == object_row(bus@, y_offset, tile_number, size_16bit),
    {
        let (mut y_offset, mut tile_number) = (y_offset, tile_number);
        if size_16bit {
            tile_number = (tile_number / 2) * 2;
            if y_offset > 7 {
                y_offset = y_offset - 8;
                tile_number += 1;
            }
        }
        let address = 0x8000u16 + tile_number as u16 * 16;
        (
            bus.read_byte(address + 2 * y_offset as u16),
            bus.read_byte(address + 2 * y_offset as u16 + 1),
        )
    }

    pub fn lock_oam(&mut self, bus: &mut Bus)
        ensures
            final(bus)@ == (BusView { oam_lock: true, ..old(bus)@ }),
    {
        bus.lock_oam();
    }

    pub fn unlock_oam(&mut self, bus: &mut Bus)
        ensures
            final(bus)@ == (BusView { oam_lock: false, ..old(bus)@ }),
    {
        bus.unlock_oam();
    }

    pub fn lock_vram(&mut self, bus: &mut Bus)
        ensures
            final(bus)@ == (BusView { vram_lock: true, ..old(bus)@ }),
    {
        bus.lock_vram();
    }

    pub fn unlock_vram(&mut self, bus: &mut Bus)
        ensures
            final(bus)@ == (BusView { vram_lock: false, ..old(bus)@ }),
    {
        bus.unlock_vram();
    }

    pub fn get_lcd_control(&self) -> LCDControlReg {
        LCDControlReg::new()
    }

    pub fn set_ly(&mut self, bus: &mut Bus, value: u8)
        ensures
            final(bus)@ == old(bus)@.write(LY, value),
    {
        bus.write_byte(0xFF44, value)
    }

    pub fn get_ly(&self, bus: &Bus) -> (value: u8)
        ensures
            value == bus@.read(LY),
    {
        bus.read_byte(0xFF44)
    }

    /// The forty entries of object memory.
    pub fn get_oam_sprites_vec(&self, bus: &Bus) -> (sprites: Vec<OAMSprite>)
        ensures
            sprites@.len() == 40,
            forall|i: int| 0 <= i < 40 ==> sprites@[i] == sprite_at(bus@, i),
    {
        let mut oam_vec: Vec<OAMSprite> = Vec::new();
        let oam_mem_start: u16 = OAM_START;
        let mut i: u16 = 0;
        while i < 40
            invariant
                i <= 40,
                oam_mem_start == 0xFE00,
                oam_vec@.len() == i,
                forall|j: int| 0 <= j < i ==> oam_vec@[j] == sprite_at(bus@, j),
            decreases 40 - i,
        {
            oam_vec.push(
                OAMSprite {
                    y: bus.read_byte(oam_mem_start + i * 4),
                    x: bus.read_byte(oam_mem_start + i * 4 + 1),
                    tile_number: bus.read_byte(oam_mem_start + i * 4 + 2),
                    flags: bus.read_byte(oam_mem_start + i * 4 + 3),
                },
            );
            i += 1;
        }
        oam_vec
    }

    pub fn win_tile_map_vec(&self, bus: &Bus) -> (map: Vec<u8>)
        ensures
            map@ == bus@.mem.subrange(win_map_base(bus@) as int, win_map_base(bus@) + 1024),
    {
        let address;
        if self.get_lcd_control().win_tile_map(bus) {
            address = 0x9C00u16;
        } else {
            address = 0x9800u16;
        }
        slice_to_vec(bus.read_bytes_range(address, 1024))
    }

    pub fn bg_tile_map_vec(&self, bus: &Bus) -> (map: Vec<u8>)
        ensures
            map@ == bus@.mem.subrange(bg_map_base(bus@) as int, bg_map_base(bus@) + 1024),
    {
        let address;
        if self.get_lcd_control().bg_tile_map(bus) {
            address = 0x9C00u16;
        } else {
            address = 0x9800u16;
        }
        slice_to_vec(bus.read_bytes_range(address, 1024))
    }

    /// The 4 KiB of tile data that background and window use.
    pub fn bg_win_tile_memory_vec(&self, bus: &Bus) -> (tiles: Vec<u8>)
        ensures
            tiles@ == if byte_bit(bus@.read(LCDC), 4) {
                bus@.mem.subrange(0x8000, 0x9000)
            } else {
                bus@.mem.subrange(0x8800, 0x9800)
            },
    {
        let address;
        if self.get_lcd_control().bg_win_tiles(bus) {
            address = 0x8000u16;
        } else {
            address = 0x8800u16;
        }
        slice_to_vec(bus.read_bytes_range(address, 2 * 2048))
    }
}

} // verus!

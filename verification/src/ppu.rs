use crate::bus::{
    Bus, BusView, LCDControlReg, LCDStatusReg, OAMSprite, BGP, IF, LCDC, LY, LYC, OBP0, OBP1, SCX,
    SCY, STAT, WX, WY,
};
use crate::mem::vram::{
    bg_map_base, object_row, sprite_at, tile_row_by_id, win_map_base, VRAM,
};
use crate::util::tiles_util::{gray_to_colour, pixel_of_row, tile_fuse_byte_u8, ScreenVector};
use crate::util::u8_traits::{byte_bit, Bit};
use crate::windows::game_window::{GAMEBOY_SCREEN_HEIGHT, GAMEBOY_SCREEN_WIDTH};
use vstd::prelude::*;

verus! {

/// The four modes of the pixel unit.
#[derive(Debug, Clone, Copy, PartialEq, Eq, Structural)]
pub enum PPUModes {
    Mode0,
    Mode1,
    Mode2,
    Mode3,
}

impl PPUModes {
    /// The number of the mode, as the status register shows it.
    pub open spec fn spec_number(self) -> u8 {
        match self {
            PPUModes::Mode0 => 0,
            PPUModes::Mode1 => 1,
            PPUModes::Mode2 => 2,
            PPUModes::Mode3 => 3,
        }
    }
}

/// Which part of video memory the pixel unit keeps from the processor.
#[derive(Debug, Clone, Copy, PartialEq, Eq, Structural)]
pub enum VideoMemBlock {
    All,
    OAM,
    Free,
}

pub const MODE_2_DOTS: usize = 80usize;

/// Mode 3 always takes its shortest time: the cost of objects and of fine
/// scrolling is not counted.
pub const MODE_3_DOTS: usize = 172usize;

pub const MODE_0_DOTS: usize = 204usize;

pub const MODE_1_DOTS: usize = 4560usize;

pub const DOTS_PER_LINE: usize = 456usize;

pub const DOTS_PER_FRAME: usize = 70224usize;

/// The first dot of the vertical blank.
pub const VBLANK_START: usize = 65664usize;

/// The mode of the pixel unit at a dot of the frame: on each of the 144
/// visible lines mode 2 for 80 dots, mode 3 for 172 and mode 0 for the
/// rest; on the ten lines after them mode 1.
pub open spec fn mode_at(position: int) -> PPUModes {
    let line = position / 456;
    let dot = position % 456;
    if line >= 144 {
        PPUModes::Mode1
    } else if dot < 80 {
        PPUModes::Mode2
    } else if dot < 252 {
        PPUModes::Mode3
    } else {
        PPUModes::Mode0
    }
}

/// What the line register shows at a dot of the frame: the line, but zero
/// from the fifth dot of the last line on.
pub open spec fn ly_at(position: int) -> u8 {
    let line = position / 456;
    let dot = position % 456;
    if line == 153 && dot >= 4 {
        0
    } else {
        line as u8
    }
}

/// The dots since the mode at a dot of the frame began.
pub open spec fn mode_dots_at(position: int) -> int {
    let line = position / 456;
    let dot = position % 456;
    if line >= 144 {
        position - 65664
    } else if dot < 80 {
        dot
    } else if dot < 252 {
        dot - 80
    } else {
        dot - 252
    }
}

/// The colour index of pixel (`px`, `py`) of the 256 by 256 picture that a
/// tile map describes.
pub open spec fn map_pixel(bus: BusView, map_base: u16, px: int, py: int) -> u8 {
    let row = tile_row_by_id(bus, (map_base + (py / 8) * 32 + px / 8) as u16, (py % 8) as u8);
    pixel_of_row(row.0, row.1, px % 8)
}

/// The colour index of the background at screen column `x` of line `ly`:
/// the background picture moved by the two scroll registers.
pub open spec fn bg_pixel(bus: BusView, x: int, ly: u8) -> u8 {
    map_pixel(bus, bg_map_base(bus), (x + bus.read(SCX)) % 256, (ly + bus.read(SCY)) % 256)
}

/// Whether the window shows on line `ly`.
pub open spec fn window_on_line(bus: BusView, ly: u8) -> bool {
    byte_bit(bus.read(LCDC), 5) && ly >= bus.read(WY) && bus.read(WX) <= 166
}

/// Whether the window covers screen column `x` of line `ly`.
pub open spec fn window_covers(bus: BusView, x: int, ly: u8) -> bool {
    window_on_line(bus, ly) && x + 7 >= bus.read(WX)
}

/// The colour index of the window at screen column `x`, on the line of the
/// window picture that the window line counter gives.
pub open spec fn window_pixel(bus: BusView, x: int, window_line: u8) -> u8 {
    map_pixel(bus, win_map_base(bus), x + 7 - bus.read(WX), window_line as int)
}

/// The colour index of background and window at screen column `x`: zero
/// with both switched off, the window where it covers, else the background.
pub open spec fn background_index(bus: BusView, x: int, ly: u8, window_line: u8) -> u8 {
    if !byte_bit(bus.read(LCDC), 0) {
        0
    } else if window_covers(bus, x, ly) {
        window_pixel(bus, x, window_line)
    } else {
        bg_pixel(bus, x, ly)
    }
}

/// The height of all objects: 16 with bit 2 of the control register set,
/// else 8.
pub open spec fn sprite_height(bus: BusView) -> int {
    if byte_bit(bus.read(LCDC), 2) {
        16
    } else {
        8
    }
}

/// Whether an object reaches line `ly`.
pub open spec fn sprite_on_line(sprite: OAMSprite, ly: u8, height: int) -> bool {
    sprite.y <= ly + 16 < sprite.y + height
}

/// The objects of line `ly` among the first `n` entries of object memory:
/// the first ten that reach the line, in the order of object memory.
pub open spec fn selected_sprites(bus: BusView, ly: u8, n: nat) -> Seq<OAMSprite>
    decreases n,
{
    if n == 0 {
        Seq::empty()
    } else {
        let before = selected_sprites(bus, ly, (n - 1) as nat);
        let sprite = sprite_at(bus, n - 1);
        if before.len() < 10 && sprite_on_line(sprite, ly, sprite_height(bus)) {
            before.push(sprite)
        } else {
            before
        }
    }
}

/// Whether an object reaches screen column `x`.
pub open spec fn sprite_covers(sprite: OAMSprite, x: int) -> bool {
    sprite.x <= x + 8 < sprite.x + 8
}

/// The colour index of an object at screen column `x` of line `ly`, for an
/// object that reaches both.
pub open spec fn sprite_pixel(bus: BusView, sprite: OAMSprite, x: int, ly: u8, height: int) -> u8 {
    let col = x + 8 - sprite.x;
    let line = ly + 16 - sprite.y;
    let row = object_row(
        bus,
        (if sprite.spec_y_flip() {
            height - 1 - line
        } else {
            line
        }) as u8,
        sprite.tile_number,
        height == 16,
    );
    pixel_of_row(
        row.0,
        row.1,
        if sprite.spec_x_flip() {
            7 - col
        } else {
            col
        },
    )
}

/// Whether an object has a pixel to show at screen column `x`: it reaches
/// the column, and its colour index there is not zero, which is see-through.
pub open spec fn sprite_shows(bus: BusView, sprite: OAMSprite, x: int, ly: u8, height: int) -> bool {
    sprite_covers(sprite, x) && sprite_pixel(bus, sprite, x, ly, height) != 0
}

/// The object that is seen at screen column `x` among the first `n` of a
/// list: of those that have a pixel to show the one furthest left, and of
/// two equally far left the earlier one.
pub open spec fn winning_sprite(
    bus: BusView,
    sprites: Seq<OAMSprite>,
    x: int,
    ly: u8,
    height: int,
    n: nat,
) -> Option<OAMSprite>
    decreases n,
{
    if n == 0 {
        None
    } else {
        let before = winning_sprite(bus, sprites, x, ly, height, (n - 1) as nat);
        let sprite = sprites[n - 1];
        if sprite_shows(bus, sprite, x, ly, height) && (before is None || sprite.x
            < before.unwrap().x) {
            Some(sprite)
        } else {
            before
        }
    }
}

/// The shade that a palette gives a colour index.
pub open spec fn palette_shade(palette: u8, index: u8) -> u8 {
    if index == 0 {
        palette % 4
    } else if index == 1 {
        (palette / 4) % 4
    } else if index == 2 {
        (palette / 16) % 4
    } else {
        (palette / 64) % 4
    }
}

/// The shade of a pixel from the colour index of background and window
/// and the object seen there: the object's, through its palette, unless
/// objects are switched off or the object stands behind a background that
/// is not of colour zero; else the background's, through its palette.
pub open spec fn pixel_shade(
    bus: BusView,
    background: u8,
    winner: Option<OAMSprite>,
    x: int,
    ly: u8,
) -> u8 {
    if byte_bit(bus.read(LCDC), 1) && winner is Some && !(winner.unwrap().spec_render_priority()
        && background != 0) {
        palette_shade(
            if winner.unwrap().spec_palette_number() {
                bus.read(OBP1)
            } else {
                bus.read(OBP0)
            },
            sprite_pixel(bus, winner.unwrap(), x, ly, sprite_height(bus)),
        )
    } else {
        palette_shade(bus.read(BGP), background)
    }
}

/// The shade of screen column `x` of line `ly`.
pub open spec fn render_pixel(bus: BusView, x: int, ly: u8, window_line: u8) -> u8 {
    let sprites = selected_sprites(bus, ly, 40);
    pixel_shade(
        bus,
        background_index(bus, x, ly, window_line),
        winning_sprite(bus, sprites, x, ly, sprite_height(bus), sprites.len()),
        x,
        ly,
    )
}

/// The 160 shades of line `ly`.
#[verifier::opaque]
pub open spec fn render_line_spec(bus: BusView, ly: u8, window_line: u8) -> Seq<u8> {
    Seq::new(160, |x: int| render_pixel(bus, x, ly, window_line))
}

/// The colour that the screen shows for a shade: white for shade zero,
/// black for shade three.
pub open spec fn shade_colour(shade: u8) -> u32 {
    gray_to_colour((3 - shade % 4) as u8)
}

/// The picture after a line of shades is put on screen line `line`.
#[verifier::opaque]
pub open spec fn commit_line(screen: Seq<u32>, shades: Seq<u8>, line: int) -> Seq<u32> {
    Seq::new(
        screen.len(),
        |i: int|
            if line * 160 <= i < line * 160 + 160 {
                shade_colour(shades[i - line * 160])
            } else {
                screen[i]
            },
    )
}

/// Whether the status interrupt line is high: the line compare matches
/// and is selected, or the mode is 0, 1 or 2 and is selected.
pub open spec fn stat_level(status: u8, mode: PPUModes) -> bool {
    (byte_bit(status, 2) && byte_bit(status, 6)) || (mode == PPUModes::Mode0 && byte_bit(status, 3))
        || (mode == PPUModes::Mode1 && byte_bit(status, 4)) || (mode == PPUModes::Mode2
        && byte_bit(status, 5))
}

/// Whether the display is switched on.
pub open spec fn lcd_enabled(bus: BusView) -> bool {
    byte_bit(bus.read(LCDC), 7)
}

/// The locks as the pixel unit sets them when it reaches a dot of the
/// frame: object memory is locked in mode 2, all video memory in mode 3,
/// nothing in modes 0 and 1.
pub open spec fn ppu_locks(bus: BusView, position: int) -> BusView {
    let line = position / 456;
    let dot = position % 456;
    if line < 144 && dot == 0 {
        BusView { oam_lock: true, vram_lock: false, ..bus }
    } else if line < 144 && dot == 80 {
        BusView { oam_lock: true, vram_lock: true, ..bus }
    } else if (line < 144 && dot == 252) || (line == 144 && dot == 0) {
        BusView { oam_lock: false, vram_lock: false, ..bus }
    } else {
        bus
    }
}

/// The line and status registers as the pixel unit sets them at a dot of
/// the frame: the line, the mode, and whether the line matches the line
/// compare register.
pub open spec fn ppu_status(bus: BusView, position: int) -> BusView {
    let mode = mode_at(position);
    bus.write(LY, ly_at(position)).write_bit(STAT, 2, ly_at(position) == bus.read(LYC)).write_bit(
        STAT,
        0,
        mode.spec_number() % 2 == 1,
    ).write_bit(STAT, 1, mode.spec_number() >= 2)
}

/// The interrupt requests of the pixel unit at a dot of the frame: the
/// vertical blank at its first dot, and the status interrupt when its line
/// rises.
pub open spec fn ppu_requests(bus: BusView, position: int, stat_line: bool) -> BusView {
    let blank = if position == 65664 {
        bus.write_bit(IF, 0, true)
    } else {
        bus
    };
    if stat_level(bus.read(STAT), mode_at(position)) && !stat_line {
        blank.write_bit(IF, 1, true)
    } else {
        blank
    }
}

/// The pixel unit as a mathematical value.
pub struct PpuView {
    pub mode: PPUModes,
    pub frame_dot: int,
    pub line_dot: int,
    pub mode_dot: int,
    pub ly: u8,
    pub window_line: u8,
    pub stat_line: bool,
    pub lcd_on: bool,
    pub line_pixels: Seq<u8>,
    pub screen: Seq<u32>,
    pub width: int,
}

impl PpuView {
    /// The pixel unit of a machine that was just made: at the first dot of
    /// the frame in mode 2, with a black screen.
    pub open spec fn initial() -> PpuView {
        PpuView {
            mode: PPUModes::Mode2,
            frame_dot: 0,
            line_dot: 0,
            mode_dot: 0,
            ly: 0,
            window_line: 0,
            stat_line: false,
            lcd_on: true,
            line_pixels: Seq::new(160, |i: int| 0u8),
            screen: Seq::new(160 * 144, |i: int| 0u32),
            width: 160,
        }
    }

    /// The screen is 160 by 144, and the counters, the mode and the line
    /// are those of the dot of the frame; with the display off they rest
    /// at zero.
    pub open spec fn wf(self) -> bool {
        &&& self.width == 160
        &&& self.screen.len() == 160 * 144
        &&& self.line_pixels.len() == 160
        &&& 0 <= self.frame_dot < 70224
        &&& self.line_dot == self.frame_dot % 456
        &&& self.lcd_on ==> self.mode == mode_at(self.frame_dot) && self.mode_dot == mode_dots_at(
            self.frame_dot,
        ) && self.ly == ly_at(self.frame_dot)
        &&& !self.lcd_on ==> self.frame_dot == 0 && self.mode == PPUModes::Mode0 && self.mode_dot
            == 0 && self.ly == 0
    }

    /// The dot of the frame that the next clock cycle reaches.
    pub open spec fn next_position(self) -> int {
        if self.lcd_on {
            (self.frame_dot + 1) % 70224
        } else {
            0
        }
    }

    /// The pixel unit switched off: it rests at the start of the frame in
    /// mode 0 and the screen is white.
    pub open spec fn switched_off(self) -> PpuView {
        PpuView {
            mode: PPUModes::Mode0,
            frame_dot: 0,
            line_dot: 0,
            mode_dot: 0,
            ly: 0,
            window_line: 0,
            stat_line: false,
            lcd_on: false,
            line_pixels: self.line_pixels,
            screen: Seq::new(self.screen.len(), |i: int| 0x00FF_FFFFu32),
            width: self.width,
        }
    }

    /// The pixel unit after one clock cycle with the display on.
    pub open spec fn advanced(self, bus: BusView) -> PpuView {
        let position = self.next_position();
        let line = position / 456;
        let dot = position % 456;
        let window_line = if position == 0 {
            0u8
        } else {
            self.window_line
        };
        let renders = line < 144 && dot == 0;
        PpuView {
            mode: mode_at(position),
            frame_dot: position,
            line_dot: dot,
            mode_dot: mode_dots_at(position),
            ly: ly_at(position),
            window_line: if renders && window_on_line(bus, line as u8) {
                ((window_line + 1) % 256) as u8
            } else {
                window_line
            },
            stat_line: stat_level(
                ppu_status(ppu_locks(bus, position), position).read(STAT),
                mode_at(position),
            ),
            lcd_on: true,
            line_pixels: if renders {
                render_line_spec(bus, line as u8, window_line)
            } else {
                self.line_pixels
            },
            screen: if line < 144 && dot == 252 {
                commit_line(self.screen, self.line_pixels, line)
            } else {
                self.screen
            },
            width: self.width,
        }
    }

    /// The pixel unit after one clock cycle.
    pub open spec fn tick(self, bus: BusView) -> PpuView {
        if lcd_enabled(bus) {
            self.advanced(bus)
        } else if self.lcd_on {
            self.switched_off()
        } else {
            self
        }
    }

    /// The bus after one clock cycle of the pixel unit.
    pub open spec fn tick_bus(self, bus: BusView) -> BusView {
        if lcd_enabled(bus) {
            let position = self.next_position();
            ppu_requests(ppu_status(ppu_locks(bus, position), position), position, self.stat_line)
        } else if self.lcd_on {
            BusView { oam_lock: false, vram_lock: false, ..bus }.write(LY, 0).write_bit(
                STAT,
                0,
                false,
            ).write_bit(STAT, 1, false)
        } else {
            bus
        }
    }
}

/// The pixel unit: its place in the frame, the line it works on and the
/// picture on the screen.
pub struct PPU {
    pub vram: VRAM,
    pub lcd_status: LCDStatusReg,
    pub lcd_control: LCDControlReg,
    pub screen_array: ScreenVector,
    pub current_mode: PPUModes,
    /// The dot of the frame.
    pub dots_counter_frame: usize,
    pub dots_counter_line: usize,
    /// The dots since the mode began.
    pub dots_counter_mode: usize,
    pub line_pixels: [u8; 160],
    pub ly: u8,
    /// The line of the window picture that the next window line shows.
    pub window_line: u8,
    /// Whether the status interrupt line was high after the last cycle.
    pub stat_line: bool,
    /// Whether the display was on at the last cycle.
    pub lcd_on: bool,
}

impl View for PPU {
    type V = PpuView;

    open spec fn view(&self) -> PpuView {
        PpuView {
            mode: self.current_mode,
            frame_dot: self.dots_counter_frame as int,
            line_dot: self.dots_counter_line as int,
            mode_dot: self.dots_counter_mode as int,
            ly: self.ly,
            window_line: self.window_line,
            stat_line: self.stat_line,
            lcd_on: self.lcd_on,
            line_pixels: self.line_pixels@,
            screen: self.screen_array.pixelcolor_vec@,
            width: self.screen_array.width as int,
        }
    }
}

/// The shade that a palette gives a colour index.
pub fn shade_of(palette: u8, index: u8) -> (shade: u8)
    ensures
        shade == palette_shade(palette, index),
{
    if index == 0 {
        palette % 4
    } else if index == 1 {
        (palette / 4) % 4
    } else if index == 2 {
        (palette / 16) % 4
    } else {
        (palette / 64) % 4
    }
}

/// The colour index of pixel `col` of a tile row.
pub fn row_pixel(l: u8, h: u8, col: u8) -> (pixel: u8)
    requires
        col <= 7,
    ensures
        pixel == pixel_of_row(l, h, col as int),
{
    let high: u8 = if h.get_bit(7 - col) {
        2
    } else {
        0
    };
    let low: u8 = if l.get_bit(7 - col) {
        1
    } else {
        0
    };
    high + low
}

proof fn lemma_scrolled_tile(x: int, scx: int, i: int, k: int)
    requires
        0 <= x < 160,
        0 <= scx < 256,
        0 <= i < 21,
        0 <= k < 8,
        x + scx % 8 == 8 * i + k,
    ensures
        ((x + scx) % 256) / 8 == (scx / 8 + i) % 32,
        ((x + scx) % 256) % 8 == k,
{
    let tile = scx / 8 + i;
    assert(x + scx == 8 * tile + k);
    if tile >= 32 {
        assert((x + scx) % 256 == 8 * (tile - 32) + k);
        assert(tile % 32 == tile - 32);
    } else {
        assert((x + scx) % 256 == 8 * tile + k);
        assert(tile % 32 == tile);
    }
}

impl PPU {
    pub fn new() -> (ppu: PPU)
        ensures
            ppu@ == PpuView::initial(),
            ppu@.wf(),
    {
        let ppu = PPU {
            vram: VRAM::new(),
            lcd_status: LCDStatusReg::new(),
            lcd_control: LCDControlReg::new(),
            screen_array: ScreenVector::new_with_screen_size(
                GAMEBOY_SCREEN_WIDTH,
                GAMEBOY_SCREEN_HEIGHT,
            ),
            current_mode: PPUModes::Mode2,
            dots_counter_frame: 0,
            dots_counter_line: 0,
            dots_counter_mode: 0,
            line_pixels: [0u8;160],
            ly: 0,
            window_line: 0,
            stat_line: false,
            lcd_on: true,
        };
        assert(ppu@.line_pixels =~= Seq::new(160, |i: int| 0u8));
        assert(ppu@.screen =~= Seq::new(160 * 144, |i: int| 0u32));
        ppu
    }

    /// Puts the eight pixels of a tile row into the line, the first at
    /// column `pos_x - shift`; pixels that fall off the screen are dropped.
    fn insert_tile_row(&mut self, vec: &Vec<u8>, pos_x: usize, shift: usize)
        requires
            vec@.len() >= 8,
            pos_x + 8 <= usize::MAX,
            shift <= 8,
        ensures
            forall|x: int|
                0 <= x < 160 ==> final(self).line_pixels@[x] == if pos_x <= x + shift < pos_x + 8 {
                    vec@[x + shift - pos_x]
                } else {
                    old(self).line_pixels@[x]
                },
            *final(self) == (PPU { line_pixels: final(self).line_pixels, ..*old(self) }),
    {
        let mut i: usize = 0;
        while i < 8
            invariant
                i <= 8,
                vec@.len() >= 8,
                pos_x + 8 <= usize::MAX,
                shift <= 8,
                forall|x: int|
                    0 <= x < 160 ==> self.line_pixels@[x] == if pos_x <= x + shift < pos_x + i {
                        vec@[x + shift - pos_x]
                    } else {
                        old(self).line_pixels@[x]
                    },
                *self == (PPU { line_pixels: self.line_pixels, ..*old(self) }),
            decreases 8 - i,
        {
            if pos_x + i >= shift && pos_x + i - shift < 160 {
                self.line_pixels[pos_x + i - shift] = vec[i]
            }
            i += 1;
        }
    }

    pub fn insert_gray_vec_into_line_pixels(&mut self, vec: &Vec<u8>, pos_x: usize)
        requires
            vec@.len() >= 8,
            pos_x + 8 <= usize::MAX,
        ensures
            forall|x: int|
                0 <= x < 160 ==> final(self).line_pixels@[x] == if pos_x <= x < pos_x + 8 {
                    vec@[x - pos_x]
                } else {
                    old(self).line_pixels@[x]
                },
            *final(self) == (PPU { line_pixels: final(self).line_pixels, ..*old(self) }),
    {
        self.insert_tile_row(vec, pos_x, 0);
    }

    /// Fills the line with the colour indices of the background.
    fn draw_background(&mut self, bus: &Bus, ly: u8)
        ensures
            forall|x: int| 0 <= x < 160 ==> final(self).line_pixels@[x] == bg_pixel(bus@, x, ly),
            *final(self) == (PPU { line_pixels: final(self).line_pixels, ..*old(self) }),
    {
        let (scx, scy) = self.vram.get_background(bus);
        let fine = (scx % 8) as usize;
        let y = scy.wrapping_add(ly);
        let mut i: u16 = 0;
        while i < 21
            invariant
                i <= 21,
                scx == bus@.read(SCX),
                fine == scx % 8,
                y == (ly + bus@.read(SCY)) % 256,
                forall|x: int|
                    0 <= x < 160 && x + fine < 8 * i ==> self.line_pixels@[x] == bg_pixel(
                        bus@,
                        x,
                        ly,
                    ),
                *self == (PPU { line_pixels: self.line_pixels, ..*old(self) }),
            decreases 21 - i,
        {
            // the two bytes of the row of the tile in this column
            let column = (scx as u16 / 8 + i) % 32;
            let (l, h) = self.vram.get_background_tile_line(bus, y % 8, column + (y as u16 / 8) * 32);
            let line_gray_value = tile_fuse_byte_u8(l, h);
            let ghost before = self.line_pixels@;
            self.insert_tile_row(&line_gray_value, 8 * i as usize, fine);
            proof {
                assert forall|x: int| 0 <= x < 160 && x + fine < 8 * (i + 1) implies self.line_pixels@[x]
                    == bg_pixel(bus@, x, ly) by {
                    if x + fine >= 8 * i {
                        let k = x + fine - 8 * i;
                        lemma_scrolled_tile(x, scx as int, i as int, k);
                        assert(line_gray_value@[k] == pixel_of_row(l, h, k));
                    } else {
                        assert(self.line_pixels@[x] == before[x]);
                    }
                }
            }
            i += 1;
        }
    }

    /// Puts the colour indices of the window over the line where the
    /// window covers it.
    fn draw_window(&mut self, bus: &Bus, ly: u8, window_line: u8)
        ensures
            forall|x: int|
                0 <= x < 160 ==> final(self).line_pixels@[x] == if window_covers(bus@, x, ly) {
                    window_pixel(bus@, x, window_line)
                } else {
                    old(self).line_pixels@[x]
                },
            *final(self) == (PPU { line_pixels: final(self).line_pixels, ..*old(self) }),
    {
        let window = self.vram.get_window(bus);
        if !self.lcd_control.win_enable(bus) || ly < window.wy || window.wx > 166 {
            return ;
        }
        let mut x: usize = 0;
        while x < 160
            invariant
                x <= 160,
                window == (crate::bus::WindowReg { wy: bus@.read(WY), wx: bus@.read(WX) }),
                window_on_line(bus@, ly),
                forall|j: int|
                    0 <= j < x ==> self.line_pixels@[j] == if window_covers(bus@, j, ly) {
                        window_pixel(bus@, j, window_line)
                    } else {
                        old(self).line_pixels@[j]
                    },
                forall|j: int| x <= j < 160 ==> self.line_pixels@[j] == old(self).line_pixels@[j],
                *self == (PPU { line_pixels: self.line_pixels, ..*old(self) }),
            decreases 160 - x,
        {
            if x + 7 >= window.wx as usize {
                let px = (x + 7 - window.wx as usize) as u16;
                let (l, h) = self.vram.get_window_tile_line(
                    bus,
                    window_line % 8,
                    px / 8 + (window_line as u16 / 8) * 32,
                );
                self.line_pixels[x] = row_pixel(l, h, (px % 8) as u8);
            }
            x += 1;
        }
    }

    /// The first ten objects of object memory that reach line `ly`.
    fn select_sprites(&self, bus: &Bus, ly: u8) -> (chosen: Vec<OAMSprite>)
        ensures
            chosen@ == selected_sprites(bus@, ly, 40),
            chosen@.len() <= 10,
    {
        let obj_tile_map = self.vram.get_oam_sprites_vec(bus);
        let obj_height: u16 = if self.lcd_control.obj_size(bus) {
            16
        } else {
            8
        };
        let ly_screen = ly as u16 + 16;
        let mut chosen: Vec<OAMSprite> = Vec::new();
        let mut i: usize = 0;
        while i < 40
            invariant
                i <= 40,
                obj_tile_map@.len() == 40,
                forall|j: int| 0 <= j < 40 ==> obj_tile_map@[j] == sprite_at(bus@, j),
                obj_height == sprite_height(bus@),
                ly_screen == ly + 16,
                chosen@ == selected_sprites(bus@, ly, i as nat),
                chosen@.len() <= 10,
            decreases 40 - i,
        {
            let obj = obj_tile_map[i];
            if chosen.len() < 10 && ly_screen >= obj.y as u16 && ly_screen < obj.y as u16
                + obj_height {
                chosen.push(obj);
            }
            i += 1;
        }
        chosen
    }

    /// The colour index of an object at screen column `x` of line `ly`.
    fn sprite_index(&self, bus: &Bus, obj: &OAMSprite, x: usize, ly: u8, tall: bool) -> (pixel: u8)
        requires
            x < 160,
            sprite_covers(*obj, x as int),
            sprite_on_line(*obj, ly, if tall { 16int } else { 8int }),
        ensures
            pixel == sprite_pixel(bus@, *obj, x as int, ly, if tall { 16int } else { 8int }),
    {
        let height: u8 = if tall {
            16
        } else {
            8
        };
        let col = (x + 8 - obj.x as usize) as u8;
        let y_obj_offset = (ly as u16 + 16 - obj.y as u16) as u8;
        let line = if obj.y_flip() {
            height - 1 - y_obj_offset
        } else {
            y_obj_offset
        };
        let (l, h) = self.vram.get_tile_line(bus, line, obj.tile_number, tall);
        row_pixel(
            l,
            h,
            if obj.x_flip() {
                7 - col
            } else {
                col
            },
        )
    }

    /// The object that is seen at screen column `x`, with its colour index.
    fn winner_at(&self, bus: &Bus, chosen: &Vec<OAMSprite>, x: usize, ly: u8, tall: bool) -> (found:
        Option<(OAMSprite, u8)>)
        requires
            x < 160,
            tall == (sprite_height(bus@) == 16),
            chosen@ == selected_sprites(bus@, ly, 40),
        ensures
            match found {
                Some(pair) => winning_sprite(
                    bus@,
                    chosen@,
                    x as int,
                    ly,
                    sprite_height(bus@),
                    chosen@.len(),
                ) == Some(pair.0) && pair.1 == sprite_pixel(
                    bus@,
                    pair.0,
                    x as int,
                    ly,
                    sprite_height(bus@),
                ),
                None => winning_sprite(
                    bus@,
                    chosen@,
                    x as int,
                    ly,
                    sprite_height(bus@),
                    chosen@.len(),
                ) is None,
            },
    {
        let mut found: Option<(OAMSprite, u8)> = None;
        let mut i: usize = 0;
        proof {
            lemma_selected_on_line(bus@, ly, 40);
        }
        while i < chosen.len()
            invariant
                i <= chosen@.len(),
                x < 160,
                tall == (sprite_height(bus@) == 16),
                forall|j: int|
                    0 <= j < chosen@.len() ==> sprite_on_line(
                        #[trigger] chosen@[j],
                        ly,
                        sprite_height(bus@),
                    ),
                match found {
                    Some(pair) => winning_sprite(
                        bus@,
                        chosen@,
                        x as int,
                        ly,
                        sprite_height(bus@),
                        i as nat,
                    ) == Some(pair.0) && pair.1 == sprite_pixel(
                        bus@,
                        pair.0,
                        x as int,
                        ly,
                        sprite_height(bus@),
                    ),
                    None => winning_sprite(
                        bus@,
                        chosen@,
                        x as int,
                        ly,
                        sprite_height(bus@),
                        i as nat,
                    ) is None,
                },
            decreases chosen@.len() - i,
        {
            let obj = chosen[i];
            if obj.x as usize <= x + 8 && x < obj.x as usize {
                let pixel = self.sprite_index(bus, &obj, x, ly, tall);
                let better = match found {
                    Some(pair) => obj.x < pair.0.x,
                    None => true,
                };
                if pixel != 0 && better {
                    found = Some((obj, pixel));
                }
            }
            i += 1;
        }
        found
    }

    /// Turns the colour indices of background and window in the line into
    /// shades, with the objects of the line laid over them.
    fn draw_sprites(&mut self, bus: &Bus, ly: u8)
        ensures
            forall|x: int|
                0 <= x < 160 ==> final(self).line_pixels@[x] == pixel_shade(
                    bus@,
                    old(self).line_pixels@[x],
                    winning_sprite(
                        bus@,
                        selected_sprites(bus@, ly, 40),
                        x,
                        ly,
                        sprite_height(bus@),
                        selected_sprites(bus@, ly, 40).len(),
                    ),
                    x,
                    ly,
                ),
            *final(self) == (PPU { line_pixels: final(self).line_pixels, ..*old(self) }),
    {
        let chosen = self.select_sprites(bus, ly);
        let tall = self.lcd_control.obj_size(bus);
        let objects_on = self.lcd_control.obj_enable(bus);
        let bgp = bus.read_byte(BGP);
        let mut x: usize = 0;
        while x < 160
            invariant
                x <= 160,
                chosen@ == selected_sprites(bus@, ly, 40),
                tall == (sprite_height(bus@) == 16),
                objects_on == byte_bit(bus@.read(LCDC), 1),
                bgp == bus@.read(BGP),
                forall|j: int|
                    0 <= j < x ==> self.line_pixels@[j] == pixel_shade(
                        bus@,
                        old(self).line_pixels@[j],
                        winning_sprite(
                            bus@,
                            chosen@,
                            j,
                            ly,
                            sprite_height(bus@),
                            chosen@.len(),
                        ),
                        j,
                        ly,
                    ),
                forall|j: int| x <= j < 160 ==> self.line_pixels@[j] == old(self).line_pixels@[j],
                *self == (PPU { line_pixels: self.line_pixels, ..*old(self) }),
            decreases 160 - x,
        {
            let background = self.line_pixels[x];
            let mut shade = shade_of(bgp, background);
            if objects_on {
                match self.winner_at(bus, &chosen, x, ly, tall) {
                    Some(pair) => {
                        if !(pair.0.render_priority() && background != 0) {
                            let palette = if pair.0.palette_number() {
                                bus.read_byte(OBP1)
                            } else {
                                bus.read_byte(OBP0)
                            };
                            shade = shade_of(palette, pair.1);
                        }
                    },
                    None => {},
                }
            }
            self.line_pixels[x] = shade;
            x += 1;
        }
    }

    /// Works out the shades of line `ly`.
    fn render_line(&mut self, bus: &Bus, ly: u8, window_line: u8)
        ensures
            final(self).line_pixels@ == render_line_spec(bus@, ly, window_line),
            *final(self) == (PPU { line_pixels: final(self).line_pixels, ..*old(self) }),
    {
        if self.lcd_control.bg_win_enable_priority(bus) {
            self.draw_background(bus, ly);
            self.draw_window(bus, ly, window_line);
        } else {
            let mut x: usize = 0;
            while x < 160
                invariant
                    x <= 160,
                    forall|j: int| 0 <= j < x ==> self.line_pixels@[j] == 0,
                    *self == (PPU { line_pixels: self.line_pixels, ..*old(self) }),
                decreases 160 - x,
            {
                self.line_pixels[x] = 0;
                x += 1;
            }
        }
        assert forall|x: int| 0 <= x < 160 implies self.line_pixels@[x] == background_index(
            bus@,
            x,
            ly,
            window_line,
        ) by {}
        self.draw_sprites(bus, ly);
        proof {
            reveal(render_line_spec);
        }
        assert(self.line_pixels@ =~= render_line_spec(bus@, ly, window_line));
    }
}

impl PPU {
    /// Mode 2 begins: the shades of the new line are worked out, object
    /// memory is locked and tile memory is free.
    fn mode2(&mut self, bus: &mut Bus)
        requires
            old(self).ly < 144,
        ensures
            final(self).line_pixels@ == render_line_spec(
                old(bus)@,
                old(self).ly,
                old(self).window_line,
            ),
            final(self).window_line == if window_on_line(old(bus)@, old(self).ly) {
                ((old(self).window_line + 1) % 256) as u8
            } else {
                old(self).window_line
            },
            *final(self) == (PPU {
                line_pixels: final(self).line_pixels,
                window_line: final(self).window_line,
                ..*old(self)
            }),
            final(bus)@ == (BusView { oam_lock: true, vram_lock: false, ..old(bus)@ }),
    {
        // the whole line is worked out at the first dot of mode 2
        let ly = self.ly;
        let window_line = self.window_line;
        self.render_line(bus, ly, window_line);
        let window = self.vram.get_window(bus);
        if self.lcd_control.win_enable(bus) && ly >= window.wy && window.wx <= 166 {
            self.window_line = self.window_line.wrapping_add(1);
        }
        self.vram.lock_oam(bus);
        self.vram.unlock_vram(bus);
    }

    /// Mode 3 begins: all video memory is locked.
    fn mode3(&mut self, bus: &mut Bus)
        ensures
            *final(self) == *old(self),
            final(bus)@ == (BusView { oam_lock: true, vram_lock: true, ..old(bus)@ }),
    {
        self.vram.lock_vram(bus);
        self.vram.lock_oam(bus);
    }

    /// Mode 0 begins: video memory is free and the finished line goes on
    /// the screen.
    fn mode0(&mut self, bus: &mut Bus)
        requires
            old(self).ly < 144,
            old(self)@.width == 160,
            old(self)@.screen.len() == 160 * 144,
        ensures
            final(self)@.screen == commit_line(
                old(self)@.screen,
                old(self)@.line_pixels,
                old(self).ly as int,
            ),
            final(self)@ == (PpuView { screen: final(self)@.screen, ..old(self)@ }),
            final(bus)@ == (BusView { oam_lock: false, vram_lock: false, ..old(bus)@ }),
    {
        self.vram.unlock_oam(bus);
        self.vram.unlock_vram(bus);
        let line = self.ly as usize;
        let mut x: usize = 0;
        while x < 160
            invariant
                x <= 160,
                line == self.ly,
                line < 144,
                self.screen_array.width == 160,
                self.screen_array.pixelcolor_vec@.len() == 160 * 144,
                forall|i: int|
                    0 <= i < 160 * 144 ==> self.screen_array.pixelcolor_vec@[i] == if line * 160
                        <= i < line * 160 + x {
                        shade_colour(self.line_pixels@[i - line * 160])
                    } else {
                        old(self)@.screen[i]
                    },
                self@ == (PpuView { screen: self@.screen, ..old(self)@ }),
            decreases 160 - x,
        {
            self.screen_array.set_x_y_gray(x, line, 3 - self.line_pixels[x] % 4);
            x += 1;
        }
        proof {
            reveal(commit_line);
        }
        assert(self@.screen =~= commit_line(
            old(self)@.screen,
            old(self)@.line_pixels,
            old(self).ly as int,
        ));
    }

    /// Mode 1 begins: video memory is free.
    fn mode1(&mut self, bus: &mut Bus)
        ensures
            *final(self) == *old(self),
            final(bus)@ == (BusView { oam_lock: false, vram_lock: false, ..old(bus)@ }),
    {
        self.vram.unlock_oam(bus);
        self.vram.unlock_vram(bus);
    }

    /// Does what the dot of the frame that was reached asks for: where a
    /// mode begins, the work of its first dot.
    #[verifier::rlimit(30)]
    fn tick_mode(&mut self, bus: &mut Bus)
        requires
            old(self)@.width == 160,
            old(self)@.screen.len() == 160 * 144,
            old(self).dots_counter_frame < 70224,
            old(self).dots_counter_line == old(self).dots_counter_frame % 456,
            old(self).ly == ly_at(old(self).dots_counter_frame as int),
        ensures
            final(bus)@ == ppu_locks(old(bus)@, old(self).dots_counter_frame as int),
            final(self)@ == ({
                let position = old(self).dots_counter_frame as int;
                let line = position / 456;
                let dot = position % 456;
                let renders = line < 144 && dot == 0;
                PpuView {
                    mode: mode_at(position),
                    mode_dot: mode_dots_at(position),
                    window_line: if renders && window_on_line(old(bus)@, line as u8) {
                        ((old(self).window_line + 1) % 256) as u8
                    } else {
                        old(self).window_line
                    },
                    line_pixels: if renders {
                        render_line_spec(old(bus)@, line as u8, old(self).window_line)
                    } else {
                        old(self)@.line_pixels
                    },
                    screen: if line < 144 && dot == 252 {
                        commit_line(old(self)@.screen, old(self)@.line_pixels, line)
                    } else {
                        old(self)@.screen
                    },
                    ..old(self)@
                }
            }),
    {
        let line = self.dots_counter_frame / DOTS_PER_LINE;
        let dot = self.dots_counter_line;
        if line >= GAMEBOY_SCREEN_HEIGHT {
            self.current_mode = PPUModes::Mode1;
            self.dots_counter_mode = self.dots_counter_frame - VBLANK_START;
            if self.dots_counter_mode == 0 {
                self.mode1(bus);
            }
        } else if dot < MODE_2_DOTS {
            self.current_mode = PPUModes::Mode2;
            self.dots_counter_mode = dot;
            if dot == 0 {
                self.mode2(bus);
            }
        } else if dot < MODE_2_DOTS + MODE_3_DOTS {
            self.current_mode = PPUModes::Mode3;
            self.dots_counter_mode = dot - MODE_2_DOTS;
            if self.dots_counter_mode == 0 {
                self.mode3(bus);
            }
        } else {
            self.current_mode = PPUModes::Mode0;
            self.dots_counter_mode = dot - MODE_2_DOTS - MODE_3_DOTS;
            if self.dots_counter_mode == 0 {
                self.mode0(bus);
            }
        }
    }

    /// Sets the line register, the match with the line compare register and
    /// the mode in the status register.
    fn update_ly(&mut self, bus: &mut Bus)
        requires
            old(self).dots_counter_frame < 70224,
            old(self).current_mode == mode_at(old(self).dots_counter_frame as int),
        ensures
            final(bus)@ == ppu_status(old(bus)@, old(self).dots_counter_frame as int),
            *final(self) == (PPU {
                ly: ly_at(old(self).dots_counter_frame as int),
                ..*old(self)
            }),
    {
        let line = self.dots_counter_frame / DOTS_PER_LINE;
        let dot = self.dots_counter_frame % DOTS_PER_LINE;
        self.ly = if line == 153 && dot >= 4 {
            0
        } else {
            line as u8
        };
        let lyc = self.lcd_status.get_lyc(bus);
        self.vram.set_ly(bus, self.ly);
        self.lcd_status.set_lyc_ly(bus, self.ly == lyc);
        let mode = self.current_mode;
        self.lcd_status.set_ppu_mode(bus, &mode);
    }

    /// Whether the status interrupt line is high.
    fn stat_line_level(&self, bus: &Bus) -> (level: bool)
        ensures
            level == stat_level(bus@.read(STAT), self.current_mode),
    {
        let status = bus.read_byte(STAT);
        (status.get_bit(2) && status.get_bit(6)) || (matches!(self.current_mode, PPUModes::Mode0)
            && status.get_bit(3)) || (matches!(self.current_mode, PPUModes::Mode1)
            && status.get_bit(4)) || (matches!(self.current_mode, PPUModes::Mode2)
            && status.get_bit(5))
    }

    /// Switches the pixel unit off: it rests at the start of the frame in
    /// mode 0, the screen is white, and video memory is free.
    fn switch_off(&mut self, bus: &mut Bus)
        requires
            old(self)@.wf(),
        ensures
            final(self)@ == old(self)@.switched_off(),
            final(bus)@ == (BusView { oam_lock: false, vram_lock: false, ..old(bus)@ }).write(
                LY,
                0,
            ).write_bit(STAT, 0, false).write_bit(STAT, 1, false),
    {
        self.current_mode = PPUModes::Mode0;
        self.dots_counter_frame = 0;
        self.dots_counter_line = 0;
        self.dots_counter_mode = 0;
        self.ly = 0;
        self.window_line = 0;
        self.stat_line = false;
        self.lcd_on = false;
        let mut i: usize = 0;
        while i < self.screen_array.pixelcolor_vec.len()
            invariant
                i <= self.screen_array.pixelcolor_vec@.len(),
                self.screen_array.pixelcolor_vec@.len() == old(self)@.screen.len(),
                forall|j: int| 0 <= j < i ==> self.screen_array.pixelcolor_vec@[j] == 0x00FF_FFFFu32,
                self@ == (PpuView { screen: self@.screen, ..old(self)@.switched_off() }),
            decreases self.screen_array.pixelcolor_vec@.len() - i,
        {
            self.screen_array.pixelcolor_vec[i] = 0x00FF_FFFF;
            i += 1;
        }
        assert(self@.screen =~= old(self)@.switched_off().screen);
        self.vram.unlock_oam(bus);
        self.vram.unlock_vram(bus);
        self.vram.set_ly(bus, 0);
        let mode = PPUModes::Mode0;
        self.lcd_status.set_ppu_mode(bus, &mode);
    }

    /// Whether a fresh picture is ready: the vertical blank has just begun.
    pub fn frame_ready(&self) -> (ready: bool)
        ensures
            ready == (self@.lcd_on && self@.mode == PPUModes::Mode1 && self@.mode_dot == 0),
    {
        self.lcd_on && matches!(self.current_mode, PPUModes::Mode1) && self.dots_counter_mode == 0
    }

    /// Whether the pixel unit is well-formed: the screen is 160 by 144 and
    /// the counters, the mode and the line agree with the dot of the frame.
    pub fn is_well_formed(&self) -> (sound: bool)
        ensures
            sound == self@.wf(),
    {
        if self.screen_array.width != GAMEBOY_SCREEN_WIDTH || self.screen_array.pixelcolor_vec.len()
            != GAMEBOY_SCREEN_WIDTH * GAMEBOY_SCREEN_HEIGHT || self.dots_counter_frame
            >= DOTS_PER_FRAME || self.dots_counter_line != self.dots_counter_frame % DOTS_PER_LINE {
            return false;
        }
        if !self.lcd_on {
            return self.dots_counter_frame == 0 && matches!(self.current_mode, PPUModes::Mode0)
                && self.dots_counter_mode == 0 && self.ly == 0;
        }
        let line = self.dots_counter_frame / DOTS_PER_LINE;
        let dot = self.dots_counter_line;
        let ly: u8 = if line == 153 && dot >= 4 {
            0
        } else {
            line as u8
        };
        if self.ly != ly {
            return false;
        }
        if line >= GAMEBOY_SCREEN_HEIGHT {
            matches!(self.current_mode, PPUModes::Mode1) && self.dots_counter_mode
                == self.dots_counter_frame - VBLANK_START
        } else if dot < MODE_2_DOTS {
            matches!(self.current_mode, PPUModes::Mode2) && self.dots_counter_mode == dot
        } else if dot < MODE_2_DOTS + MODE_3_DOTS {
            matches!(self.current_mode, PPUModes::Mode3) && self.dots_counter_mode == dot
                - MODE_2_DOTS
        } else {
            matches!(self.current_mode, PPUModes::Mode0) && self.dots_counter_mode == dot
                - MODE_2_DOTS - MODE_3_DOTS
        }
    }

    /// Moves the counters to the next dot of the frame.
    fn advance_counters(&mut self)
        requires
            old(self)@.wf(),
        ensures
            final(self)@ == ({
                let position = old(self)@.next_position();
                PpuView {
                    frame_dot: position,
                    line_dot: position % 456,
                    ly: ly_at(position),
                    window_line: if position == 0 {
                        0u8
                    } else {
                        old(self).window_line
                    },
                    lcd_on: true,
                    ..old(self)@
                }
            }),
            final(self).dots_counter_frame < 70224,
    {
        // one dot per clock cycle
        if self.lcd_on {
            self.dots_counter_frame += 1;
            if self.dots_counter_frame >= DOTS_PER_FRAME {
                self.dots_counter_frame = 0
            }
        } else {
            self.dots_counter_frame = 0;
            self.lcd_on = true;
        }
        self.dots_counter_line = self.dots_counter_frame % DOTS_PER_LINE;
        if self.dots_counter_frame == 0 {
            self.window_line = 0;
        }
        let line = self.dots_counter_frame / DOTS_PER_LINE;
        self.ly = if line == 153 && self.dots_counter_line >= 4 {
            0
        } else {
            line as u8
        };
    }

    /// One clock cycle of the pixel unit: it moves to the next dot of the
    /// frame and does what that dot asks for.
    #[verifier::rlimit(30)]
    pub fn next_tick(&mut self, bus: &mut Bus)
        requires
            old(self)@.wf(),
        ensures
            final(self)@ == old(self)@.tick(old(bus)@),
            final(bus)@ == old(self)@.tick_bus(old(bus)@),
            final(self)@.wf(),
    {
        if !self.lcd_control.lcd_ppu_enable(bus) {
            if self.lcd_on {
                self.switch_off(bus);
            }
            return ;
        }
        proof {
            lemma_advanced_wf(self@, bus@);
        }
        self.advance_counters();
        self.tick_mode(bus);
        self.update_ly(bus);
        let level = self.stat_line_level(bus);
        if self.dots_counter_frame == VBLANK_START {
            bus.write_bit(IF, 0, true);
        }
        if level && !self.stat_line {
            bus.write_bit(IF, 1, true);
        }
        self.stat_line = level;
    }
}

/// Over the dots of one frame the frame counter takes each of its 70224
/// values once: after `k` clock cycles it stands at the start plus `k`,
/// modulo 70224, and two different numbers of cycles below 70224 give two
/// different values.
pub proof fn lemma_frame_sweep(start: int, k: int, other: int)
    requires
        0 <= start < 70224,
        0 <= k < 70224,
        0 <= other < 70224,
    ensures
        0 <= (start + k) % 70224 < 70224,
        k != other ==> (start + k) % 70224 != (start + other) % 70224,
        (start + ((k - start) % 70224)) % 70224 == k,
{
}

/// A line of shades has 160 of them, and a picture keeps its size when a
/// line is put on it.
pub proof fn lemma_line_lengths(bus: BusView, ly: u8, window_line: u8, screen: Seq<u32>, line: int)
    ensures
        render_line_spec(bus, ly, window_line).len() == 160,
        commit_line(screen, render_line_spec(bus, ly, window_line), line).len() == screen.len(),
        forall|shades: Seq<u8>| (#[trigger] commit_line(screen, shades, line)).len() == screen.len(),
{
    reveal(render_line_spec);
    reveal(commit_line);
}

/// A clock cycle with the display on keeps the pixel unit well-formed.
pub proof fn lemma_advanced_wf(ppu: PpuView, bus: BusView)
    requires
        ppu.wf(),
    ensures
        ppu.advanced(bus).wf(),
        ppu.switched_off().wf(),
{
    let position = ppu.next_position();
    lemma_line_lengths(bus, (position / 456) as u8, 0, ppu.screen, position / 456);
    lemma_line_lengths(bus, (position / 456) as u8, ppu.window_line, ppu.screen, position / 456);
}

/// The frame counter of a running pixel unit moves by one with each clock
/// cycle, modulo 70224, and the mode and the line follow it.
pub proof fn lemma_tick_advances(ppu: PpuView, bus: BusView)
    requires
        ppu.wf(),
        bus.wf(),
        ppu.lcd_on,
        lcd_enabled(bus),
    ensures
        ppu.tick(bus).wf(),
        ppu.tick(bus).frame_dot == (ppu.frame_dot + 1) % 70224,
        ppu.tick(bus).mode == mode_at(ppu.tick(bus).frame_dot),
        ppu.tick(bus).ly == ly_at(ppu.tick(bus).frame_dot),
        ppu.tick_bus(bus).read(LY) == ly_at(ppu.tick(bus).frame_dot),
{
    lemma_advanced_wf(ppu, bus);
}

/// On each of the 144 visible lines the modes follow each other as 2, 3
/// and 0: mode 2 for the first 80 dots, mode 3 for the next 172, mode 0
/// for the last 204. On each of the ten lines after them the mode is 1
/// throughout.
pub proof fn lemma_mode_sequence(line: int, dot: int)
    requires
        0 <= line < 154,
        0 <= dot < 456,
    ensures
        line < 144 && dot < 80 ==> mode_at(line * 456 + dot) == PPUModes::Mode2,
        line < 144 && 80 <= dot < 252 ==> mode_at(line * 456 + dot) == PPUModes::Mode3,
        line < 144 && 252 <= dot ==> mode_at(line * 456 + dot) == PPUModes::Mode0,
        line >= 144 ==> mode_at(line * 456 + dot) == PPUModes::Mode1,
{
    assert((line * 456 + dot) / 456 == line && (line * 456 + dot) % 456 == dot);
}

/// The line register shows each of the lines 0 to 153 for the 456 dots of
/// the line, but on line 153 it shows zero from the fifth dot on.
pub proof fn lemma_ly_sweep(line: int, dot: int)
    requires
        0 <= line < 154,
        0 <= dot < 456,
    ensures
        !(line == 153 && dot >= 4) ==> ly_at(line * 456 + dot) == line,
        line == 153 && dot >= 4 ==> ly_at(line * 456 + dot) == 0,
{
    assert((line * 456 + dot) / 456 == line && (line * 456 + dot) % 456 == dot);
}

/// How often the vertical blank interrupt is asked for in `n` clock cycles
/// of a running pixel unit whose next cycle reaches dot `position`.
pub open spec fn vblank_requests(position: int, n: nat) -> nat
    decreases n,
{
    if n == 0 {
        0
    } else {
        vblank_requests(position, (n - 1) as nat) + if (position + n - 1) % 70224 == 65664 {
            1nat
        } else {
            0nat
        }
    }
}

/// A clock cycle of the running pixel unit asks for the vertical blank
/// interrupt exactly when it reaches the first dot of line 144.
pub proof fn lemma_vblank_request(ppu: PpuView, bus: BusView)
    requires
        ppu.wf(),
        bus.wf(),
        lcd_enabled(bus),
    ensures
        ppu.next_position() == 65664 ==> byte_bit(ppu.tick_bus(bus).read(IF), 0),
        ppu.next_position() != 65664 ==> byte_bit(ppu.tick_bus(bus).read(IF), 0) == byte_bit(
            bus.read(IF),
            0,
        ),
        ppu.next_position() == 65664 <==> (ppu.tick(bus).mode == PPUModes::Mode1
            && ppu.tick(bus).mode_dot == 0),
{
    let position = ppu.next_position();
    let status = ppu_status(ppu_locks(bus, position), position);
    assert(status.read(IF) == bus.read(IF));
    let flags = status.read(IF);
    crate::util::u8_traits::lemma_bit_after_set(flags, 0);
    crate::util::u8_traits::lemma_bits_apart(flags, 0, 1, true);
    crate::util::u8_traits::lemma_bits_apart(
        crate::util::u8_traits::byte_with_bit(flags, 0, true),
        0,
        1,
        true,
    );
}

/// In `n` clock cycles from dot `position` the vertical blank interrupt is
/// asked for once for every time the frame counter reaches dot 65664.
pub proof fn lemma_vblank_requests(position: int, n: nat)
    requires
        0 <= position,
    ensures
        vblank_requests(position, n) == (position + n + 4559) / 70224 - (position + 4559) / 70224,
    decreases n,
{
    if n > 0 {
        lemma_vblank_requests(position, (n - 1) as nat);
    }
}

/// In the 70224 clock cycles of a frame the vertical blank interrupt is
/// asked for exactly once.
pub proof fn lemma_vblank_once_per_frame(position: int)
    requires
        0 <= position < 70224,
    ensures
        vblank_requests(position, 70224) == 1,
{
    lemma_vblank_requests(position, 70224);
}

/// Every chosen object reaches the line.
proof fn lemma_selected_on_line(bus: BusView, ly: u8, n: nat)
    ensures
        forall|j: int|
            0 <= j < selected_sprites(bus, ly, n).len() ==> sprite_on_line(
                #[trigger] selected_sprites(bus, ly, n)[j],
                ly,
                sprite_height(bus),
            ),
        selected_sprites(bus, ly, n).len() <= 10,
    decreases n,
{
    if n > 0 {
        lemma_selected_on_line(bus, ly, (n - 1) as nat);
    }
}

} // verus!

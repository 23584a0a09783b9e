use crate::util::u8_traits::{byte_bit, Bit};
use crate::windows::game_window::{from_u32_gray_to_rgb, gray_to_rgb_spec};
use vstd::prelude::*;

verus! {

pub const TILE_BYTE_SIZE: usize = 16usize;

pub const VRAM_BYTE_SIZE: usize = 6144usize;

/// The colour index of pixel `col` (0 is the leftmost) of a tile row: the
/// bit of the high byte counts two, the bit of the low byte one.
pub open spec fn pixel_of_row(l: u8, h: u8, col: int) -> u8 {
    ((if byte_bit(h, (7 - col) as u8) { 2int } else { 0int }) + (if byte_bit(l, (7 - col) as u8) {
        1int
    } else {
        0int
    })) as u8
}

/// The eight colour indices of a tile row, leftmost first.
pub open spec fn tile_fuse_byte_spec(l: u8, h: u8) -> Seq<u8> {
    Seq::new(8, |col: int| pixel_of_row(l, h, col))
}

/// The gray level of a shade: 85 for each step, at most 255.
pub open spec fn gray_level(gray: u8) -> u8 {
    if gray >= 3 {
        255
    } else {
        (gray * 85) as u8
    }
}

/// The colour of a shade: its gray level in red, green and blue.
pub open spec fn gray_to_colour(gray: u8) -> u32 {
    (gray_level(gray) * 0x1_0101) as u32
}

/// The colour that the debug view gives a colour index.
pub open spec fn index_to_colour(pixel: u32) -> u32 {
    gray_to_rgb_spec(if pixel * 85 > u32::MAX { u32::MAX } else { (pixel * 85) as u32 })
}

/// A picture: its pixels line after line, and the length of a line.
#[derive(Debug)]
pub struct ScreenVector {
    pub pixelcolor_vec: Vec<u32>,
    pub width: usize,
}

impl ScreenVector {
    pub fn new_with_screen_size(width: usize, height: usize) -> (screen: ScreenVector)
        requires
            width * height <= usize::MAX,
        ensures
            screen.width == width,
            screen.pixelcolor_vec@ == Seq::new((width * height) as nat, |i: int| 0u32),
    {
        let length = width * height;
        let screen = ScreenVector { pixelcolor_vec: vec![0u32; length], width };
        assert(screen.pixelcolor_vec@ =~= Seq::new((width * height) as nat, |i: int| 0u32));
        screen
    }

    pub fn new(vector: Vec<u32>, width: usize) -> (screen: ScreenVector)
        ensures
            screen.width == width,
            screen.pixelcolor_vec == vector,
    {
        ScreenVector { pixelcolor_vec: vector, width }
    }

    pub open spec fn spec_height(&self) -> int {
        self.pixelcolor_vec@.len() as int / self.width as int
    }

    pub fn set_x_y_gray(&mut self, x: usize, y: usize, gray_value: u8)
        requires
            old(self).width > 0,
            x < old(self).width,
            y < old(self).spec_height(),
        ensures
            final(self).width == old(self).width,
            final(self).pixelcolor_vec@ == old(self).pixelcolor_vec@.update(
                x + y * old(self).width,
                gray_to_colour(gray_value),
            ),
    {
        let len = self.pixelcolor_vec.len();
        proof {
            lemma_cell_in_range(x as int, y as int, self.width as int, len as int);
        }
        let at = x + y * self.width;
        self.pixelcolor_vec[at] = from_u8_gray_to_rgb(gray_value)
    }

    pub fn height(&self) -> (height: usize)
        requires
            self.width > 0,
        ensures
            height == self.spec_height(),
    {
        self.pixelcolor_vec.len() / self.width
    }

    pub fn from_gray_vec_to_screen_vec(&mut self)
        ensures
            final(self).width == old(self).width,
            final(self).pixelcolor_vec@ == old(self).pixelcolor_vec@.map_values(
                |pixel: u32| index_to_colour(pixel),
            ),
    {
        let mut i: usize = 0;
        while i < self.pixelcolor_vec.len()
            invariant
                i <= self.pixelcolor_vec@.len(),
                self.width == old(self).width,
                self.pixelcolor_vec@.len() == old(self).pixelcolor_vec@.len(),
                forall|j: int|
                    0 <= j < i ==> self.pixelcolor_vec@[j] == index_to_colour(
                        old(self).pixelcolor_vec@[j],
                    ),
                forall|j: int|
                    i <= j < self.pixelcolor_vec@.len() ==> self.pixelcolor_vec@[j] == old(
                        self,
                    ).pixelcolor_vec@[j],
            decreases self.pixelcolor_vec@.len() - i,
        {
            let pixel = self.pixelcolor_vec[i];
            let level = if pixel > u32::MAX / 85 {
                u32::MAX
            } else {
                pixel * 85
            };
            self.pixelcolor_vec[i] = from_u32_gray_to_rgb(level);
            i += 1;
        }
        assert(self.pixelcolor_vec@ =~= old(self).pixelcolor_vec@.map_values(
            |pixel: u32| index_to_colour(pixel),
        ));
    }
}

proof fn lemma_cell_in_range(x: int, y: int, width: int, len: int)
    requires
        0 <= x < width,
        0 <= y < len / width,
        0 <= len,
    ensures
        0 <= y * width <= x + y * width < len,
{
    assert(y * width >= 0) by (nonlinear_arith)
        requires
            y >= 0,
            width > 0,
    ;
    assert((y + 1) * width <= (len / width) * width) by (nonlinear_arith)
        requires
            y + 1 <= len / width,
            width > 0,
    ;
    assert((len / width) * width <= len) by (nonlinear_arith)
        requires
            width > 0,
            len >= 0,
    ;
    assert((y + 1) * width == y * width + width) by (nonlinear_arith);
}

/// Tile memory laid out for display: its bytes line after line, and the
/// bytes of a line.
#[derive(Debug)]
pub struct TileVector {
    pub tile_vec: Vec<u8>,
    pub bytes_per_line: usize,
}

impl TileVector {
    pub fn new(vector: Vec<u8>, width: usize) -> (tiles: TileVector)
        ensures
            tiles.tile_vec == vector,
            tiles.bytes_per_line == width,
    {
        TileVector { tile_vec: vector, bytes_per_line: width }
    }

    pub fn height(&self) -> (height: usize)
        requires
            self.bytes_per_line > 0,
        ensures
            height == self.tile_vec@.len() as int / self.bytes_per_line as int,
    {
        self.tile_vec.len() / self.bytes_per_line
    }
}

/// The eight colour indices of a tile row, leftmost first.
pub fn tile_fuse_byte_u8(l: u8, h: u8) -> (row: Vec<u8>)
    ensures
        row@ == tile_fuse_byte_spec(l, h),
{
    let h_bits = h.to_bits_array();
    let l_bits = l.to_bits_array();
    let mut row: Vec<u8> = Vec::new();
    let mut i: usize = 0;
    while i < 8
        invariant
            i <= 8,
            row@.len() == i,
            h_bits@ == h.spec_bits(),
            l_bits@ == l.spec_bits(),
            forall|j: int| 0 <= j < i ==> row@[j] == pixel_of_row(l, h, j),
        decreases 8 - i,
    {
        row.push(h_bits[i] * 2 + l_bits[i]);
        i += 1;
    }
    assert(row@ =~= tile_fuse_byte_spec(l, h));
    row
}

/// The eight colour indices of a tile row as 32-bit values.
pub fn tile_fuse_byte(l: u8, h: u8) -> (row: Vec<u32>)
    ensures
        row@ == tile_fuse_byte_spec(l, h).map_values(|pixel: u8| pixel as u32),
{
    let narrow = tile_fuse_byte_u8(l, h);
    let mut row: Vec<u32> = Vec::new();
    let mut i: usize = 0;
    while i < 8
        invariant
            i <= 8,
            row@.len() == i,
            narrow@ == tile_fuse_byte_spec(l, h),
            forall|j: int| 0 <= j < i ==> row@[j] == narrow@[j] as u32,
        decreases 8 - i,
    {
        row.push(narrow[i] as u32);
        i += 1;
    }
    assert(row@ =~= tile_fuse_byte_spec(l, h).map_values(|pixel: u8| pixel as u32));
    row
}

/// Where byte `i` of tile memory goes when the tiles are laid out side by
/// side, `tile_per_line` to a row: the two bytes of each tile row stay
/// together, the eight rows of a tile go below each other, and the tiles
/// of a row of tiles go next to each other.
pub open spec fn tile_layout_index(i: int, tile_per_line: int) -> int {
    let byte_per_line = tile_per_line * 2;
    let pair = byte_per_line * ((i / 2) % 8);
    let tile = (2 * (i / 16) + (i % 2)) % (tile_per_line * 2);
    let block = (8 * byte_per_line) * (i / (8 * byte_per_line));
    pair + tile + block
}

/// The laid-out tile memory after the first `n` bytes of `vram` have been
/// placed into a zeroed buffer.
pub open spec fn tile_layout(vram: Seq<u8>, tile_per_line: int, n: nat) -> Seq<u8>
    decreases n,
{
    if n == 0 {
        Seq::new(VRAM_BYTE_SIZE as nat, |i: int| 0u8)
    } else {
        let before = tile_layout(vram, tile_per_line, (n - 1) as nat);
        let at = tile_layout_index(n - 1, tile_per_line);
        if 0 <= at < VRAM_BYTE_SIZE {
            before.update(at, vram[n - 1])
        } else {
            before
        }
    }
}

/// Lays tile memory out for display, `tile_per_line` tiles to a row.
pub fn vram_to_tile_vec(vram: Vec<u8>, tile_per_line: u8) -> (tiles: TileVector)
    requires
        tile_per_line > 0,
        vram@.len() + 4080 <= usize::MAX,
    ensures
        tiles.bytes_per_line == tile_per_line * 2,
        tiles.tile_vec@ == tile_layout(vram@, tile_per_line as int, vram@.len()),
        tiles.tile_vec@.len() == VRAM_BYTE_SIZE,
{
    let tile_per_line = tile_per_line as usize;
    let byte_per_line = tile_per_line * 2;
    let mut buf: Vec<u8> = vec![0; VRAM_BYTE_SIZE];
    assert(buf@ =~= tile_layout(vram@, tile_per_line as int, 0));
    let mut i: usize = 0;
    while i < vram.len()
        invariant
            i <= vram@.len(),
            vram@.len() + 4080 <= usize::MAX,
            0 < tile_per_line <= 255,
            byte_per_line == tile_per_line * 2,
            buf@.len() == VRAM_BYTE_SIZE,
            buf@ == tile_layout(vram@, tile_per_line as int, i as nat),
        decreases vram@.len() - i,
    {
        // the row within the tile
        let row = (i / 2) % 8;
        assert(byte_per_line * row <= 3570) by (nonlinear_arith)
            requires
                byte_per_line <= 510,
                row <= 7,
        ;
        let pair = byte_per_line * row;
        // the tile within the row of tiles
        let tile = (2 * (i / 16) + (i % 2)) % (tile_per_line * 2);
        // the row of tiles
        let chunk = 8 * byte_per_line;
        let blocks = i / chunk;
        assert(chunk * blocks <= i) by (nonlinear_arith)
            requires
                blocks as int == i as int / chunk as int,
                chunk > 0,
        ;
        let block = chunk * blocks;
        let new_i = pair + tile + block;
        if new_i < VRAM_BYTE_SIZE {
            buf[new_i] = vram[i];
        }
        i += 1;
    }
    TileVector { tile_vec: buf, bytes_per_line: byte_per_line }
}

/// The colour indices of laid-out tile memory: eight for each pair of
/// bytes.
pub open spec fn tile_pixels(bytes: Seq<u8>) -> Seq<u32> {
    Seq::new(
        ((bytes.len() / 2) * 8) as nat,
        |i: int| pixel_of_row(bytes[2 * (i / 8)], bytes[2 * (i / 8) + 1], i % 8) as u32,
    )
}

pub fn from_tile_vec_to_gray_vec(byte_vec: TileVector) -> (screen: ScreenVector)
    requires
        byte_vec.bytes_per_line <= usize::MAX / 4,
    ensures
        screen.width == byte_vec.bytes_per_line * 4,
        screen.pixelcolor_vec@ == tile_pixels(byte_vec.tile_vec@),
{
    let mut gray_vec: Vec<u32> = Vec::new();
    let pairs = byte_vec.tile_vec.len() / 2;
    let mut i: usize = 0;
    while i < pairs
        invariant
            i <= pairs,
            pairs == byte_vec.tile_vec@.len() / 2,
            byte_vec.tile_vec@.len() <= usize::MAX,
            gray_vec@.len() == i * 8,
            forall|j: int|
                0 <= j < i * 8 ==> gray_vec@[j] == pixel_of_row(
                    byte_vec.tile_vec@[2 * (j / 8)],
                    byte_vec.tile_vec@[2 * (j / 8) + 1],
                    j % 8,
                ) as u32,
        decreases pairs - i,
    {
        let l = byte_vec.tile_vec[2 * i];
        let h = byte_vec.tile_vec[2 * i + 1];
        let row = tile_fuse_byte(l, h);
        let mut k: usize = 0;
        while k < 8
            invariant
                k <= 8,
                i < pairs,
                pairs == byte_vec.tile_vec@.len() / 2,
                l == byte_vec.tile_vec@[2 * i],
                h == byte_vec.tile_vec@[2 * i + 1],
                row@ == tile_fuse_byte_spec(l, h).map_values(|pixel: u8| pixel as u32),
                gray_vec@.len() == i * 8 + k,
                forall|j: int|
                    0 <= j < i * 8 + k ==> gray_vec@[j] == pixel_of_row(
                        byte_vec.tile_vec@[2 * (j / 8)],
                        byte_vec.tile_vec@[2 * (j / 8) + 1],
                        j % 8,
                    ) as u32,
            decreases 8 - k,
        {
            gray_vec.push(row[k]);
            k += 1;
        }
        i += 1;
    }
    assert(gray_vec@ =~= tile_pixels(byte_vec.tile_vec@));
    ScreenVector { pixelcolor_vec: gray_vec, width: byte_vec.bytes_per_line * 4 }
}

/// The picture of tile memory, `tile_per_line` tiles to a row, in colours.
pub fn vram_to_screen(vram: Vec<u8>, tile_per_line: u8) -> (screen: ScreenVector)
    requires
        tile_per_line > 0,
        vram@.len() + 4080 <= usize::MAX,
    ensures
        screen.width == tile_per_line * 8,
        screen.pixelcolor_vec@ == tile_pixels(
            tile_layout(vram@, tile_per_line as int, vram@.len()),
        ).map_values(|pixel: u32| index_to_colour(pixel)),
{
    let tile_vec = vram_to_tile_vec(vram, tile_per_line);
    let mut gray_vec = from_tile_vec_to_gray_vec(tile_vec);
    gray_vec.from_gray_vec_to_screen_vec();
    gray_vec
}

pub fn from_u8_gray_to_rgb(gray: u8) -> (colour: u32)
    ensures
        colour == gray_to_colour(gray),
{
    let level: u8 = if gray > 3 {
        255
    } else {
        gray * 85
    };
    from_u32_gray_to_rgb(level as u32)
}

} // verus!

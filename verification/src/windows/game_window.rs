use vstd::prelude::*;

verus! {

pub const GAMEBOY_SCREEN_WIDTH: usize = 160usize;

pub const GAMEBOY_SCREEN_HEIGHT: usize = 144usize;

/// A colour with the same level in its red, green and blue byte. A level
/// above 255 spills into the higher bytes.
pub open spec fn gray_to_rgb_spec(gray: u32) -> u32 {
    (gray << 16u32) | (gray << 8u32) | gray
}

/// The colour with the given red, green and blue levels.
pub open spec fn rgb_spec(r: u8, g: u8, b: u8) -> u32 {
    (r * 0x1_0000 + g * 0x100 + b) as u32
}

proof fn lemma_rgb_bytes(r: u32, g: u32, b: u32)
    by (bit_vector)
    requires
        r < 256,
        g < 256,
        b < 256,
    ensures
        (r << 16u32) | (g << 8u32) | b == r * 0x1_0000 + g * 0x100 + b,
{
}

pub fn from_u32_gray_to_rgb(gray: u32) -> (colour: u32)
    ensures
        colour == gray_to_rgb_spec(gray),
        gray < 256 ==> colour == gray * 0x1_0101,
{
    proof {
        if gray < 256 {
            lemma_rgb_bytes(gray, gray, gray);
        }
    }
    let (r, g, b) = (gray, gray, gray);
    (r << 16) | (g << 8) | b
}

pub fn from_u8_rgb(r: u8, g: u8, b: u8) -> (colour: u32)
    ensures
        colour == rgb_spec(r, g, b),
{
    proof {
        lemma_rgb_bytes(r as u32, g as u32, b as u32);
    }
    let (r, g, b) = (r as u32, g as u32, b as u32);
    (r << 16) | (g << 8) | b
}

} // verus!

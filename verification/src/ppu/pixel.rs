//! Pixels: how a tile row becomes pixels, which of two pixels is shown, and what
//! colour a pixel has on the screen.
//!
//! A pixel in a queue is one byte: the colour index in bits 0 and 1, the palette
//! number in bits 2 to 4, and in bit 7 the priority attribute of the tile or
//! sprite it came from.

use vstd::prelude::*;
use crate::bits::{bit_value, bit_weight, get_bit};

verus! {

/// A colour on the screen: red, green, blue and alpha.
#[derive(Clone, Copy, Debug, PartialEq, Eq, Structural)]
pub struct Rgba {
    pub r: u8,
    pub g: u8,
    pub b: u8,
    pub a: u8,
}

/// The colour index of a pixel, 0 to 3.
#[verifier::allow_in_spec]
pub fn pixel_color(pixel: u8) -> u8
    returns
        pixel % 4,
{
    pixel % 4
}

/// The palette number of a pixel, 0 to 7.
#[verifier::allow_in_spec]
pub fn pixel_palette(pixel: u8) -> u8
    returns
        (pixel / 4) % 8,
{
    (pixel / 4) % 8
}

/// The priority attribute of a pixel.
#[verifier::allow_in_spec]
pub fn pixel_priority(pixel: u8) -> bool
    returns
        pixel >= 128,
{
    pixel >= 128
}

/// The pixel with the given colour index, palette number and priority attribute.
pub open spec fn make_pixel_spec(color: int, palette: u8, priority: bool) -> u8 {
    (color % 4 + (palette % 8) * 4 + (if priority {
        128int
    } else {
        0
    })) as u8
}

/// The colour index of pixel `i` of a tile row, counted from the left: bit `7 - i`
/// of the low byte, and above it the same bit of the high byte. A flipped row is
/// read from the other end.
pub open spec fn row_color(low: u8, high: u8, i: u8, flip: bool) -> int {
    let bit = if flip {
        i
    } else {
        (7 - i) as u8
    };
    bit_value(low, bit) + 2 * bit_value(high, bit)
}

/// The eight pixels of a tile row, from the left.
pub open spec fn tile_row_spec(low: u8, high: u8, palette: u8, priority: bool, flip: bool) -> [u8; 8] {
    [
        make_pixel_spec(row_color(low, high, 0, flip), palette, priority),
        make_pixel_spec(row_color(low, high, 1, flip), palette, priority),
        make_pixel_spec(row_color(low, high, 2, flip), palette, priority),
        make_pixel_spec(row_color(low, high, 3, flip), palette, priority),
        make_pixel_spec(row_color(low, high, 4, flip), palette, priority),
        make_pixel_spec(row_color(low, high, 5, flip), palette, priority),
        make_pixel_spec(row_color(low, high, 6, flip), palette, priority),
        make_pixel_spec(row_color(low, high, 7, flip), palette, priority),
    ]
}

/// Whether the sprite pixel is shown in front of the background pixel: sprites
/// are switched on, the sprite pixel is not of colour 0, and it is not one that
/// yields to a background pixel of another colour than 0.
pub open spec fn sprite_wins(background: u8, sprite: Option<u8>, sprites_enabled: bool) -> bool {
    match sprite {
        Some(s) => sprites_enabled && pixel_color(s) != 0 && !(pixel_priority(s) && pixel_color(
            background,
        ) != 0),
        None => false,
    }
}

/// The shade, 0 to 3, that a greyscale palette register gives a colour index: the
/// two bits at position `2 * color`.
pub open spec fn shade_spec(palette: u8, color: u8) -> u8 {
    ((palette as int / bit_weight((2 * (color % 4)) as u8)) % 4) as u8
}

/// The brightness of a shade: 0 is white, 3 is black.
pub open spec fn grey_spec(shade: u8) -> u8 {
    if shade % 4 == 0 {
        0xFF
    } else if shade % 4 == 1 {
        0xAA
    } else if shade % 4 == 2 {
        0x55
    } else {
        0x00
    }
}

/// The screen colour of a shade: its brightness in all three channels.
pub open spec fn grey_rgba(shade: u8) -> Rgba {
    Rgba { r: grey_spec(shade), g: grey_spec(shade), b: grey_spec(shade), a: 0xFF }
}

/// A five-bit colour channel widened to eight bits.
pub open spec fn widen_channel(c: int) -> u8 {
    (c * 8 + c / 4) as u8
}

/// The screen colour of a 15-bit colour given as its two bytes: red in bits 0 to
/// 4, green in bits 5 to 9, blue in bits 10 to 14.
pub open spec fn rgb555_rgba(low: u8, high: u8) -> Rgba {
    let v = low + 256 * high;
    Rgba {
        r: widen_channel(v % 32),
        g: widen_channel((v / 32) % 32),
        b: widen_channel((v / 1024) % 32),
        a: 0xFF,
    }
}

/// Packs a colour index, a palette number and a priority attribute into a pixel.
pub fn make_pixel(color: u8, palette: u8, priority: bool) -> (r: u8)
    ensures
        r == make_pixel_spec(color as int, palette, priority),
{
    let base: u8 = color % 4 + (palette % 8) * 4;
    if priority {
        base + 128
    } else {
        base
    }
}

fn row_pixel(low: u8, high: u8, i: u8, palette: u8, priority: bool, flip: bool) -> (r: u8)
    requires
        i < 8,
    ensures
        r == make_pixel_spec(row_color(low, high, i, flip), palette, priority),
{
    let bit: u8 = if flip {
        i
    } else {
        7 - i
    };
    let mut color: u8 = 0;
    if get_bit(low, bit) {
        color = color + 1;
    }
    if get_bit(high, bit) {
        color = color + 2;
    }
    make_pixel(color, palette, priority)
}

/// Turns the two bytes of a tile row into its eight pixels.
pub fn tile_row(low: u8, high: u8, palette: u8, priority: bool, flip: bool) -> (r: [u8; 8])
    ensures
        r == tile_row_spec(low, high, palette, priority, flip),
{
    [
        row_pixel(low, high, 0, palette, priority, flip),
        row_pixel(low, high, 1, palette, priority, flip),
        row_pixel(low, high, 2, palette, priority, flip),
        row_pixel(low, high, 3, palette, priority, flip),
        row_pixel(low, high, 4, palette, priority, flip),
        row_pixel(low, high, 5, palette, priority, flip),
        row_pixel(low, high, 6, palette, priority, flip),
        row_pixel(low, high, 7, palette, priority, flip),
    ]
}

/// Decides whether the sprite pixel is shown in front of the background pixel.
pub fn choose_sprite(background: u8, sprite: Option<u8>, sprites_enabled: bool) -> (r: bool)
    ensures
        r == sprite_wins(background, sprite, sprites_enabled),
{
    match sprite {
        Some(s) => sprites_enabled && s % 4 != 0 && !(s >= 128 && background % 4 != 0),
        None => false,
    }
}

/// Looks a colour index up in a greyscale palette register.
pub fn shade(palette: u8, color: u8) -> (r: u8)
    ensures
        r == shade_spec(palette, color),
        r < 4,
{
    match color % 4 {
        0 => palette % 4,
        1 => (palette / 4) % 4,
        2 => (palette / 16) % 4,
        _ => (palette / 64) % 4,
    }
}

/// The screen colour of a shade.
pub fn grey(shade: u8) -> (r: Rgba)
    ensures
        r == grey_rgba(shade),
{
    let level: u8 = match shade % 4 {
        0 => 0xFF,
        1 => 0xAA,
        2 => 0x55,
        _ => 0x00,
    };
    Rgba { r: level, g: level, b: level, a: 0xFF }
}

/// The screen colour of a 15-bit colour.
pub fn rgb555(low: u8, high: u8) -> (r: Rgba)
    ensures
        r == rgb555_rgba(low, high),
{
    let v: u16 = low as u16 + 256 * (high as u16);
    let red: u8 = (v % 32) as u8;
    let green: u8 = ((v / 32) % 32) as u8;
    let blue: u8 = ((v / 1024) % 32) as u8;
    Rgba {
        r: red * 8 + red / 4,
        g: green * 8 + green / 4,
        b: blue * 8 + blue / 4,
        a: 0xFF,
    }
}

/// A row whose two bytes are zero is of colour 0 everywhere.
pub proof fn lemma_blank_row(low: u8, high: u8, flip: bool)
    ensures
        (low == 0 && high == 0) ==> forall|i: u8| i < 8 ==> row_color(low, high, i, flip) == 0,
{
}

/// With the palette 0xE4 every colour index is its own shade, and shade 0 is white.
pub proof fn lemma_identity_palette(color: u8)
    requires
        color < 4,
    ensures
        shade_spec(0xE4, color) == color,
        grey_rgba(0) == (Rgba { r: 0xFF, g: 0xFF, b: 0xFF, a: 0xFF }),
{
}

} // verus!

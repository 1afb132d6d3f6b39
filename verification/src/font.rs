//! The fixed 8x8 bitmap font: each supported character maps to eight row
//! bytes, most significant bit leftmost. Characters outside the supported
//! set render as a blank glyph.

use vstd::prelude::*;

verus! {

/// Pixel width and height of one glyph cell.
pub const CHAR_WIDTH: u32 = 8;

/// The eight row bytes of the glyph for `c`; a blank glyph for any
/// character the font does not cover.
pub open spec fn spec_glyph(c: char) -> Seq<u8> {
    if c == '0' {
        seq![0x3Cu8, 0x66u8, 0x6Eu8, 0x76u8, 0x66u8, 0x66u8, 0x3Cu8, 0x00u8]
    } else if c == '1' {
        seq![0x18u8, 0x38u8, 0x18u8, 0x18u8, 0x18u8, 0x18u8, 0x7Eu8, 0x00u8]
    } else if c == '2' {
        seq![0x3Cu8, 0x66u8, 0x06u8, 0x0Cu8, 0x18u8, 0x30u8, 0x7Eu8, 0x00u8]
    } else if c == '3' {
        seq![0x3Cu8, 0x66u8, 0x06u8, 0x1Cu8, 0x06u8, 0x66u8, 0x3Cu8, 0x00u8]
    } else if c == '4' {
        seq![0x0Cu8, 0x1Cu8, 0x3Cu8, 0x6Cu8, 0x7Eu8, 0x0Cu8, 0x0Cu8, 0x00u8]
    } else if c == '5' {
        seq![0x7Eu8, 0x60u8, 0x7Cu8, 0x06u8, 0x06u8, 0x66u8, 0x3Cu8, 0x00u8]
    } else if c == '6' {
        seq![0x3Cu8, 0x60u8, 0x7Cu8, 0x66u8, 0x66u8, 0x66u8, 0x3Cu8, 0x00u8]
    } else if c == '7' {
        seq![0x7Eu8, 0x06u8, 0x0Cu8, 0x18u8, 0x30u8, 0x30u8, 0x30u8, 0x00u8]
    } else if c == '8' {
        seq![0x3Cu8, 0x66u8, 0x66u8, 0x3Cu8, 0x66u8, 0x66u8, 0x3Cu8, 0x00u8]
    } else if c == '9' {
        seq![0x3Cu8, 0x66u8, 0x66u8, 0x3Eu8, 0x06u8, 0x0Cu8, 0x38u8, 0x00u8]
    } else if c == 'A' {
        seq![0x18u8, 0x3Cu8, 0x66u8, 0x66u8, 0x7Eu8, 0x66u8, 0x66u8, 0x00u8]
    } else if c == 'B' {
        seq![0x7Cu8, 0x66u8, 0x66u8, 0x7Cu8, 0x66u8, 0x66u8, 0x7Cu8, 0x00u8]
    } else if c == 'C' {
        seq![0x3Cu8, 0x66u8, 0x60u8, 0x60u8, 0x60u8, 0x66u8, 0x3Cu8, 0x00u8]
    } else if c == 'D' {
        seq![0x78u8, 0x6Cu8, 0x66u8, 0x66u8, 0x66u8, 0x6Cu8, 0x78u8, 0x00u8]
    } else if c == 'E' {
        seq![0x7Eu8, 0x60u8, 0x60u8, 0x7Cu8, 0x60u8, 0x60u8, 0x7Eu8, 0x00u8]
    } else if c == 'F' {
        seq![0x7Eu8, 0x60u8, 0x60u8, 0x7Cu8, 0x60u8, 0x60u8, 0x60u8, 0x00u8]
    } else if c == 'G' {
        seq![0x3Cu8, 0x66u8, 0x60u8, 0x6Eu8, 0x66u8, 0x66u8, 0x3Eu8, 0x00u8]
    } else if c == 'H' {
        seq![0x66u8, 0x66u8, 0x66u8, 0x7Eu8, 0x66u8, 0x66u8, 0x66u8, 0x00u8]
    } else if c == 'I' {
        seq![0x3Cu8, 0x18u8, 0x18u8, 0x18u8, 0x18u8, 0x18u8, 0x3Cu8, 0x00u8]
    } else if c == 'J' {
        seq![0x1Eu8, 0x0Cu8, 0x0Cu8, 0x0Cu8, 0x0Cu8, 0x6Cu8, 0x38u8, 0x00u8]
    } else if c == 'K' {
        seq![0x66u8, 0x6Cu8, 0x78u8, 0x70u8, 0x78u8, 0x6Cu8, 0x66u8, 0x00u8]
    } else if c == 'L' {
        seq![0x60u8, 0x60u8, 0x60u8, 0x60u8, 0x60u8, 0x60u8, 0x7Eu8, 0x00u8]
    } else if c == 'M' {
        seq![0x63u8, 0x77u8, 0x7Fu8, 0x6Bu8, 0x63u8, 0x63u8, 0x63u8, 0x00u8]
    } else if c == 'N' {
        seq![0x66u8, 0x76u8, 0x7Eu8, 0x7Eu8, 0x6Eu8, 0x66u8, 0x66u8, 0x00u8]
    } else if c == 'O' {
        seq![0x3Cu8, 0x66u8, 0x66u8, 0x66u8, 0x66u8, 0x66u8, 0x3Cu8, 0x00u8]
    } else if c == 'P' {
        seq![0x7Cu8, 0x66u8, 0x66u8, 0x7Cu8, 0x60u8, 0x60u8, 0x60u8, 0x00u8]
    } else if c == 'Q' {
        seq![0x3Cu8, 0x66u8, 0x66u8, 0x66u8, 0x66u8, 0x3Cu8, 0x0Eu8, 0x00u8]
    } else if c == 'R' {
        seq![0x7Cu8, 0x66u8, 0x66u8, 0x7Cu8, 0x78u8, 0x6Cu8, 0x66u8, 0x00u8]
    } else if c == 'S' {
        seq![0x3Cu8, 0x66u8, 0x60u8, 0x3Cu8, 0x06u8, 0x66u8, 0x3Cu8, 0x00u8]
    } else if c == 'T' {
        seq![0x7Eu8, 0x18u8, 0x18u8, 0x18u8, 0x18u8, 0x18u8, 0x18u8, 0x00u8]
    } else if c == 'U' {
        seq![0x66u8, 0x66u8, 0x66u8, 0x66u8, 0x66u8, 0x66u8, 0x3Cu8, 0x00u8]
    } else if c == 'V' {
        seq![0x66u8, 0x66u8, 0x66u8, 0x66u8, 0x66u8, 0x3Cu8, 0x18u8, 0x00u8]
    } else if c == 'W' {
        seq![0x63u8, 0x63u8, 0x63u8, 0x6Bu8, 0x7Fu8, 0x77u8, 0x63u8, 0x00u8]
    } else if c == 'X' {
        seq![0x66u8, 0x66u8, 0x3Cu8, 0x18u8, 0x3Cu8, 0x66u8, 0x66u8, 0x00u8]
    } else if c == 'Y' {
        seq![0x66u8, 0x66u8, 0x66u8, 0x3Cu8, 0x18u8, 0x18u8, 0x18u8, 0x00u8]
    } else if c == 'Z' {
        seq![0x7Eu8, 0x06u8, 0x0Cu8, 0x18u8, 0x30u8, 0x60u8, 0x7Eu8, 0x00u8]
    } else if c == '-' {
        seq![0x00u8, 0x00u8, 0x00u8, 0x7Eu8, 0x00u8, 0x00u8, 0x00u8, 0x00u8]
    } else if c == '.' {
        seq![0x00u8, 0x00u8, 0x00u8, 0x00u8, 0x00u8, 0x18u8, 0x18u8, 0x00u8]
    } else if c == '#' {
        seq![0x6Cu8, 0x6Cu8, 0xFEu8, 0x6Cu8, 0xFEu8, 0x6Cu8, 0x6Cu8, 0x00u8]
    } else {
        seq![0x00u8, 0x00u8, 0x00u8, 0x00u8, 0x00u8, 0x00u8, 0x00u8, 0x00u8]
    }
}

/// Looks the glyph bitmap for `c` up in the font table.
pub fn glyph(c: char) -> (g: [u8; 8])
    ensures
        g@ == spec_glyph(c),
{
    let g: [u8; 8] = match c {
        '0' => [0x3C, 0x66, 0x6E, 0x76, 0x66, 0x66, 0x3C, 0x00],
        '1' => [0x18, 0x38, 0x18, 0x18, 0x18, 0x18, 0x7E, 0x00],
        '2' => [0x3C, 0x66, 0x06, 0x0C, 0x18, 0x30, 0x7E, 0x00],
        '3' => [0x3C, 0x66, 0x06, 0x1C, 0x06, 0x66, 0x3C, 0x00],
        '4' => [0x0C, 0x1C, 0x3C, 0x6C, 0x7E, 0x0C, 0x0C, 0x00],
        '5' => [0x7E, 0x60, 0x7C, 0x06, 0x06, 0x66, 0x3C, 0x00],
        '6' => [0x3C, 0x60, 0x7C, 0x66, 0x66, 0x66, 0x3C, 0x00],
        '7' => [0x7E, 0x06, 0x0C, 0x18, 0x30, 0x30, 0x30, 0x00],
        '8' => [0x3C, 0x66, 0x66, 0x3C, 0x66, 0x66, 0x3C, 0x00],
        '9' => [0x3C, 0x66, 0x66, 0x3E, 0x06, 0x0C, 0x38, 0x00],
        'A' => [0x18, 0x3C, 0x66, 0x66, 0x7E, 0x66, 0x66, 0x00],
        'B' => [0x7C, 0x66, 0x66, 0x7C, 0x66, 0x66, 0x7C, 0x00],
        'C' => [0x3C, 0x66, 0x60, 0x60, 0x60, 0x66, 0x3C, 0x00],
        'D' => [0x78, 0x6C, 0x66, 0x66, 0x66, 0x6C, 0x78, 0x00],
        'E' => [0x7E, 0x60, 0x60, 0x7C, 0x60, 0x60, 0x7E, 0x00],
        'F' => [0x7E, 0x60, 0x60, 0x7C, 0x60, 0x60, 0x60, 0x00],
        'G' => [0x3C, 0x66, 0x60, 0x6E, 0x66, 0x66, 0x3E, 0x00],
        'H' => [0x66, 0x66, 0x66, 0x7E, 0x66, 0x66, 0x66, 0x00],
        'I' => [0x3C, 0x18, 0x18, 0x18, 0x18, 0x18, 0x3C, 0x00],
        'J' => [0x1E, 0x0C, 0x0C, 0x0C, 0x0C, 0x6C, 0x38, 0x00],
        'K' => [0x66, 0x6C, 0x78, 0x70, 0x78, 0x6C, 0x66, 0x00],
        'L' => [0x60, 0x60, 0x60, 0x60, 0x60, 0x60, 0x7E, 0x00],
        'M' => [0x63, 0x77, 0x7F, 0x6B, 0x63, 0x63, 0x63, 0x00],
        'N' => [0x66, 0x76, 0x7E, 0x7E, 0x6E, 0x66, 0x66, 0x00],
        'O' => [0x3C, 0x66, 0x66, 0x66, 0x66, 0x66, 0x3C, 0x00],
        'P' => [0x7C, 0x66, 0x66, 0x7C, 0x60, 0x60, 0x60, 0x00],
        'Q' => [0x3C, 0x66, 0x66, 0x66, 0x66, 0x3C, 0x0E, 0x00],
        'R' => [0x7C, 0x66, 0x66, 0x7C, 0x78, 0x6C, 0x66, 0x00],
        'S' => [0x3C, 0x66, 0x60, 0x3C, 0x06, 0x66, 0x3C, 0x00],
        'T' => [0x7E, 0x18, 0x18, 0x18, 0x18, 0x18, 0x18, 0x00],
        'U' => [0x66, 0x66, 0x66, 0x66, 0x66, 0x66, 0x3C, 0x00],
        'V' => [0x66, 0x66, 0x66, 0x66, 0x66, 0x3C, 0x18, 0x00],
        'W' => [0x63, 0x63, 0x63, 0x6B, 0x7F, 0x77, 0x63, 0x00],
        'X' => [0x66, 0x66, 0x3C, 0x18, 0x3C, 0x66, 0x66, 0x00],
        'Y' => [0x66, 0x66, 0x66, 0x3C, 0x18, 0x18, 0x18, 0x00],
        'Z' => [0x7E, 0x06, 0x0C, 0x18, 0x30, 0x60, 0x7E, 0x00],
        '-' => [0x00, 0x00, 0x00, 0x7E, 0x00, 0x00, 0x00, 0x00],
        '.' => [0x00, 0x00, 0x00, 0x00, 0x00, 0x18, 0x18, 0x00],
        '#' => [0x6C, 0x6C, 0xFE, 0x6C, 0xFE, 0x6C, 0x6C, 0x00],
        _ => [0x00, 0x00, 0x00, 0x00, 0x00, 0x00, 0x00, 0x00],
    };
    proof {
        assert(g@ =~= spec_glyph(c));
    }
    g
}

} // verus!

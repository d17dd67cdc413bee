//! The two glyph palettes and the cell that the compositor emits.

use vstd::prelude::*;

verus! {

/// A 24-bit foreground colour.
#[derive(Clone, Copy, Debug, PartialEq, Eq, Structural)]
pub struct Rgb {
    pub r: u8,
    pub g: u8,
    pub b: u8,
}

/// What one terminal cell shows: a character and its foreground colour.
#[derive(Clone, Copy, Debug, PartialEq, Eq, Structural)]
pub struct GlyphCell {
    pub character: char,
    pub color: Rgb,
}

/// Density glyphs, from sparse to dense.
pub open spec fn density_palette() -> Seq<char> {
    seq![' ', '.', ':', '=', 'o', 'x', 'O', 'X']
}

/// Outline glyphs, one per direction slot.
pub open spec fn outline_palette() -> Seq<char> {
    seq!['0', '=', '/', '|', '\\', '=', '6', '7']
}

/// Density slot of a coverage byte: `floor(7 * alpha / 255)`.
pub open spec fn spec_palette_index(alpha: u8) -> int {
    7 * alpha / 255
}

/// Density slot of a coverage byte.
pub fn palette_index(alpha: u8) -> (slot: usize)
    ensures
        slot == spec_palette_index(alpha),
        slot <= 7,
        slot == 0 <==> alpha < 37,
        slot == 7 <==> alpha == 255,
{
    let scaled: u32 = 7 * (alpha as u32);
    (scaled / 255) as usize
}

/// The density glyph of a slot.
pub fn density_glyph(slot: usize) -> (c: char)
    requires
        slot < 8,
    ensures
        c == density_palette()[slot as int],
{
    match slot {
        0 => ' ',
        1 => '.',
        2 => ':',
        3 => '=',
        4 => 'o',
        5 => 'x',
        6 => 'O',
        _ => 'X',
    }
}

/// The outline glyph of a slot.
pub fn outline_glyph(slot: usize) -> (c: char)
    requires
        slot < 8,
    ensures
        c == outline_palette()[slot as int],
{
    match slot {
        0 => '0',
        1 => '=',
        2 => '/',
        3 => '|',
        4 => '\\',
        5 => '=',
        6 => '6',
        _ => '7',
    }
}

/// The density slot never decreases as coverage grows.
pub proof fn lemma_palette_index_monotonic(a1: u8, a2: u8)
    requires
        a1 < a2,
    ensures
        spec_palette_index(a1) <= spec_palette_index(a2),
{
}

/// The density slot is the integer part of seven times the coverage
/// `alpha / 255`.
pub proof fn lemma_palette_index_is_floor(alpha: u8)
    ensures
        spec_palette_index(alpha) * 255 <= 7 * alpha < (spec_palette_index(alpha) + 1) * 255,
{
}

/// The density slot is 0 for no coverage, 7 for full coverage, and always a
/// valid palette position.
pub proof fn lemma_palette_index_range(alpha: u8)
    ensures
        0 <= spec_palette_index(alpha) <= 7,
        spec_palette_index(0) == 0,
        spec_palette_index(255) == 7,
        spec_palette_index(alpha) == 7 ==> alpha == 255,
{
}

} // verus!

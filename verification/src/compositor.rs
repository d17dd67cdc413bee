//! Turning a pixel buffer into terminal cells.
//!
//! Each pixel is one cell. Coverage (alpha) picks a density glyph; where a
//! covered cell lies on a luminance edge, an outline glyph of the edge's
//! direction replaces it. The colour of a cell is always the pixel's own.

use vstd::prelude::*;
use vstd::arithmetic::div_mod::{
    lemma_div_pos_is_pos, lemma_fundamental_div_mod, lemma_fundamental_div_mod_converse,
    lemma_mod_pos_bound,
};
use crate::edge::{
    is_edge, sobel_gradient, sobel_kernel, spec_is_edge, spec_neighborhood, spec_sobel_h,
    spec_sobel_v,
};
use crate::glyph::{
    density_glyph, density_palette, outline_glyph, outline_palette, palette_index,
    spec_palette_index, GlyphCell, Rgb,
};
use crate::outline::{outline_index, spec_outline_index};
use crate::pixels::{lemma_pixel_offset, sample, PixelBuffer, Raster, Rgba};

verus! {

/// The outline slot of the neighbourhood of `(x, y)`.
pub open spec fn spec_edge_slot(r: Raster, x: int, y: int) -> int {
    let n = spec_neighborhood(r, x, y);
    spec_outline_index(spec_sobel_h(n), spec_sobel_v(n))
}

/// The cell shown for the pixel at `(x, y)`.
pub open spec fn spec_cell(r: Raster, x: int, y: int) -> GlyphCell {
    let p = r.pixel(x, y);
    GlyphCell {
        character: if p.a > 0 && spec_is_edge(spec_neighborhood(r, x, y)) {
            outline_palette()[spec_edge_slot(r, x, y)]
        } else {
            density_palette()[spec_palette_index(p.a)]
        },
        color: Rgb { r: p.r, g: p.g, b: p.b },
    }
}

/// All cells of a raster in row-major order.
pub open spec fn spec_compose(r: Raster) -> Seq<GlyphCell> {
    Seq::new(
        r.width * r.height,
        |i: int| spec_cell(r, i % (r.width as int), i / (r.width as int)),
    )
}

/// The cell that shows nothing: a space in black.
pub open spec fn blank_cell() -> GlyphCell {
    GlyphCell { character: ' ', color: Rgb { r: 0, g: 0, b: 0 } }
}

/// Sobel operator at `(x, y)`: the outline slot of the local gradient and
/// whether the cell lies on an edge.
pub fn sobel(buf: &PixelBuffer, x: usize, y: usize) -> (res: (usize, bool))
    requires
        buf.wf(),
        buf@.width > 0,
        buf@.height > 0,
    ensures
        res.0 == spec_edge_slot(buf@, x as int, y as int),
        res.1 == spec_is_edge(spec_neighborhood(buf@, x as int, y as int)),
{
    let n = sobel_kernel(buf, x, y);
    let (h, v) = sobel_gradient(&n);
    (outline_index(h, v), is_edge(&n))
}

/// The cell shown for the pixel at `(x, y)`.
pub fn shade_cell(buf: &PixelBuffer, x: usize, y: usize) -> (cell: GlyphCell)
    requires
        buf.wf(),
        x < buf@.width,
        y < buf@.height,
    ensures
        cell == spec_cell(buf@, x as int, y as int),
{
    let p = sample(buf, x, y);
    let (slot, edge) = if p.a > 0 {
        sobel(buf, x, y)
    } else {
        (0, false)
    };
    let character = if edge {
        outline_glyph(slot)
    } else {
        density_glyph(palette_index(p.a))
    };
    GlyphCell { character, color: Rgb { r: p.r, g: p.g, b: p.b } }
}

/// Shades every pixel, row by row.
pub fn compose(buf: &PixelBuffer) -> (cells: Vec<GlyphCell>)
    requires
        buf.wf(),
    ensures
        cells@ == spec_compose(buf@),
{
    let w: usize = buf.width();
    let h: usize = buf.height();
    let mut cells: Vec<GlyphCell> = Vec::new();
    let mut y: usize = 0;
    while y < h
        invariant
            buf.wf(),
            w == buf@.width,
            h == buf@.height,
            y <= h,
            cells@.len() == y * w,
            forall|i: int|
                0 <= i < cells@.len() ==> cells@[i] == spec_cell(
                    buf@,
                    i % (w as int),
                    i / (w as int),
                ),
        decreases h - y,
    {
        let mut x: usize = 0;
        while x < w
            invariant
                buf.wf(),
                w == buf@.width,
                h == buf@.height,
                y < h,
                x <= w,
                cells@.len() == y * w + x,
                forall|i: int|
                    0 <= i < cells@.len() ==> cells@[i] == spec_cell(
                        buf@,
                        i % (w as int),
                        i / (w as int),
                    ),
            decreases w - x,
        {
            let cell = shade_cell(buf, x, y);
            proof {
                lemma_fundamental_div_mod_converse(y * w + x, w as int, y as int, x as int);
            }
            cells.push(cell);
            x = x + 1;
        }
        assert((y + 1) * w == y * w + w) by (nonlinear_arith);
        y = y + 1;
    }
    assert(h * w == w * h) by (nonlinear_arith);
    assert(cells@ =~= spec_compose(buf@));
    cells
}

/// The cell of column `x` and row `y` is cell `y * width + x` of the
/// composed sequence, which has one cell for each pixel.
pub proof fn lemma_compose_is_row_major(r: Raster, x: int, y: int)
    requires
        0 <= x < r.width,
        0 <= y < r.height,
    ensures
        spec_compose(r).len() == r.width * r.height,
        0 <= y * r.width + x < r.width * r.height,
        spec_compose(r)[y * r.width + x] == spec_cell(r, x, y),
{
    lemma_pixel_offset(r.width, r.height, x, y);
    lemma_fundamental_div_mod_converse(y * r.width + x, r.width as int, y, x);
}

/// A cell without coverage shows the sparsest density glyph, a space, in
/// the pixel's own colour, whatever surrounds it.
pub proof fn lemma_uncovered_cell_is_space(r: Raster, x: int, y: int)
    requires
        r.pixel(x, y).a == 0,
    ensures
        spec_cell(r, x, y).character == ' ',
        spec_cell(r, x, y).character == density_palette()[0],
{
}

/// The colour of a cell is the colour of its pixel, whichever glyph it
/// shows.
pub proof fn lemma_cell_keeps_color(r: Raster, x: int, y: int)
    ensures
        spec_cell(r, x, y).color == (Rgb {
            r: r.pixel(x, y).r,
            g: r.pixel(x, y).g,
            b: r.pixel(x, y).b,
        }),
{
}

/// A cell whose eight neighbours have one luminance lies on no edge,
/// whatever its own luminance: it shows the density glyph of its coverage,
/// the densest one where it is fully covered.
pub proof fn lemma_lone_cell_shows_density(r: Raster, x: int, y: int)
    requires
        forall|k: int|
            0 <= k < 9 && k != 4 ==> #[trigger] spec_neighborhood(r, x, y)[k] == spec_neighborhood(
                r,
                x,
                y,
            )[0],
    ensures
        !spec_is_edge(spec_neighborhood(r, x, y)),
        spec_cell(r, x, y).character == density_palette()[spec_palette_index(r.pixel(x, y).a)],
        r.pixel(x, y).a == 255 ==> spec_cell(r, x, y).character == 'X',
{
    let n = spec_neighborhood(r, x, y);
    assert(n[1] == n[0] && n[2] == n[0] && n[3] == n[0] && n[5] == n[0]);
    assert(n[6] == n[0] && n[7] == n[0] && n[8] == n[0]);
}

/// A covered cell on an edge shows one of the four outline glyphs that a
/// direction can select.
pub proof fn lemma_edge_cell_shows_outline(r: Raster, x: int, y: int)
    requires
        r.pixel(x, y).a > 0,
        spec_is_edge(spec_neighborhood(r, x, y)),
    ensures
        2 <= spec_edge_slot(r, x, y) <= 5,
        spec_cell(r, x, y).character == outline_palette()[spec_edge_slot(r, x, y)],
        spec_cell(r, x, y).character == '/' || spec_cell(r, x, y).character == '|' || spec_cell(
            r,
            x,
            y,
        ).character == '\\' || spec_cell(r, x, y).character == '=',
{
}

/// A transparent black raster composes to blank cells only.
pub proof fn lemma_cleared_is_blank(width: nat, height: nat)
    ensures
        spec_compose(Raster::cleared(width, height)).len() == width * height,
        forall|i: int|
            0 <= i < width * height ==> #[trigger] spec_compose(Raster::cleared(width, height))[i]
                == blank_cell(),
{
    let r = Raster::cleared(width, height);
    assert forall|i: int| 0 <= i < width * height implies #[trigger] spec_compose(r)[i]
        == blank_cell() by {
        let x = i % (width as int);
        let y = i / (width as int);
        assert(width > 0) by (nonlinear_arith)
            requires
                0 <= i < width * height,
        ;
        lemma_fundamental_div_mod(i, width as int);
        lemma_mod_pos_bound(i, width as int);
        lemma_div_pos_is_pos(i, width as int);
        assert(y < height) by (nonlinear_arith)
            requires
                0 <= x,
                0 <= y,
                i < width * height,
                i == width * y + x,
                width > 0,
        ;
        lemma_pixel_offset(width, height, x, y);
        assert(r.pixel(x, y) == Rgba { r: 0, g: 0, b: 0, a: 0 });
    }
}

} // verus!

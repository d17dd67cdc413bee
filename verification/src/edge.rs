//! Luminance, the 3x3 neighbourhood of a cell and the Sobel edge test.
//!
//! Luminance is kept exact: a channel byte `c` stands for `c / 255`, the
//! weights are 0.299, 0.587 and 0.114, and a luminance is stored as the
//! integer count of 1/255000ths that it amounts to.

use vstd::prelude::*;
use vstd::math::abs;
use crate::pixels::{clamp_coord, sample, PixelBuffer, Raster, Rgba};

verus! {

/// Luminance 1.0.
pub const LUMA_ONE: u32 = 255_000;

/// The edge threshold 0.75, in luminance units.
pub const EDGE_THRESHOLD: i64 = 191_250;

/// Largest magnitude a Sobel gradient of valid luminances can have:
/// four times `LUMA_ONE`.
pub const MAX_GRADIENT: i64 = 1_020_000;

/// Luminance of a pixel: `0.299 r + 0.587 g + 0.114 b`.
pub open spec fn spec_luma(p: Rgba) -> int {
    299 * p.r + 587 * p.g + 114 * p.b
}

/// Luminances of the 3x3 neighbourhood of `(x, y)`, row-major from the top
/// left, with clamp-to-edge addressing. Position 4 is the cell itself.
pub open spec fn spec_neighborhood(r: Raster, x: int, y: int) -> Seq<int> {
    Seq::new(9, |k: int| spec_luma(r.sample(x + k % 3 - 1, y + k / 3 - 1)))
}

/// Horizontal Sobel gradient: right column minus left column.
pub open spec fn spec_sobel_h(n: Seq<int>) -> int {
    (n[2] + 2 * n[5] + n[8]) - (n[0] + 2 * n[3] + n[6])
}

/// Vertical Sobel gradient: top row minus bottom row.
pub open spec fn spec_sobel_v(n: Seq<int>) -> int {
    (n[0] + 2 * n[1] + n[2]) - (n[6] + 2 * n[7] + n[8])
}

/// The edge flag: `|h| + |v| > 0.75`.
pub open spec fn spec_is_edge(n: Seq<int>) -> bool {
    abs(spec_sobel_h(n)) + abs(spec_sobel_v(n)) > EDGE_THRESHOLD
}

/// Every sample is a luminance between 0.0 and 1.0.
pub open spec fn valid_lumas(n: Seq<int>) -> bool {
    n.len() == 9 && forall|k: int| 0 <= k < 9 ==> 0 <= #[trigger] n[k] <= LUMA_ONE
}

/// Stored samples as mathematical integers.
pub open spec fn lumas(n: Seq<u32>) -> Seq<int> {
    n.map_values(|l: u32| l as int)
}

/// Luminance of a pixel.
pub fn luma(p: Rgba) -> (l: u32)
    ensures
        l == spec_luma(p),
        l <= LUMA_ONE,
{
    299 * (p.r as u32) + 587 * (p.g as u32) + 114 * (p.b as u32)
}

/// Luminance of the pixel at `(x, y)`, clamped to the right and bottom edge.
pub fn sample_lumi(buf: &PixelBuffer, x: usize, y: usize) -> (l: u32)
    requires
        buf.wf(),
        buf@.width > 0,
        buf@.height > 0,
    ensures
        l == spec_luma(buf@.sample(x as int, y as int)),
        l <= LUMA_ONE,
{
    luma(sample(buf, x, y))
}

/// Luminance of the neighbour in position `k` (row-major, 4 is the cell
/// itself) of the cell at `(x, y)`.
pub fn neighbor_lumi(buf: &PixelBuffer, x: usize, y: usize, k: usize) -> (l: u32)
    requires
        buf.wf(),
        buf@.width > 0,
        buf@.height > 0,
        k < 9,
    ensures
        l == spec_neighborhood(buf@, x as int, y as int)[k as int],
        l <= LUMA_ONE,
{
    let w: usize = buf.width();
    let h: usize = buf.height();
    let column: usize = k % 3;
    let row: usize = k / 3;
    let nx: usize = if column == 0 {
        if x > 0 {
            x - 1
        } else {
            0
        }
    } else if column == 1 {
        x
    } else {
        if x >= w - 1 {
            w - 1
        } else {
            x + 1
        }
    };
    let ny: usize = if row == 0 {
        if y > 0 {
            y - 1
        } else {
            0
        }
    } else if row == 1 {
        y
    } else {
        if y >= h - 1 {
            h - 1
        } else {
            y + 1
        }
    };
    assert(clamp_coord(nx as int, w as nat) == clamp_coord(x + column - 1, w as nat));
    assert(clamp_coord(ny as int, h as nat) == clamp_coord(y + row - 1, h as nat));
    sample_lumi(buf, nx, ny)
}

/// Luminances of the 3x3 neighbourhood of `(x, y)`.
pub fn sobel_kernel(buf: &PixelBuffer, x: usize, y: usize) -> (n: [u32; 9])
    requires
        buf.wf(),
        buf@.width > 0,
        buf@.height > 0,
    ensures
        lumas(n@) == spec_neighborhood(buf@, x as int, y as int),
        valid_lumas(lumas(n@)),
{
    let n: [u32; 9] = [
        neighbor_lumi(buf, x, y, 0),
        neighbor_lumi(buf, x, y, 1),
        neighbor_lumi(buf, x, y, 2),
        neighbor_lumi(buf, x, y, 3),
        neighbor_lumi(buf, x, y, 4),
        neighbor_lumi(buf, x, y, 5),
        neighbor_lumi(buf, x, y, 6),
        neighbor_lumi(buf, x, y, 7),
        neighbor_lumi(buf, x, y, 8),
    ];
    assert(lumas(n@) =~= spec_neighborhood(buf@, x as int, y as int));
    n
}

/// Both Sobel gradients of a neighbourhood, horizontal first.
pub fn sobel_gradient(n: &[u32; 9]) -> (g: (i64, i64))
    ensures
        g.0 == spec_sobel_h(lumas(n@)),
        g.1 == spec_sobel_v(lumas(n@)),
        valid_lumas(lumas(n@)) ==> -MAX_GRADIENT <= g.0 <= MAX_GRADIENT && -MAX_GRADIENT <= g.1
            <= MAX_GRADIENT,
{
    let n0: i64 = n[0] as i64;
    let n1: i64 = n[1] as i64;
    let n2: i64 = n[2] as i64;
    let n3: i64 = n[3] as i64;
    let n5: i64 = n[5] as i64;
    let n6: i64 = n[6] as i64;
    let n7: i64 = n[7] as i64;
    let n8: i64 = n[8] as i64;
    let h: i64 = (n2 + 2 * n5 + n8) - (n0 + 2 * n3 + n6);
    let v: i64 = (n0 + 2 * n1 + n2) - (n6 + 2 * n7 + n8);
    proof {
        let s = lumas(n@);
        if valid_lumas(s) {
            assert(0 <= s[0] <= LUMA_ONE);
            assert(0 <= s[1] <= LUMA_ONE);
            assert(0 <= s[2] <= LUMA_ONE);
            assert(0 <= s[3] <= LUMA_ONE);
            assert(0 <= s[5] <= LUMA_ONE);
            assert(0 <= s[6] <= LUMA_ONE);
            assert(0 <= s[7] <= LUMA_ONE);
            assert(0 <= s[8] <= LUMA_ONE);
        }
    }
    (h, v)
}

/// The edge flag of a neighbourhood.
pub fn is_edge(n: &[u32; 9]) -> (edge: bool)
    ensures
        edge == spec_is_edge(lumas(n@)),
{
    let (h, v) = sobel_gradient(n);
    let ah: i64 = if h < 0 {
        -h
    } else {
        h
    };
    let av: i64 = if v < 0 {
        -v
    } else {
        v
    };
    ah + av > EDGE_THRESHOLD
}

/// A pixel's luminance lies between 0.0 (black) and 1.0 (white).
pub proof fn lemma_luma_range(p: Rgba)
    ensures
        0 <= spec_luma(p) <= LUMA_ONE,
        spec_luma(p) == 0 <==> p.r == 0 && p.g == 0 && p.b == 0,
        spec_luma(p) == LUMA_ONE <==> p.r == 255 && p.g == 255 && p.b == 255,
{
}

/// The edge test compares the sum of the gradients' magnitudes with three
/// quarters of luminance 1.0, and the gradients of valid luminances stay
/// within four times luminance 1.0.
pub proof fn lemma_edge_threshold(n: Seq<int>)
    ensures
        spec_is_edge(n) <==> 4 * (abs(spec_sobel_h(n)) + abs(spec_sobel_v(n))) > 3 * LUMA_ONE,
        valid_lumas(n) ==> abs(spec_sobel_h(n)) <= MAX_GRADIENT && abs(spec_sobel_v(n))
            <= MAX_GRADIENT,
{
    if valid_lumas(n) {
        assert(0 <= n[0] <= LUMA_ONE);
        assert(0 <= n[1] <= LUMA_ONE);
        assert(0 <= n[2] <= LUMA_ONE);
        assert(0 <= n[3] <= LUMA_ONE);
        assert(0 <= n[5] <= LUMA_ONE);
        assert(0 <= n[6] <= LUMA_ONE);
        assert(0 <= n[7] <= LUMA_ONE);
        assert(0 <= n[8] <= LUMA_ONE);
    }
}

/// The cell's own luminance takes no part in the gradients.
pub proof fn lemma_centre_is_ignored(n: Seq<int>, centre: int)
    requires
        n.len() == 9,
    ensures
        spec_sobel_h(n.update(4, centre)) == spec_sobel_h(n),
        spec_sobel_v(n.update(4, centre)) == spec_sobel_v(n),
        spec_is_edge(n.update(4, centre)) == spec_is_edge(n),
{
}

/// A neighbourhood whose nine samples are equal has no gradient and is no
/// edge, whatever the common value.
pub proof fn lemma_uniform_is_flat(n: Seq<int>)
    requires
        n.len() == 9,
        forall|i: int, j: int| 0 <= i < 9 && 0 <= j < 9 ==> n[i] == n[j],
    ensures
        spec_sobel_h(n) == 0,
        spec_sobel_v(n) == 0,
        !spec_is_edge(n),
{
    assert(n[1] == n[0] && n[2] == n[0] && n[3] == n[0] && n[5] == n[0]);
    assert(n[6] == n[0] && n[7] == n[0] && n[8] == n[0]);
}

/// A neighbourhood made of three uniform columns has no vertical gradient,
/// and its horizontal gradient is four times the step from the left to the
/// right column: a step from 0.0 to 1.0 is an edge.
pub proof fn lemma_horizontal_step(n: Seq<int>, left: int, middle: int, right: int)
    requires
        n.len() == 9,
        n[0] == left && n[3] == left && n[6] == left,
        n[1] == middle && n[4] == middle && n[7] == middle,
        n[2] == right && n[5] == right && n[8] == right,
    ensures
        spec_sobel_v(n) == 0,
        spec_sobel_h(n) == 4 * (right - left),
        spec_is_edge(n) <==> 4 * abs(right - left) > EDGE_THRESHOLD,
        left == 0 && right == LUMA_ONE ==> spec_is_edge(n) && abs(spec_sobel_h(n)) > 0,
{
}

/// Swapping left with right and top with bottom negates both gradients and
/// keeps the edge flag.
pub proof fn lemma_point_mirror_keeps_edge(n: Seq<int>)
    requires
        n.len() == 9,
    ensures
        spec_sobel_h(n.reverse()) == -spec_sobel_h(n),
        spec_sobel_v(n.reverse()) == -spec_sobel_v(n),
        spec_is_edge(n.reverse()) == spec_is_edge(n),
{
    let m = n.reverse();
    assert(m[0] == n[8] && m[1] == n[7] && m[2] == n[6] && m[3] == n[5]);
    assert(m[5] == n[3] && m[6] == n[2] && m[7] == n[1] && m[8] == n[0]);
}

} // verus!

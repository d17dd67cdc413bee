//! RGBA8 pixel buffers, row-major, one pixel per terminal cell.

use vstd::prelude::*;

verus! {

/// One RGBA8 pixel.
#[derive(Clone, Copy, Debug, PartialEq, Eq, Structural)]
pub struct Rgba {
    pub r: u8,
    pub g: u8,
    pub b: u8,
    pub a: u8,
}

/// The mathematical content of a pixel buffer: its dimensions and its bytes.
pub struct Raster {
    pub width: nat,
    pub height: nat,
    pub bytes: Seq<u8>,
}

/// Clamp-to-edge addressing: the coordinate of `0..n` nearest to `c`.
pub open spec fn clamp_coord(c: int, n: nat) -> int {
    if c < 0 {
        0
    } else if c >= n {
        n - 1
    } else {
        c
    }
}

impl Raster {
    /// Four bytes for each of `width * height` pixels.
    pub open spec fn wf(self) -> bool {
        self.bytes.len() == self.width * self.height * 4
    }

    /// The pixel at column `x` of row `y`.
    pub open spec fn pixel(self, x: int, y: int) -> Rgba
        recommends
            0 <= x < self.width,
            0 <= y < self.height,
    {
        let i = 4 * (x + y * self.width);
        Rgba { r: self.bytes[i], g: self.bytes[i + 1], b: self.bytes[i + 2], a: self.bytes[i + 3] }
    }

    /// The pixel at `(x, y)` with coordinates outside the buffer clamped to
    /// the nearest valid coordinate.
    pub open spec fn sample(self, x: int, y: int) -> Rgba
        recommends
            self.width > 0,
            self.height > 0,
    {
        self.pixel(clamp_coord(x, self.width), clamp_coord(y, self.height))
    }

    /// The fully transparent black raster of the given size.
    pub open spec fn cleared(width: nat, height: nat) -> Raster {
        Raster { width, height, bytes: Seq::new(width * height * 4, |i: int| 0u8) }
    }
}

/// In-bounds pixel offsets stay inside the byte sequence.
pub proof fn lemma_pixel_offset(width: nat, height: nat, x: int, y: int)
    requires
        0 <= x < width,
        0 <= y < height,
    ensures
        0 <= x + y * width < width * height,
        4 * (x + y * width) + 3 < width * height * 4,
{
    assert(y * width + width <= height * width) by (nonlinear_arith)
        requires
            0 <= y < height,
            0 <= width,
    ;
    assert(0 <= y * width) by (nonlinear_arith)
        requires
            0 <= y,
            0 <= width,
    ;
    assert(height * width == width * height) by (nonlinear_arith);
}

/// An owned RGBA8 pixel buffer of `width * height` pixels.
pub struct PixelBuffer {
    width: usize,
    height: usize,
    bytes: Vec<u8>,
}

impl View for PixelBuffer {
    type V = Raster;

    closed spec fn view(&self) -> Raster {
        Raster { width: self.width as nat, height: self.height as nat, bytes: self.bytes@ }
    }
}

impl PixelBuffer {
    /// The byte length matches the dimensions.
    pub open spec fn wf(&self) -> bool {
        self@.wf()
    }

    /// Wraps `bytes` as a `width` by `height` buffer, provided the length is
    /// exactly four bytes per pixel.
    pub fn new(bytes: Vec<u8>, width: usize, height: usize) -> (res: Option<PixelBuffer>)
        ensures
            res.is_some() <==> bytes@.len() == width * height * 4,
            res matches Some(buf) ==> buf.wf() && buf@ == (Raster {
                width: width as nat,
                height: height as nat,
                bytes: bytes@,
            }),
    {
        let given: usize = bytes.len();
        let area = match width.checked_mul(height) {
            Some(a) => a,
            None => {
                return None;
            },
        };
        let len = match area.checked_mul(4) {
            Some(l) => l,
            None => {
                return None;
            },
        };
        if given == len {
            Some(PixelBuffer { width, height, bytes })
        } else {
            None
        }
    }

    /// The fully transparent black buffer of the given size; `None` when
    /// its byte length does not fit the address space.
    pub fn cleared(width: usize, height: usize) -> (res: Option<PixelBuffer>)
        ensures
            res.is_some() <==> width * height * 4 <= usize::MAX,
            res matches Some(buf) ==> buf.wf() && buf@ == Raster::cleared(
                width as nat,
                height as nat,
            ),
    {
        let area = match width.checked_mul(height) {
            Some(a) => a,
            None => {
                return None;
            },
        };
        let len = match area.checked_mul(4) {
            Some(l) => l,
            None => {
                return None;
            },
        };
        let mut bytes: Vec<u8> = Vec::new();
        let mut i: usize = 0;
        while i < len
            invariant
                i <= len,
                bytes@.len() == i,
                forall|k: int| 0 <= k < i ==> bytes@[k] == 0u8,
            decreases len - i,
        {
            bytes.push(0u8);
            i = i + 1;
        }
        assert(bytes@ =~= Raster::cleared(width as nat, height as nat).bytes);
        Some(PixelBuffer { width, height, bytes })
    }

    /// Overwrites every pixel with transparent black.
    pub fn clear(&mut self)
        requires
            old(self).wf(),
        ensures
            final(self).wf(),
            final(self)@ == Raster::cleared(old(self)@.width, old(self)@.height),
    {
        let len: usize = self.bytes.len();
        let mut i: usize = 0;
        while i < len
            invariant
                i <= len,
                self.bytes@.len() == len,
                self.width == old(self).width,
                self.height == old(self).height,
                forall|k: int| 0 <= k < i ==> self.bytes@[k] == 0u8,
            decreases len - i,
        {
            self.bytes.set(i, 0u8);
            i = i + 1;
        }
        assert(self.bytes@ =~= Raster::cleared(self@.width, self@.height).bytes);
    }

    /// An independent copy of this buffer.
    pub fn duplicate(&self) -> (copy: PixelBuffer)
        ensures
            copy@ == self@,
    {
        let bytes = self.bytes.clone();
        assert(bytes@ =~= self.bytes@);
        PixelBuffer { width: self.width, height: self.height, bytes }
    }

    pub fn width(&self) -> (w: usize)
        ensures
            w == self@.width,
    {
        self.width
    }

    pub fn height(&self) -> (h: usize)
        ensures
            h == self@.height,
    {
        self.height
    }

    /// The raw bytes, row-major, four per pixel.
    pub fn bytes(&self) -> (b: &Vec<u8>)
        ensures
            b@ == self@.bytes,
    {
        &self.bytes
    }
}

/// Reads the pixel at `(x, y)`; coordinates past the right or bottom edge
/// are clamped to the last column or row.
pub fn sample(buf: &PixelBuffer, x: usize, y: usize) -> (p: Rgba)
    requires
        buf.wf(),
        buf@.width > 0,
        buf@.height > 0,
    ensures
        p == buf@.sample(x as int, y as int),
{
    let cx: usize = if x >= buf.width {
        buf.width - 1
    } else {
        x
    };
    let cy: usize = if y >= buf.height {
        buf.height - 1
    } else {
        y
    };
    let len: usize = buf.bytes.len();
    proof {
        lemma_pixel_offset(buf@.width, buf@.height, cx as int, cy as int);
        assert(4 * (cx + cy * buf.width) + 3 < len);
    }
    let i: usize = 4 * (cx + cy * buf.width);
    Rgba { r: buf.bytes[i], g: buf.bytes[i + 1], b: buf.bytes[i + 2], a: buf.bytes[i + 3] }
}

} // verus!

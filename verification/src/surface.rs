//! The offscreen surface as the host sees it: a resolution and the pixels of
//! the back buffer, one pixel for each cell of the terminal grid.

use vstd::prelude::*;
use crate::pixels::{PixelBuffer, Raster};

verus! {

/// Why a surface refused an operation.
#[derive(Clone, Copy, Debug, PartialEq, Eq, Structural)]
pub enum SurfaceError {
    /// The back buffer of that size cannot be addressed on this machine.
    TooLarge,
    /// The pixels handed in are not four bytes for each cell of the grid.
    PixelCountMismatch,
}

/// A back buffer sized to the terminal grid.
pub struct Surface {
    back_buffer: PixelBuffer,
}

impl View for Surface {
    type V = Raster;

    closed spec fn view(&self) -> Raster {
        self.back_buffer@
    }
}

impl Surface {
    /// The back buffer holds four bytes for every cell of the grid.
    pub open spec fn wf(&self) -> bool {
        self@.wf()
    }

    /// A surface of `size` (columns, rows), cleared to transparent black.
    pub fn create(size: (usize, usize)) -> (res: Result<Surface, SurfaceError>)
        ensures
            res.is_ok() <==> size.0 * size.1 * 4 <= usize::MAX,
            res matches Ok(s) ==> s.wf() && s@ == Raster::cleared(size.0 as nat, size.1 as nat),
            res matches Err(e) ==> e == SurfaceError::TooLarge,
    {
        match PixelBuffer::cleared(size.0, size.1) {
            Some(back_buffer) => Ok(Surface { back_buffer }),
            None => Err(SurfaceError::TooLarge),
        }
    }

    /// Reallocates the back buffer for a grid of `new_size`, cleared to
    /// transparent black. A size that does not fit leaves the surface as
    /// it was.
    pub fn resize(&mut self, new_size: (usize, usize)) -> (res: Result<(), SurfaceError>)
        requires
            old(self).wf(),
        ensures
            final(self).wf(),
            res.is_ok() <==> new_size.0 * new_size.1 * 4 <= usize::MAX,
            res.is_ok() ==> final(self)@ == Raster::cleared(new_size.0 as nat, new_size.1 as nat),
            res matches Err(e) ==> e == SurfaceError::TooLarge && final(self)@ == old(self)@,
    {
        match PixelBuffer::cleared(new_size.0, new_size.1) {
            Some(back_buffer) => {
                self.back_buffer = back_buffer;
                Ok(())
            },
            None => Err(SurfaceError::TooLarge),
        }
    }

    /// Columns and rows of the grid.
    pub fn resolution(&self) -> (size: (usize, usize))
        ensures
            size.0 == self@.width,
            size.1 == self@.height,
    {
        (self.back_buffer.width(), self.back_buffer.height())
    }

    /// Clears the back buffer to transparent black, as every pass does
    /// before it draws.
    pub fn clear(&mut self)
        requires
            old(self).wf(),
        ensures
            final(self).wf(),
            final(self)@ == Raster::cleared(old(self)@.width, old(self)@.height),
    {
        self.back_buffer.clear();
    }

    /// Takes the pixels that a finished pass left in the back buffer.
    /// They are accepted only if they are exactly four bytes per cell of
    /// the current grid; otherwise the surface stays as it was.
    pub fn store_pixels(&mut self, bytes: Vec<u8>) -> (res: Result<(), SurfaceError>)
        requires
            old(self).wf(),
        ensures
            final(self).wf(),
            res.is_ok() <==> bytes@.len() == old(self)@.width * old(self)@.height * 4,
            res.is_ok() ==> final(self)@ == (Raster {
                width: old(self)@.width,
                height: old(self)@.height,
                bytes: bytes@,
            }),
            res matches Err(e) ==> e == SurfaceError::PixelCountMismatch && final(self)@ == old(self)@,
    {
        let (w, h) = self.resolution();
        match PixelBuffer::new(bytes, w, h) {
            Some(back_buffer) => {
                self.back_buffer = back_buffer;
                Ok(())
            },
            None => Err(SurfaceError::PixelCountMismatch),
        }
    }

    /// The back buffer in place.
    pub fn pixels(&self) -> (buffer: &PixelBuffer)
        ensures
            buffer@ == self@,
    {
        &self.back_buffer
    }

    /// The current contents of the back buffer, with its width and height.
    pub fn read_pixels(&self) -> (res: (PixelBuffer, (usize, usize)))
        requires
            self.wf(),
        ensures
            res.0.wf(),
            res.0@ == self@,
            res.1.0 == self@.width,
            res.1.1 == self@.height,
    {
        (self.back_buffer.duplicate(), self.resolution())
    }
}

} // verus!

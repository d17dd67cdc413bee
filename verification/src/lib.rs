//! Rendering of GPU framebuffers into styled terminal glyphs: every
//! character cell of the terminal is one pixel of an offscreen surface.
//!
//! The library holds everything that is decided on plain values and proves
//! it: how a pixel buffer becomes glyph cells (`pixels`, `edge`, `outline`,
//! `glyph`, `compositor`), what a poll cycle makes of terminal events
//! (`events`), the surface and the size on record (`surface`, `backend`),
//! the life of a frame (`frame`, `renderer`), the commands sent to the
//! terminal (`terminal`), and the geometry and camera settings handed to
//! the GPU (`mesh`, `camera`). Talking to the GPU and to the terminal is
//! left to the application.
//!
//! All arithmetic is exact integer arithmetic. Colour channels are bytes,
//! luminances are counted in 1/255000ths, and lengths in space are
//! fixed-point numbers.

use vstd::prelude::*;

pub mod backend;
pub mod camera;
pub mod compositor;
pub mod edge;
pub mod events;
pub mod frame;
pub mod glyph;
pub mod mesh;
pub mod outline;
pub mod pixels;
pub mod renderer;
pub mod surface;
pub mod terminal;

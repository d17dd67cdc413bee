//! The rendering backend: the surface, the grid size on record and the
//! pace of the event pump.

use vstd::prelude::*;
use crate::compositor::{blank_cell, compose, lemma_cleared_is_blank, spec_compose};
use crate::events::{
    has_quit, lemma_only_oldest_is_handled, poll, spec_poll, spec_window_events, window_events,
    GridSize, InputEvent, PollOutcome, WindowEvent,
};
use crate::glyph::GlyphCell;
use crate::pixels::{PixelBuffer, Raster};
use crate::surface::{Surface, SurfaceError};
use crate::terminal::{paint_commands, spec_paint, TerminalCommand};

verus! {

/// Frames per second that the event pump paces the loop to.
pub const TARGET_HZ: u64 = 60;

/// Nanoseconds in a second.
pub const NANOS_PER_SECOND: u64 = 1_000_000_000;

/// What a backend is, mathematically: the grid size on record and the
/// contents of the back buffer.
pub struct BackendState {
    pub resolution: (usize, usize),
    pub surface: Raster,
}

/// Whether a back buffer for a grid of that size can be addressed.
pub open spec fn fits(size: (usize, usize)) -> bool {
    size.0 * size.1 * 4 <= usize::MAX
}

/// A grid size as columns and rows.
pub open spec fn grid_size(grid: GridSize) -> (usize, usize) {
    (grid.columns as usize, grid.rows as usize)
}

impl BackendState {
    /// The size on record is the size of the surface.
    pub open spec fn wf(self) -> bool {
        &&& self.surface.wf()
        &&& self.surface.width == self.resolution.0
        &&& self.surface.height == self.resolution.1
    }

    /// A fresh backend for a grid of `size`: the surface is transparent
    /// black.
    pub open spec fn created(size: (usize, usize)) -> BackendState {
        BackendState { resolution: size, surface: Raster::cleared(size.0 as nat, size.1 as nat) }
    }

    /// The state after a resize to `new_size`: a fresh surface of that
    /// size, or no change where the size does not fit.
    pub open spec fn resized(self, new_size: (usize, usize)) -> BackendState {
        if fits(new_size) {
            BackendState::created(new_size)
        } else {
            self
        }
    }

    /// What reading the pixels back gives: the back buffer with its width
    /// and height.
    pub open spec fn read_pixels(self) -> (Raster, (usize, usize)) {
        (self.surface, self.resolution)
    }

    /// The state after a pass has begun: the surface is cleared.
    pub open spec fn pass_begun(self) -> BackendState {
        BackendState { surface: Raster::cleared(self.surface.width, self.surface.height), ..self }
    }

    /// The state after one poll cycle over `batch`.
    pub open spec fn polled(self, batch: Seq<InputEvent>) -> BackendState {
        match spec_poll(batch) {
            PollOutcome::Redraw { resize: Some(grid) } => self.resized(grid_size(grid)),
            _ => self,
        }
    }

    /// What one poll cycle over `batch` reports.
    pub open spec fn poll_report(self, batch: Seq<InputEvent>) -> Result<
        Seq<WindowEvent>,
        SurfaceError,
    > {
        match spec_poll(batch) {
            PollOutcome::Redraw { resize: Some(grid) } => if fits(grid_size(grid)) {
                Ok(seq![WindowEvent::RequestRedraw])
            } else {
                Err(SurfaceError::TooLarge)
            },
            outcome => Ok(spec_window_events(outcome)),
        }
    }

    /// Whether `pixels` are four bytes for each cell of the grid.
    pub open spec fn accepts(self, pixels: Seq<u8>) -> bool {
        pixels.len() == self.resolution.0 * self.resolution.1 * 4
    }

    /// The state after `pixels` were handed in: they are the back buffer
    /// if they were accepted.
    pub open spec fn presented(self, pixels: Seq<u8>) -> BackendState {
        if self.accepts(pixels) {
            BackendState {
                surface: Raster {
                    width: self.resolution.0 as nat,
                    height: self.resolution.1 as nat,
                    bytes: pixels,
                },
                ..self
            }
        } else {
            self
        }
    }

    /// The cells that the back buffer paints.
    pub open spec fn cells(self) -> Seq<GlyphCell> {
        spec_compose(self.surface)
    }
}

/// The events of a report, as a sequence.
pub open spec fn report_view(res: Result<Vec<WindowEvent>, SurfaceError>) -> Result<
    Seq<WindowEvent>,
    SurfaceError,
> {
    match res {
        Ok(events) => Ok(events@),
        Err(e) => Err(e),
    }
}

/// The surface together with the grid size on record.
pub struct Backend {
    surface: Surface,
    resolution: (usize, usize),
}

impl View for Backend {
    type V = BackendState;

    closed spec fn view(&self) -> BackendState {
        BackendState { resolution: self.resolution, surface: self.surface@ }
    }
}

impl Backend {
    /// The size on record is the size of the surface.
    pub open spec fn wf(&self) -> bool {
        self@.wf()
    }

    /// A backend for a terminal of `grid` columns and rows. The window
    /// title and the window size asked for have no meaning in a terminal.
    pub fn new(_win_title: &str, _win_size: (usize, usize), grid: GridSize) -> (res: Result<
        Backend,
        SurfaceError,
    >)
        ensures
            res.is_ok() <==> fits(grid_size(grid)),
            res matches Ok(backend) ==> backend.wf() && backend@ == BackendState::created(
                grid_size(grid),
            ),
            res matches Err(e) ==> e == SurfaceError::TooLarge,
    {
        let resolution = (grid.columns as usize, grid.rows as usize);
        match Surface::create(resolution) {
            Ok(surface) => Ok(Backend { surface, resolution }),
            Err(e) => Err(e),
        }
    }

    /// Columns and rows on record.
    pub fn resolution(&self) -> (size: (usize, usize))
        ensures
            size == self@.resolution,
    {
        self.resolution
    }

    /// How long one poll may wait for an event: one frame interval.
    pub fn poll_timeout_nanos(&self) -> (nanos: u64)
        ensures
            nanos == NANOS_PER_SECOND / TARGET_HZ,
            nanos == 16_666_666,
    {
        NANOS_PER_SECOND / TARGET_HZ
    }

    /// Resizes the surface and records the new size. A size that does not
    /// fit leaves the backend as it was.
    pub fn resize(&mut self, new_size: (usize, usize)) -> (res: Result<(), SurfaceError>)
        requires
            old(self).wf(),
        ensures
            final(self).wf(),
            final(self)@ == old(self)@.resized(new_size),
            res.is_ok() <==> fits(new_size),
            res matches Err(e) ==> e == SurfaceError::TooLarge,
    {
        match self.surface.resize(new_size) {
            Ok(()) => {
                self.resolution = new_size;
                Ok(())
            },
            Err(e) => Err(e),
        }
    }

    /// The current contents of the back buffer, with its width and height.
    pub fn read_pixels(&self) -> (res: (PixelBuffer, (usize, usize)))
        requires
            self.wf(),
        ensures
            res.0.wf(),
            res.0@ == self@.read_pixels().0,
            res.1 == self@.read_pixels().1,
    {
        self.surface.read_pixels()
    }

    /// Starts a pass: the back buffer is cleared to transparent black.
    pub fn begin_pass(&mut self)
        requires
            old(self).wf(),
        ensures
            final(self).wf(),
            final(self)@ == old(self)@.pass_begun(),
    {
        self.surface.clear();
    }

    /// One poll cycle over the events that were pending, oldest first.
    ///
    /// The quit key anywhere in the batch reports exactly `Quit` and
    /// changes nothing. Otherwise a redraw is requested and only the oldest
    /// event is handled: if it is a resize, the surface is resized first.
    /// The later events stay with the caller for the polls to come.
    pub fn poll_events(&mut self, pending: &Vec<InputEvent>) -> (res: Result<
        Vec<WindowEvent>,
        SurfaceError,
    >)
        requires
            old(self).wf(),
        ensures
            final(self).wf(),
            final(self)@ == old(self)@.polled(pending@),
            report_view(res) == old(self)@.poll_report(pending@),
    {
        let outcome = poll(pending);
        match outcome {
            PollOutcome::Redraw { resize: Some(grid) } => {
                match self.resize((grid.columns as usize, grid.rows as usize)) {
                    Ok(()) => Ok(window_events(outcome)),
                    Err(e) => Err(e),
                }
            },
            _ => Ok(window_events(outcome)),
        }
    }

    /// Takes the pixels that a pass left behind and turns them into the
    /// paint of the frame: every cell in its glyph and colour, row by row
    /// from the top left. Pixels that are not four bytes per cell of the
    /// grid are refused and change nothing.
    pub fn render(&mut self, pixels: Vec<u8>) -> (res: Result<Vec<TerminalCommand>, SurfaceError>)
        requires
            old(self).wf(),
        ensures
            final(self).wf(),
            final(self)@ == old(self)@.presented(pixels@),
            res.is_ok() <==> old(self)@.accepts(pixels@),
            res matches Ok(commands) ==> commands@ == spec_paint(final(self)@.cells()),
            res matches Err(e) ==> e == SurfaceError::PixelCountMismatch,
    {
        match self.surface.store_pixels(pixels) {
            Ok(()) => {
                let cells = compose(self.surface.pixels());
                Ok(paint_commands(&cells))
            },
            Err(e) => Err(e),
        }
    }
}

/// Every operation keeps the size on record equal to the size of the
/// surface.
pub proof fn lemma_backend_stays_wf(
    s: BackendState,
    size: (usize, usize),
    batch: Seq<InputEvent>,
    pixels: Seq<u8>,
)
    requires
        s.wf(),
    ensures
        fits(size) ==> BackendState::created(size).wf(),
        s.resized(size).wf(),
        s.pass_begun().wf(),
        s.polled(batch).wf(),
        s.presented(pixels).wf(),
{
}

/// After a resize to a size that fits, the size on record is the new size,
/// and what is read back has the new width and height and four bytes for
/// each cell.
pub proof fn lemma_resize_then_read(s: BackendState, new_size: (usize, usize))
    requires
        s.wf(),
        fits(new_size),
    ensures
        s.resized(new_size).resolution == new_size,
        s.resized(new_size).read_pixels().1 == new_size,
        s.resized(new_size).read_pixels().0.width == new_size.0,
        s.resized(new_size).read_pixels().0.height == new_size.1,
        s.resized(new_size).read_pixels().0.bytes.len() == new_size.0 * new_size.1 * 4,
{
}

/// A resize as the oldest pending event, with no quit key behind it, has
/// the effect of a resize: the size on record and the size read back are
/// the new size, and a redraw is requested.
pub proof fn lemma_poll_resizes(s: BackendState, later: Seq<InputEvent>, columns: u16, rows: u16)
    requires
        s.wf(),
        !has_quit(seq![InputEvent::Resize(columns, rows)] + later),
        fits((columns as usize, rows as usize)),
    ensures
        s.polled(seq![InputEvent::Resize(columns, rows)] + later) == s.resized(
            (columns as usize, rows as usize),
        ),
        s.polled(seq![InputEvent::Resize(columns, rows)] + later).resolution == (
            columns as usize,
            rows as usize,
        ),
        s.polled(seq![InputEvent::Resize(columns, rows)] + later).read_pixels().1 == (
            columns as usize,
            rows as usize,
        ),
        s.poll_report(seq![InputEvent::Resize(columns, rows)] + later) == Ok::<
            Seq<WindowEvent>,
            SurfaceError,
        >(seq![WindowEvent::RequestRedraw]),
{
    lemma_only_oldest_is_handled(InputEvent::Resize(columns, rows), later);
}

/// Where the oldest pending event is no resize and no quit key follows,
/// the poll changes nothing, whatever waits behind it: a resize further
/// back is handled by a later poll.
pub proof fn lemma_poll_leaves_later_events(
    s: BackendState,
    oldest: InputEvent,
    later: Seq<InputEvent>,
)
    requires
        !(oldest is Resize),
        !has_quit(seq![oldest] + later),
    ensures
        s.polled(seq![oldest] + later) == s,
        s.poll_report(seq![oldest] + later) == Ok::<Seq<WindowEvent>, SurfaceError>(
            seq![WindowEvent::RequestRedraw],
        ),
{
    lemma_only_oldest_is_handled(oldest, later);
}

/// A batch that holds the quit key reports exactly `Quit` and leaves the
/// backend as it was: resizes in the batch are dropped with the rest.
pub proof fn lemma_quit_changes_nothing(s: BackendState, batch: Seq<InputEvent>)
    requires
        has_quit(batch),
    ensures
        s.polled(batch) == s,
        s.poll_report(batch) == Ok::<Seq<WindowEvent>, SurfaceError>(seq![WindowEvent::Quit]),
{
}

/// A pass in which nothing is drawn paints every cell of the grid blank.
pub proof fn lemma_empty_pass_is_blank(s: BackendState)
    requires
        s.wf(),
    ensures
        s.pass_begun().cells().len() == s.resolution.0 * s.resolution.1,
        forall|i: int|
            0 <= i < s.resolution.0 * s.resolution.1 ==> #[trigger] s.pass_begun().cells()[i]
                == blank_cell(),
{
    lemma_cleared_is_blank(s.surface.width, s.surface.height);
}

} // verus!

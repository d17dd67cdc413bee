//! The renderer: a backend and the one frame that may be open against it.

use vstd::prelude::*;
use crate::backend::{
    fits, grid_size, lemma_empty_pass_is_blank, report_view, Backend, BackendState,
};
use crate::camera::{default_camera, CameraBuilder};
use crate::compositor::blank_cell;
use crate::events::{GridSize, InputEvent, WindowEvent};
use crate::frame::{DrawGroup, Frame, FramePhase};
use crate::mesh::MeshBuilder;
use crate::pixels::PixelBuffer;
use crate::surface::SurfaceError;
use crate::terminal::{spec_paint, TerminalCommand};

verus! {

/// What a renderer is, mathematically: its backend and where it stands in
/// the life of its one frame.
pub struct RendererState {
    pub backend: BackendState,
    pub phase: FramePhase,
}

impl RendererState {
    pub open spec fn wf(self) -> bool {
        self.backend.wf()
    }

    /// A fresh renderer for a grid of `size`: no frame is open.
    pub open spec fn created(size: (usize, usize)) -> RendererState {
        RendererState { backend: BackendState::created(size), phase: FramePhase::Idle }
    }

    /// Whether a frame can be opened: none is open or under way.
    pub open spec fn can_begin(self) -> bool {
        self.phase == FramePhase::Idle
    }

    /// The state after a frame was asked for.
    pub open spec fn begun(self) -> RendererState {
        if self.can_begin() {
            RendererState { phase: FramePhase::Open, ..self }
        } else {
            self
        }
    }

    /// The state after the open frame was finished: its pass is under way
    /// and the surface is cleared.
    pub open spec fn finished(self) -> RendererState
        recommends
            self.phase == FramePhase::Open,
    {
        RendererState { backend: self.backend.pass_begun(), phase: FramePhase::Finishing }
    }

    /// The state after the open frame was given up.
    pub open spec fn discarded(self) -> RendererState
        recommends
            self.phase == FramePhase::Open,
    {
        RendererState { phase: FramePhase::Idle, ..self }
    }

    /// The state after `pixels` were presented: if they were accepted they
    /// are the back buffer, and a pass that was under way is over.
    pub open spec fn presented(self, pixels: Seq<u8>) -> RendererState {
        if self.backend.accepts(pixels) {
            RendererState {
                backend: self.backend.presented(pixels),
                phase: self.phase.after_present(),
            }
        } else {
            self
        }
    }

    /// The state after one poll cycle over `batch`.
    pub open spec fn polled(self, batch: Seq<InputEvent>) -> RendererState {
        RendererState { backend: self.backend.polled(batch), ..self }
    }
}

pub struct Renderer {
    backend: Backend,
    phase: FramePhase,
}

impl View for Renderer {
    type V = RendererState;

    closed spec fn view(&self) -> RendererState {
        RendererState { backend: self.backend@, phase: self.phase }
    }
}

impl Renderer {
    /// The size on record is the size of the surface.
    pub open spec fn wf(&self) -> bool {
        self@.wf()
    }

    /// A renderer for a terminal of `grid` columns and rows, with no frame
    /// open.
    pub fn new(win_title: &str, win_size: (usize, usize), grid: GridSize) -> (res: Result<
        Renderer,
        SurfaceError,
    >)
        ensures
            res.is_ok() <==> fits(grid_size(grid)),
            res matches Ok(renderer) ==> renderer.wf() && renderer@ == RendererState::created(
                grid_size(grid),
            ),
            res matches Err(e) ==> e == SurfaceError::TooLarge,
    {
        match Backend::new(win_title, win_size, grid) {
            Ok(backend) => Ok(Renderer { backend, phase: FramePhase::Idle }),
            Err(e) => Err(e),
        }
    }

    /// One poll cycle over the events that were pending, oldest first.
    pub fn get_events(&mut self, pending: &Vec<InputEvent>) -> (res: Result<
        Vec<WindowEvent>,
        SurfaceError,
    >)
        requires
            old(self).wf(),
        ensures
            final(self).wf(),
            final(self)@ == old(self)@.polled(pending@),
            report_view(res) == old(self)@.backend.poll_report(pending@),
    {
        self.backend.poll_events(pending)
    }

    /// Columns and rows of the grid.
    pub fn size(&self) -> (size: (usize, usize))
        ensures
            size == self@.backend.resolution,
    {
        self.backend.resolution()
    }

    /// Where the renderer stands in the life of its one frame.
    pub fn phase(&self) -> (phase: FramePhase)
        ensures
            phase == self@.phase,
    {
        self.phase
    }

    /// How long one poll may wait for an event: one frame interval.
    pub fn poll_timeout_nanos(&self) -> (nanos: u64)
        ensures
            nanos == 16_666_666,
    {
        self.backend.poll_timeout_nanos()
    }

    /// Opens a frame for the current grid. Only one frame may be open:
    /// until the last one is finished and presented, or given up, there is
    /// no other.
    pub fn begin_frame<M, S>(&mut self) -> (frame: Option<Frame<M, S>>)
        requires
            old(self).wf(),
        ensures
            final(self).wf(),
            final(self)@ == old(self)@.begun(),
            frame.is_some() <==> old(self)@.can_begin(),
            frame matches Some(f) ==> {
                &&& f.spec_groups() == Seq::<DrawGroup<M, S>>::empty()
                &&& f.spec_aspect() == old(self)@.backend.resolution
            },
    {
        match self.phase {
            FramePhase::Idle => {
                self.phase = FramePhase::Open;
                Some(Frame::open(self.backend.resolution()))
            },
            _ => None,
        }
    }

    /// Starts the pass of the frame that is being finished.
    pub(crate) fn enter_pass(&mut self)
        requires
            old(self).wf(),
            old(self)@.phase == FramePhase::Open,
        ensures
            final(self).wf(),
            final(self)@ == old(self)@.finished(),
    {
        self.backend.begin_pass();
        self.phase = FramePhase::Finishing;
    }

    /// Forgets the frame that was open.
    pub(crate) fn release_frame(&mut self)
        requires
            old(self).wf(),
            old(self)@.phase == FramePhase::Open,
        ensures
            final(self).wf(),
            final(self)@ == old(self)@.discarded(),
    {
        self.phase = FramePhase::Idle;
    }

    /// Takes the pixels that the pass left behind and turns them into the
    /// paint of the frame. This ends a pass that was under way. Pixels that
    /// are not four bytes per cell of the grid are refused and change
    /// nothing.
    pub fn present(&mut self, pixels: Vec<u8>) -> (res: Result<Vec<TerminalCommand>, SurfaceError>)
        requires
            old(self).wf(),
        ensures
            final(self).wf(),
            final(self)@ == old(self)@.presented(pixels@),
            res.is_ok() <==> old(self)@.backend.accepts(pixels@),
            res matches Ok(commands) ==> commands@ == spec_paint(final(self)@.backend.cells()),
            res matches Err(e) ==> e == SurfaceError::PixelCountMismatch,
    {
        match self.backend.render(pixels) {
            Ok(commands) => {
                match self.phase {
                    FramePhase::Finishing => {
                        self.phase = FramePhase::Idle;
                    },
                    _ => {},
                }
                Ok(commands)
            },
            Err(e) => Err(e),
        }
    }

    /// The current contents of the back buffer, with its width and height.
    pub fn read_pixels(&self) -> (res: (PixelBuffer, (usize, usize)))
        requires
            self.wf(),
        ensures
            res.0.wf(),
            res.0@ == self@.backend.read_pixels().0,
            res.1 == self@.backend.read_pixels().1,
    {
        self.backend.read_pixels()
    }

    /// A builder that starts from the default camera.
    pub fn create_camera(&self) -> (builder: CameraBuilder)
        ensures
            builder@ == default_camera(),
    {
        CameraBuilder::new()
    }

    /// The builder of the meshes that the renderer knows by name.
    pub fn create_mesh(&mut self) -> (builder: MeshBuilder)
        ensures
            *final(self) == *old(self),
    {
        MeshBuilder {}
    }
}

/// Only one frame is open at a time: once a frame was issued, no other is
/// until that one is finished and presented, or given up.
pub proof fn lemma_one_frame_at_a_time(r: RendererState, batch: Seq<InputEvent>)
    requires
        r.can_begin(),
    ensures
        !r.begun().can_begin(),
        !r.begun().begun().can_begin(),
        !r.begun().polled(batch).can_begin(),
        !r.begun().finished().can_begin(),
        r.begun().discarded().can_begin(),
{
}

/// An open frame stays open until it is finished or given up: polling,
/// presenting pixels and asking for another frame do not close it.
pub proof fn lemma_open_frame_stays_open(
    r: RendererState,
    batch: Seq<InputEvent>,
    pixels: Seq<u8>,
)
    requires
        r.phase == FramePhase::Open,
    ensures
        r.polled(batch).phase == FramePhase::Open,
        r.presented(pixels).phase == FramePhase::Open,
        r.begun() == r,
{
}

/// A frame that is begun, finished and presented leaves the renderer ready
/// for the next one, with the presented pixels as its back buffer.
pub proof fn lemma_frame_cycle(r: RendererState, pixels: Seq<u8>)
    requires
        r.wf(),
        r.can_begin(),
        r.backend.accepts(pixels),
    ensures
        r.begun().phase == FramePhase::Open,
        r.begun().finished().phase == FramePhase::Finishing,
        r.begun().finished().presented(pixels).can_begin(),
        r.begun().finished().presented(pixels).backend.surface.bytes == pixels,
        r.begun().finished().presented(pixels).backend.resolution == r.backend.resolution,
{
}

/// Giving a frame up, or asking for a second one, leaves the surface and
/// the size on record untouched: a misuse does not spoil the next frame.
pub proof fn lemma_misuse_keeps_surface(r: RendererState)
    requires
        r.phase == FramePhase::Open,
    ensures
        r.discarded().backend == r.backend,
        r.begun().backend == r.backend,
        r.discarded().can_begin(),
{
}

/// Pixels of the wrong length do not end a pass.
pub proof fn lemma_refused_pixels_change_nothing(r: RendererState, pixels: Seq<u8>)
    requires
        !r.backend.accepts(pixels),
    ensures
        r.presented(pixels) == r,
{
}

/// Finishing a frame clears the surface whatever the frame holds: with
/// nothing drawn into it, the surface paints every cell of the grid blank.
pub proof fn lemma_finished_frame_starts_blank(r: RendererState)
    requires
        r.wf(),
        r.phase == FramePhase::Open,
    ensures
        r.finished().wf(),
        r.finished().backend.resolution == r.backend.resolution,
        r.finished().backend.cells().len() == r.backend.resolution.0 * r.backend.resolution.1,
        forall|i: int|
            0 <= i < r.backend.resolution.0 * r.backend.resolution.1
                ==> #[trigger] r.finished().backend.cells()[i] == blank_cell(),
{
    lemma_empty_pass_is_blank(r.backend);
}

} // verus!

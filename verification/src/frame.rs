//! One frame: the draw groups collected for it and the pass that finishing
//! it yields.
//!
//! The frame is generic in what stands for a mesh (`M`) and for a shader
//! program (`S`): to the frame they are handles that it keeps in order.

use vstd::prelude::*;
use crate::pixels::Rgba;
use crate::renderer::Renderer;

verus! {

/// Where the renderer stands in the life of its one frame.
#[derive(Clone, Copy, Debug, PartialEq, Eq, Structural)]
pub enum FramePhase {
    /// No frame is open; the last one, if any, is finished.
    Idle,
    /// A frame is open and accepts draw groups.
    Open,
    /// The frame was finished and its pass is under way.
    Finishing,
}

impl FramePhase {
    /// The phase after pixels were presented: a pass that was under way is
    /// over.
    pub open spec fn after_present(self) -> FramePhase {
        match self {
            FramePhase::Finishing => FramePhase::Idle,
            other => other,
        }
    }
}

/// A misuse of a frame.
#[derive(Clone, Copy, Debug, PartialEq, Eq, Structural)]
pub enum FrameError {
    /// The frame was given up before it was finished.
    Unfinished,
}

/// Meshes drawn with one shader program, in list order.
pub struct DrawGroup<M, S> {
    pub meshes: Vec<M>,
    pub shader: S,
}

/// What to execute on the GPU for a finished frame.
pub struct Pass<M, S> {
    /// The colour the back buffer is cleared to before anything is drawn.
    pub clear: Rgba,
    /// Width and height of the grid when the frame was begun.
    pub aspect: (usize, usize),
    /// The draw groups, in the order in which they were added.
    pub groups: Vec<DrawGroup<M, S>>,
}

/// Fully transparent black: a cell in which no geometry was drawn.
pub open spec fn transparent_black() -> Rgba {
    Rgba { r: 0, g: 0, b: 0, a: 0 }
}

/// An open frame.
pub struct Frame<M, S> {
    aspect: (usize, usize),
    groups: Vec<DrawGroup<M, S>>,
}

impl<M, S> Frame<M, S> {
    /// The draw groups added so far, oldest first.
    pub closed spec fn spec_groups(&self) -> Seq<DrawGroup<M, S>> {
        self.groups@
    }

    /// Width and height of the grid when the frame was begun.
    pub closed spec fn spec_aspect(&self) -> (usize, usize) {
        self.aspect
    }

    /// An empty frame for a grid of the given width and height.
    pub(crate) fn open(aspect: (usize, usize)) -> (frame: Frame<M, S>)
        ensures
            frame.spec_groups() == Seq::<DrawGroup<M, S>>::empty(),
            frame.spec_aspect() == aspect,
    {
        Frame { aspect, groups: Vec::new() }
    }

    /// Width and height of the grid when the frame was begun.
    pub fn aspect(&self) -> (aspect: (usize, usize))
        ensures
            aspect == self.spec_aspect(),
    {
        self.aspect
    }

    /// Number of draw groups added so far.
    pub fn group_count(&self) -> (n: usize)
        ensures
            n == self.spec_groups().len(),
    {
        self.groups.len()
    }

    /// Adds a draw group: `meshes`, drawn in list order with `shader`.
    pub fn draw_with_shader(&mut self, shader: S, meshes: Vec<M>)
        ensures
            final(self).spec_groups() == old(self).spec_groups().push(
                DrawGroup { meshes, shader },
            ),
            final(self).spec_aspect() == old(self).spec_aspect(),
    {
        self.groups.push(DrawGroup { meshes, shader });
    }

    /// Finishes the frame against the renderer that opened it: the renderer
    /// starts the pass by clearing its surface to transparent black, and
    /// the draw groups are handed out in the order in which they were
    /// added. The renderer's frame must be open.
    pub fn finish(self, renderer: &mut Renderer) -> (pass: Pass<M, S>)
        requires
            old(renderer).wf(),
            old(renderer)@.phase == FramePhase::Open,
        ensures
            final(renderer).wf(),
            final(renderer)@ == old(renderer)@.finished(),
            pass.clear == transparent_black(),
            pass.aspect == self.spec_aspect(),
            pass.groups@ == self.spec_groups(),
    {
        renderer.enter_pass();
        Pass { clear: Rgba { r: 0, g: 0, b: 0, a: 0 }, aspect: self.aspect, groups: self.groups }
    }

    /// Gives the frame up unfinished, against the renderer that opened it.
    /// The renderer is free again; the misuse is reported to the caller.
    /// The renderer's frame must be open.
    pub fn discard(self, renderer: &mut Renderer) -> (error: FrameError)
        requires
            old(renderer).wf(),
            old(renderer)@.phase == FramePhase::Open,
        ensures
            final(renderer).wf(),
            final(renderer)@ == old(renderer)@.discarded(),
            error == FrameError::Unfinished,
    {
        renderer.release_frame();
        FrameError::Unfinished
    }
}

} // verus!

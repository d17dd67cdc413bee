//! The camera's configuration: where it stands, what it looks at, and how
//! it projects.
//!
//! Lengths and angles are fixed-point numbers: `FIXED_ONE` steps make one
//! unit (or one degree).

use vstd::prelude::*;

verus! {

/// Fixed-point steps in one unit.
pub const FIXED_ONE: i32 = 65_536;

/// A point or direction in space, in fixed-point steps.
#[derive(Clone, Copy, Debug, PartialEq, Eq, Structural)]
pub struct Vec3 {
    pub x: i32,
    pub y: i32,
    pub z: i32,
}

/// How the camera projects.
#[derive(Clone, Copy, Debug, PartialEq, Eq, Structural)]
pub enum Projection {
    /// Perspective with the given vertical field of view in degrees.
    Perspective(i32),
    /// Orthographic over the given extent, centred on the view axis.
    Orthographic(i32),
}

/// A camera. Once built it is only read.
#[derive(Clone, Copy, Debug, PartialEq, Eq, Structural)]
pub struct Camera {
    pub eye: Vec3,
    pub target: Vec3,
    pub up: Vec3,
    pub projection: Projection,
}

/// The camera that a builder starts from: at (0, 0, -1), looking at the
/// origin, +Y up, orthographic with extent 1.
pub open spec fn default_camera() -> Camera {
    Camera {
        eye: Vec3 { x: 0, y: 0, z: (-FIXED_ONE) as i32 },
        target: Vec3 { x: 0, y: 0, z: 0 },
        up: Vec3 { x: 0, y: FIXED_ONE, z: 0 },
        projection: Projection::Orthographic(FIXED_ONE),
    }
}

impl Camera {
    /// The default camera.
    pub fn new() -> (camera: Camera)
        ensures
            camera == default_camera(),
    {
        Camera {
            eye: Vec3 { x: 0, y: 0, z: -FIXED_ONE },
            target: Vec3 { x: 0, y: 0, z: 0 },
            up: Vec3 { x: 0, y: FIXED_ONE, z: 0 },
            projection: Projection::Orthographic(FIXED_ONE),
        }
    }
}

/// Collects the settings of a camera.
pub struct CameraBuilder {
    camera: Camera,
}

impl View for CameraBuilder {
    type V = Camera;

    closed spec fn view(&self) -> Camera {
        self.camera
    }
}

impl CameraBuilder {
    /// A builder that holds the default camera.
    pub fn new() -> (builder: CameraBuilder)
        ensures
            builder@ == default_camera(),
    {
        CameraBuilder { camera: Camera::new() }
    }

    /// The camera as configured.
    pub fn build(self) -> (camera: Camera)
        ensures
            camera == self@,
    {
        self.camera
    }

    pub fn with_position(self, eye: Vec3) -> (builder: CameraBuilder)
        ensures
            builder@ == (Camera { eye, ..self@ }),
    {
        let mut builder = self;
        builder.camera.eye = eye;
        builder
    }

    pub fn with_target(self, target: Vec3) -> (builder: CameraBuilder)
        ensures
            builder@ == (Camera { target, ..self@ }),
    {
        let mut builder = self;
        builder.camera.target = target;
        builder
    }

    pub fn with_up(self, up: Vec3) -> (builder: CameraBuilder)
        ensures
            builder@ == (Camera { up, ..self@ }),
    {
        let mut builder = self;
        builder.camera.up = up;
        builder
    }

    pub fn with_pos_target_up(self, eye: Vec3, target: Vec3, up: Vec3) -> (builder: CameraBuilder)
        ensures
            builder@ == (Camera { eye, target, up, ..self@ }),
    {
        self.with_position(eye).with_target(target).with_up(up)
    }

    pub fn with_projection(self, projection: Projection) -> (builder: CameraBuilder)
        ensures
            builder@ == (Camera { projection, ..self@ }),
    {
        let mut builder = self;
        builder.camera.projection = projection;
        builder
    }
}

} // verus!

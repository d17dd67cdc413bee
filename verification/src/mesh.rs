//! Geometry as the host holds it before it is handed to the GPU: vertices
//! of a fixed layout and a triangle index list.

use vstd::prelude::*;
use crate::camera::FIXED_ONE;

verus! {

/// What a vertex attribute means to a shader.
#[derive(Clone, Copy, Debug, PartialEq, Eq, Structural)]
pub enum VertexSemantics {
    /// Three position coordinates.
    Position,
    /// Three normalised colour channels.
    Color,
}

impl VertexSemantics {
    /// The attribute's position in the vertex layout.
    pub open spec fn spec_index(self) -> int {
        match self {
            VertexSemantics::Position => 0,
            VertexSemantics::Color => 1,
        }
    }

    /// The attribute's position in the vertex layout.
    pub fn index(&self) -> (i: usize)
        ensures
            i == self.spec_index(),
    {
        match self {
            VertexSemantics::Position => 0,
            VertexSemantics::Color => 1,
        }
    }

    /// The name a shader binds the attribute by.
    pub fn name(&self) -> (n: &'static str)
        ensures
            *self == VertexSemantics::Position ==> n@ == "pos"@,
            *self == VertexSemantics::Color ==> n@ == "color"@,
    {
        match self {
            VertexSemantics::Position => "pos",
            VertexSemantics::Color => "color",
        }
    }
}

/// A vertex: a 3-D position in fixed-point steps and an RGB colour.
#[derive(Clone, Copy, Debug, PartialEq, Eq)]
pub struct Vertex {
    position: [i32; 3],
    color: [u8; 3],
}

impl Vertex {
    pub closed spec fn spec_position(&self) -> Seq<i32> {
        self.position@
    }

    pub closed spec fn spec_color(&self) -> Seq<u8> {
        self.color@
    }

    pub fn new(position: [i32; 3], color: [u8; 3]) -> (v: Vertex)
        ensures
            v.spec_position() == position@,
            v.spec_color() == color@,
    {
        Vertex { position, color }
    }

    pub fn position(&self) -> (p: [i32; 3])
        ensures
            p@ == self.spec_position(),
    {
        self.position
    }

    pub fn color(&self) -> (c: [u8; 3])
        ensures
            c@ == self.spec_color(),
    {
        self.color
    }
}

/// The index list `n - 1, n - 2, .., 0`.
pub open spec fn reversed_indices(n: nat) -> Seq<u32> {
    Seq::new(n, |i: int| (n - 1 - i) as u32)
}

/// Triangle geometry: vertices and the order in which they are drawn.
pub struct Mesh {
    vertices: Vec<Vertex>,
    indices: Vec<u32>,
}

impl Mesh {
    pub closed spec fn spec_vertices(&self) -> Seq<Vertex> {
        self.vertices@
    }

    pub closed spec fn spec_indices(&self) -> Seq<u32> {
        self.indices@
    }

    /// A mesh that draws `vertices` in the order given by `indices`.
    pub fn from_vertices_indices(vertices: Vec<Vertex>, indices: Vec<u32>) -> (mesh: Mesh)
        ensures
            mesh.spec_vertices() == vertices@,
            mesh.spec_indices() == indices@,
    {
        Mesh { vertices, indices }
    }

    /// A mesh that draws `vertices` from the last to the first.
    pub fn from_vertices(vertices: Vec<Vertex>) -> (mesh: Mesh)
        requires
            vertices@.len() <= u32::MAX,
        ensures
            mesh.spec_vertices() == vertices@,
            mesh.spec_indices() == reversed_indices(vertices@.len()),
    {
        let n: usize = vertices.len();
        let mut indices: Vec<u32> = Vec::new();
        let mut i: usize = n;
        while i > 0
            invariant
                i <= n,
                n <= u32::MAX,
                indices@.len() == n - i,
                forall|k: int| 0 <= k < indices@.len() ==> indices@[k] == (n - 1 - k) as u32,
            decreases i,
        {
            i = i - 1;
            indices.push(i as u32);
        }
        assert(indices@ =~= reversed_indices(n as nat));
        Mesh::from_vertices_indices(vertices, indices)
    }

    pub fn vertices(&self) -> (v: &Vec<Vertex>)
        ensures
            v@ == self.spec_vertices(),
    {
        &self.vertices
    }

    pub fn indices(&self) -> (i: &Vec<u32>)
        ensures
            i@ == self.spec_indices(),
    {
        &self.indices
    }
}

/// Positions of the built-in triangle's corners, in fixed-point steps.
pub open spec fn triangle_positions() -> Seq<Seq<i32>> {
    seq![seq![-32_768i32, -32_768i32, 0i32], seq![32_768i32, -32_768i32, 0i32], seq![
        0i32,
        32_768i32,
        0i32,
    ]]
}

/// Colours of the built-in triangle's corners: red, green, blue.
pub open spec fn triangle_colors() -> Seq<Seq<u8>> {
    seq![seq![255u8, 0u8, 0u8], seq![0u8, 255u8, 0u8], seq![0u8, 0u8, 255u8]]
}

/// Builds the meshes that the renderer knows by name.
pub struct MeshBuilder {}

impl MeshBuilder {
    /// A triangle with corners at (-0.5, -0.5), (0.5, -0.5) and (0, 0.5),
    /// coloured red, green and blue, drawn from the last corner to the
    /// first.
    pub fn triangle(&mut self) -> (mesh: Mesh)
        ensures
            mesh.spec_vertices().len() == 3,
            forall|k: int|
                0 <= k < 3 ==> (#[trigger] mesh.spec_vertices()[k]).spec_position()
                    == triangle_positions()[k],
            forall|k: int|
                0 <= k < 3 ==> (#[trigger] mesh.spec_vertices()[k]).spec_color()
                    == triangle_colors()[k],
            mesh.spec_indices() == seq![2u32, 1u32, 0u32],
    {
        let half: i32 = FIXED_ONE / 2;
        let mut vertices: Vec<Vertex> = Vec::new();
        vertices.push(Vertex::new([-half, -half, 0], [255, 0, 0]));
        vertices.push(Vertex::new([half, -half, 0], [0, 255, 0]));
        vertices.push(Vertex::new([0, half, 0], [0, 0, 255]));
        let mesh = Mesh::from_vertices(vertices);
        proof {
            assert(mesh.spec_indices() =~= seq![2u32, 1u32, 0u32]);
            assert(mesh.spec_vertices()[0].spec_position() =~= triangle_positions()[0]);
            assert(mesh.spec_vertices()[1].spec_position() =~= triangle_positions()[1]);
            assert(mesh.spec_vertices()[2].spec_position() =~= triangle_positions()[2]);
            assert(mesh.spec_vertices()[0].spec_color() =~= triangle_colors()[0]);
            assert(mesh.spec_vertices()[1].spec_color() =~= triangle_colors()[1]);
            assert(mesh.spec_vertices()[2].spec_color() =~= triangle_colors()[2]);
        }
        mesh
    }
}

} // verus!

//! The vertex data of a session: a list of positions that is handed to the graphics context
//! once and drawn as triangles, three vertices to a triangle.

use vstd::prelude::*;
use crate::command::Command;
use crate::scalar::{Scalar, MINUS_ONE_BITS, ONE_BITS, ZERO_BITS};
use crate::shader::AttributeHandle;

verus! {

/// The number of components of a vertex position.
pub const COMPONENTS_PER_VERTEX: u8 = 3;

/// The number of vertices that make one triangle.
pub const VERTICES_PER_TRIANGLE: usize = 3;

/// A position in space.
#[derive(Clone, Copy, Debug, PartialEq, Eq, Structural)]
pub struct Vertex {
    pub x: Scalar,
    pub y: Scalar,
    pub z: Scalar,
}

impl Vertex {
    /// The position with the given coordinates.
    pub fn new(x: Scalar, y: Scalar, z: Scalar) -> (vertex: Vertex)
        ensures
            vertex == (Vertex { x, y, z }),
    {
        Vertex { x, y, z }
    }
}

/// The corner of the unit square at the given two coordinates, in the plane at depth zero.
pub open spec fn corner(x: u32, y: u32) -> Vertex {
    Vertex { x: Scalar { bits: x }, y: Scalar { bits: y }, z: Scalar { bits: ZERO_BITS } }
}

/// The three corners of the triangle that covers the lower right half of the surface.
pub open spec fn triangle_corners() -> Seq<Vertex> {
    seq![
        corner(MINUS_ONE_BITS, MINUS_ONE_BITS),
        corner(ONE_BITS, MINUS_ONE_BITS),
        corner(ONE_BITS, ONE_BITS),
    ]
}

/// The six corners of the two triangles that together cover the whole surface.
pub open spec fn quad_corners() -> Seq<Vertex> {
    seq![
        corner(MINUS_ONE_BITS, MINUS_ONE_BITS),
        corner(ONE_BITS, MINUS_ONE_BITS),
        corner(ONE_BITS, ONE_BITS),
        corner(MINUS_ONE_BITS, MINUS_ONE_BITS),
        corner(MINUS_ONE_BITS, ONE_BITS),
        corner(ONE_BITS, ONE_BITS),
    ]
}

/// A single triangle over the lower right half of the surface.
pub fn triangle() -> (vertices: Vec<Vertex>)
    ensures
        vertices@ == triangle_corners(),
{
    let low = Scalar::minus_one();
    let high = Scalar::one();
    let flat = Scalar::zero();
    let mut vertices: Vec<Vertex> = Vec::new();
    vertices.push(Vertex { x: low, y: low, z: flat });
    vertices.push(Vertex { x: high, y: low, z: flat });
    vertices.push(Vertex { x: high, y: high, z: flat });
    vertices
}

/// The quad that fills the surface, as two triangles.
pub fn quad() -> (vertices: Vec<Vertex>)
    ensures
        vertices@ == quad_corners(),
{
    let low = Scalar::minus_one();
    let high = Scalar::one();
    let flat = Scalar::zero();
    let mut vertices: Vec<Vertex> = Vec::new();
    vertices.push(Vertex { x: low, y: low, z: flat });
    vertices.push(Vertex { x: high, y: low, z: flat });
    vertices.push(Vertex { x: high, y: high, z: flat });
    vertices.push(Vertex { x: low, y: low, z: flat });
    vertices.push(Vertex { x: low, y: high, z: flat });
    vertices.push(Vertex { x: high, y: high, z: flat });
    vertices
}

/// The number of whole triangles that a run of `vertices` vertices makes.
pub open spec fn triangles_in(vertices: nat) -> nat {
    vertices / 3
}

/// The vertex data that the graphics context holds for a session.
#[derive(Debug)]
pub struct GeometryBuffer {
    vertices: Vec<Vertex>,
}

impl View for GeometryBuffer {
    type V = Seq<Vertex>;

    closed spec fn view(&self) -> Seq<Vertex> {
        self.vertices@
    }
}

impl GeometryBuffer {
    /// A buffer that holds no vertex yet.
    pub fn new() -> (buffer: GeometryBuffer)
        ensures
            buffer@ == Seq::<Vertex>::empty(),
    {
        GeometryBuffer { vertices: Vec::new() }
    }

    /// Replaces what the buffer holds by a copy of `vertices`, and returns the command that
    /// has the graphics context take the new data.
    pub fn upload(&mut self, vertices: &Vec<Vertex>) -> (command: Command)
        ensures
            final(self)@ == vertices@,
            command == (Command::UploadVertices { count: vertices@.len() as usize }),
    {
        let mut copy: Vec<Vertex> = Vec::new();
        let mut i: usize = 0;
        while i < vertices.len()
            invariant
                i <= vertices.len(),
                copy@ == vertices@.take(i as int),
            decreases vertices.len() - i,
        {
            copy.push(vertices[i]);
            i = i + 1;
        }
        self.vertices = copy;
        Command::UploadVertices { count: i }
    }

    /// The vertices that the buffer holds, in order.
    pub fn vertices(&self) -> (vertices: &Vec<Vertex>)
        ensures
            vertices@ == self@,
    {
        &self.vertices
    }

    /// The number of vertices that the buffer holds.
    pub fn vertex_count(&self) -> (count: usize)
        ensures
            count == self@.len(),
    {
        self.vertices.len()
    }

    /// The number of whole triangles that the buffer holds: a third of its vertices.
    pub fn triangle_count(&self) -> (count: usize)
        ensures
            count == triangles_in(self@.len()),
    {
        self.vertices.len() / VERTICES_PER_TRIANGLE
    }

    /// The command that wires the buffer to the attribute behind `handle`: three components
    /// to a vertex, tightly packed and not normalized.
    pub fn bind_as_attribute(&self, handle: AttributeHandle) -> (command: Command)
        ensures
            command == (Command::BindAttribute {
                program: handle.program,
                slot: handle.slot,
                components: COMPONENTS_PER_VERTEX,
            }),
    {
        Command::BindAttribute {
            program: handle.program,
            slot: handle.slot,
            components: COMPONENTS_PER_VERTEX,
        }
    }
}

} // verus!

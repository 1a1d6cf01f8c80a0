//! What the library shows the renderer: colors, per-body render choices,
//! and the pixel-buffer interface a host rasterizer implements.
//! The rasterizer itself is an external collaborator and is not part of
//! this crate's logic.

use vstd::prelude::*;
use crate::math::geometry::FiniteLine3d;
use crate::math::vector::Vector3d;
use crate::mesh::Mesh;

verus! {

/// Bytes per pixel of the render target: RGBA, alpha always 255.
pub const PIXEL_FORMAT: usize = 4;

/// An RGB color; the alpha byte of the pixel buffer is fixed at 255.
#[derive(Clone, Copy, PartialEq, Eq, Structural, Debug)]
pub struct Color {
    pub r: u8,
    pub g: u8,
    pub b: u8,
}

impl Color {
    pub fn rgb(r: u8, g: u8, b: u8) -> (c: Self)
        ensures
            c == (Color { r, g, b }),
    {
        Color { r, g, b }
    }
}

/// The pixel-buffer interface a host rasterizer offers: `width · height · 4`
/// bytes, RGBA, row-major top-down. The library only consumes it; hosts
/// implement it outside the verified core.
pub trait ScreenBufferTrait {
    /// Paints every pixel `color` and clears the depth information.
    fn clear(&mut self, color: Color);

    /// The current pixel bytes, `(x + y·width) · 4` indexing.
    fn pixel_buffer(&self) -> &[u8];

    /// The current pixel bytes, writable.
    fn pixel_buffer_mut(&mut self) -> &mut [u8];
}

/// How one body is drawn: not at all, chosen polyhedron edges, the
/// edges of chosen faces, a shaded mesh, or every polyhedron edge.
pub enum RenderOption {
    Invisible,
    Edges { edge_indices: Vec<usize>, color: Color },
    FaceEdges { face_indices: Vec<usize>, color: Color },
    Mesh { mesh: Mesh, color: Color },
    PolyhedronEdges { color: Color },
    NoDraw,
}

/// A line queued for the rasterizer.
#[derive(Clone, Copy, PartialEq, Eq, Structural, Debug)]
pub struct RenderLine {
    pub finite_line_3d: FiniteLine3d,
}

impl RenderLine {
    /// The line between two vertices.
    pub fn from_vertices(vertex_1: &Vector3d, vertex_2: &Vector3d) -> (r: Self)
        ensures
            r.finite_line_3d.start == *vertex_1,
            r.finite_line_3d.end == *vertex_2,
    {
        RenderLine { finite_line_3d: FiniteLine3d { start: *vertex_1, end: *vertex_2 } }
    }
}

} // verus!

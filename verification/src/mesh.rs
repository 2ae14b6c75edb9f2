//! Rounded boxes and their meshes.
//!
//! A box is given in whole units of the caller's choosing. Its mesh places the
//! twenty-four vertices of the layout on the box and joins them with the
//! triangles of the requested fidelity.

use vstd::prelude::*;
use crate::indices::{index_table, triangle_indices, Fidelity};
use crate::layout::{
    is_axis_unit, lemma_vertex_table, vertex_layout, vertex_table, VertexLayout, VERTEX_COUNT,
};
use crate::topology::{
    is_consistently_wound, is_edge_watertight, lemma_full_mesh_is_consistently_wound,
    lemma_full_mesh_is_watertight, lemma_indices_in_range,
};

verus! {

/// A cuboid with bevelled edges: its extent on each axis, and the radius by
/// which the faces are drawn in from the edges. Nothing is asked of the
/// values: a box whose radius is negative, or too large for its extent, still
/// has a mesh, whose triangles then overlap or vanish.
#[derive(Clone, Copy, Debug, PartialEq, Eq, Hash, Structural)]
pub struct SoftBox {
    pub min_x: i32,
    pub max_x: i32,
    pub min_y: i32,
    pub max_y: i32,
    pub min_z: i32,
    pub max_z: i32,
    pub edge_radius: i32,
}

/// A vertex of a mesh: where it is, the unit normal of the face it belongs
/// to, and its texture coordinates, each `0` or `1`.
#[derive(Clone, Copy, Debug, PartialEq, Eq, Hash)]
pub struct Vertex {
    pub position: (i64, i64, i64),
    pub normal: (i8, i8, i8),
    pub uv: (u8, u8),
}

/// A triangle mesh: a vertex buffer, and an index buffer of which every three
/// entries name the vertices of one triangle, counter-clockwise as seen from
/// outside. A mesh does not change once it is built.
#[derive(Debug)]
pub struct Mesh {
    vertices: Vec<Vertex>,
    indices: Vec<u32>,
}

/// Half of `length`, rounded towards zero.
pub open spec fn half(length: int) -> int {
    if length >= 0 {
        length / 2
    } else {
        -((-length) / 2)
    }
}

impl SoftBox {
    /// The box centred at the origin with the given side lengths: on each
    /// axis it reaches half the length, rounded towards zero, to both sides.
    pub fn new(x_length: i32, y_length: i32, z_length: i32, edge_radius: i32) -> (b: SoftBox)
        ensures
            b.max_x == half(x_length as int),
            b.max_y == half(y_length as int),
            b.max_z == half(z_length as int),
            b.edge_radius == edge_radius,
            b.is_centred(),
    {
        SoftBox {
            max_x: x_length / 2,
            min_x: -(x_length / 2),
            max_y: y_length / 2,
            min_y: -(y_length / 2),
            max_z: z_length / 2,
            min_z: -(z_length / 2),
            edge_radius,
        }
    }

    /// The box reaches equally far to both sides of the origin on each axis.
    pub open spec fn is_centred(self) -> bool {
        &&& self.min_x == -self.max_x
        &&& self.min_y == -self.max_y
        &&& self.min_z == -self.max_z
    }

    /// The radius is not negative and leaves room for a face on every side:
    /// twice the radius is less than the extent on each axis.
    pub open spec fn is_bevelled_properly(self) -> bool {
        &&& 0 <= self.edge_radius
        &&& 2 * self.edge_radius < self.max_x - self.min_x
        &&& 2 * self.edge_radius < self.max_y - self.min_y
        &&& 2 * self.edge_radius < self.max_z - self.min_z
    }

    /// Where the box puts a vertex of the layout.
    pub open spec fn spec_position(self, layout: VertexLayout) -> (i64, i64, i64) {
        (
            layout.x.coordinate(self.min_x as int, self.max_x as int, self.edge_radius as int)
                as i64,
            layout.y.coordinate(self.min_y as int, self.max_y as int, self.edge_radius as int)
                as i64,
            layout.z.coordinate(self.min_z as int, self.max_z as int, self.edge_radius as int)
                as i64,
        )
    }

    /// The vertex that the box makes of an entry of the layout.
    pub open spec fn spec_vertex(self, layout: VertexLayout) -> Vertex {
        Vertex {
            position: self.spec_position(layout),
            normal: layout.spec_normal(),
            uv: (layout.u, layout.v),
        }
    }

    /// The vertex buffer of the box: the layout, entry by entry, placed on
    /// the box.
    pub open spec fn spec_vertices(self) -> Seq<Vertex> {
        Seq::new(VERTEX_COUNT as nat, |i: int| self.spec_vertex(vertex_table()[i]))
    }

    /// The vertex that the box makes of an entry of the layout.
    pub fn vertex(&self, layout: &VertexLayout) -> (v: Vertex)
        ensures
            v == self.spec_vertex(*layout),
            v.position.0 == layout.x.coordinate(
                self.min_x as int,
                self.max_x as int,
                self.edge_radius as int,
            ),
            v.position.1 == layout.y.coordinate(
                self.min_y as int,
                self.max_y as int,
                self.edge_radius as int,
            ),
            v.position.2 == layout.z.coordinate(
                self.min_z as int,
                self.max_z as int,
                self.edge_radius as int,
            ),
    {
        Vertex {
            position: (
                layout.x.place(self.min_x, self.max_x, self.edge_radius),
                layout.y.place(self.min_y, self.max_y, self.edge_radius),
                layout.z.place(self.min_z, self.max_z, self.edge_radius),
            ),
            normal: layout.normal(),
            uv: (layout.u, layout.v),
        }
    }

    /// The vertex buffer of the box.
    pub fn vertices(&self) -> (buffer: Vec<Vertex>)
        ensures
            buffer@ == self.spec_vertices(),
            buffer@.len() == VERTEX_COUNT,
    {
        let table = vertex_layout();
        let mut buffer: Vec<Vertex> = Vec::new();
        let mut i: usize = 0;
        while i < table.len()
            invariant
                i <= table@.len() == VERTEX_COUNT,
                table@ == vertex_table(),
                buffer@ == Seq::new(i as nat, |k: int| self.spec_vertex(vertex_table()[k])),
            decreases table@.len() - i,
        {
            buffer.push(self.vertex(&table[i]));
            i += 1;
        }
        buffer
    }
}

impl Mesh {
    /// Every mesh holds the twenty-four vertices of a box, and whole
    /// triangles that name vertices of the mesh.
    #[verifier::type_invariant]
    pub closed spec fn is_well_formed(self) -> bool {
        &&& self.vertices@.len() == VERTEX_COUNT
        &&& self.indices@.len() % 3 == 0
        &&& forall|i: int|
            0 <= i < self.indices@.len() ==> (#[trigger] self.indices@[i]) < VERTEX_COUNT
    }

    /// The vertex buffer of the mesh.
    pub closed spec fn spec_vertices(self) -> Seq<Vertex> {
        self.vertices@
    }

    /// The index buffer of the mesh.
    pub closed spec fn spec_indices(self) -> Seq<u32> {
        self.indices@
    }

    /// The vertex buffer of the mesh.
    pub fn vertices(&self) -> (buffer: &Vec<Vertex>)
        ensures
            buffer@ == self.spec_vertices(),
            buffer@.len() == VERTEX_COUNT,
    {
        proof {
            use_type_invariant(self);
        }
        &self.vertices
    }

    /// The index buffer of the mesh: whole triangles over its vertices.
    pub fn indices(&self) -> (buffer: &Vec<u32>)
        ensures
            buffer@ == self.spec_indices(),
            buffer@.len() % 3 == 0,
            forall|i: int| 0 <= i < buffer@.len() ==> (#[trigger] buffer@[i]) < VERTEX_COUNT,
    {
        proof {
            use_type_invariant(self);
        }
        &self.indices
    }

    /// Number of vertices.
    pub fn vertex_count(&self) -> (n: usize)
        ensures
            n == self.spec_vertices().len(),
            n == VERTEX_COUNT,
    {
        proof {
            use_type_invariant(self);
        }
        self.vertices.len()
    }

    /// Number of indices.
    pub fn index_count(&self) -> (n: usize)
        ensures
            n == self.spec_indices().len(),
    {
        self.indices.len()
    }

    /// Hands the two buffers of the mesh to the caller.
    pub fn into_buffers(self) -> (buffers: (Vec<Vertex>, Vec<u32>))
        ensures
            buffers.0@ == self.spec_vertices(),
            buffers.1@ == self.spec_indices(),
    {
        (self.vertices, self.indices)
    }
}

/// The mesh of the box `shape` at the given fidelity. The vertices are the
/// same at every fidelity; the fidelity decides which triangles join them.
pub fn build(shape: &SoftBox, fidelity: Fidelity) -> (mesh: Mesh)
    ensures
        mesh.spec_vertices() == shape.spec_vertices(),
        mesh.spec_indices() == index_table(fidelity),
        mesh.spec_vertices().len() == VERTEX_COUNT,
        mesh.spec_indices().len() == fidelity.spec_index_count(),
        forall|i: int|
            0 <= i < VERTEX_COUNT ==> is_axis_unit((#[trigger] mesh.spec_vertices()[i]).normal),
        fidelity == Fidelity::Full ==> is_edge_watertight(mesh.spec_indices())
            && is_consistently_wound(mesh.spec_indices()),
{
    let vertices = shape.vertices();
    let indices = triangle_indices(fidelity);
    proof {
        lemma_indices_in_range(fidelity);
        lemma_vertex_table();
        lemma_full_mesh_is_watertight();
        lemma_full_mesh_is_consistently_wound();
    }
    Mesh { vertices, indices }
}

} // verus!

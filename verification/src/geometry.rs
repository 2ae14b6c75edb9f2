//! What holds of the vertices of every rounded box.

use vstd::prelude::*;
use crate::indices::{FACE_TRIANGLES, TRIANGLES, TRIANGLE_COUNT};
use crate::layout::{is_axis_unit, lemma_vertex_table, vertex_table, VERTEX_COUNT};
use crate::mesh::{SoftBox, Vertex};

verus! {

/// The positions that occur in a vertex buffer.
pub open spec fn position_set(vertices: Seq<Vertex>) -> Set<(i64, i64, i64)> {
    Set::new(
        |p: (i64, i64, i64)|
            exists|i: int| 0 <= i < vertices.len() && (#[trigger] vertices[i]).position == p,
    )
}

/// The corners of the cuboid that `shape` fills: the points that lie at an
/// extreme of the box on every axis.
pub open spec fn corner_set(shape: SoftBox) -> Set<(i64, i64, i64)> {
    Set::new(
        |p: (i64, i64, i64)|
            {
                &&& p.0 == shape.min_x || p.0 == shape.max_x
                &&& p.1 == shape.min_y || p.1 == shape.max_y
                &&& p.2 == shape.min_z || p.2 == shape.max_z
            },
    )
}

/// Every box has twenty-four vertices.
pub proof fn lemma_vertex_count(shape: SoftBox)
    ensures
        shape.spec_vertices().len() == 24,
{
}

/// Every normal of every box is one of the six unit vectors along the axes.
pub proof fn lemma_normals_axis_aligned(shape: SoftBox)
    ensures
        forall|i: int|
            0 <= i < shape.spec_vertices().len() ==> is_axis_unit(
                (#[trigger] shape.spec_vertices()[i]).normal,
            ),
{
    lemma_vertex_table();
}

/// With an edge radius of zero the box is sharp: its vertices lie in the
/// corners of the cuboid, and every corner holds one.
pub proof fn lemma_sharp_box_corners(shape: SoftBox)
    requires
        shape.edge_radius == 0,
    ensures
        position_set(shape.spec_vertices()) == corner_set(shape),
{
    let vertices = shape.spec_vertices();
    assert forall|p: (i64, i64, i64)| position_set(vertices).contains(p) implies corner_set(
        shape,
    ).contains(p) by {
        let i = choose|i: int| 0 <= i < vertices.len() && (#[trigger] vertices[i]).position == p;
        assert(vertices[i] == shape.spec_vertex(vertex_table()[i]));
    }
    assert forall|p: (i64, i64, i64)| corner_set(shape).contains(p) implies position_set(
        vertices,
    ).contains(p) by {
        // One vertex of the front face or of the back face lies in each corner.
        let i: int = if p.2 == shape.max_z {
            if p.0 == shape.min_x {
                if p.1 == shape.min_y {
                    0
                } else {
                    3
                }
            } else {
                if p.1 == shape.min_y {
                    1
                } else {
                    2
                }
            }
        } else {
            if p.0 == shape.min_x {
                if p.1 == shape.min_y {
                    7
                } else {
                    4
                }
            } else {
                if p.1 == shape.min_y {
                    6
                } else {
                    5
                }
            }
        };
        assert(vertices[i] == shape.spec_vertex(vertex_table()[i]));
        assert(vertices[i].position == p);
    }
    assert(position_set(vertices) =~= corner_set(shape));
}

/// Where the edge radius is positive and leaves room for the faces, no two
/// vertices of the box lie in the same place.
pub proof fn lemma_vertices_distinct(shape: SoftBox)
    requires
        shape.is_bevelled_properly(),
        shape.edge_radius > 0,
    ensures
        forall|i: int, j: int|
            0 <= i < j < VERTEX_COUNT ==> (#[trigger] shape.spec_vertices()[i]).position != (
            #[trigger] shape.spec_vertices()[j]).position,
{
    let vertices = shape.spec_vertices();
    assert forall|i: int, j: int| 0 <= i < j < VERTEX_COUNT implies (#[trigger] vertices[i]).position
        != (#[trigger] vertices[j]).position by {
        assert(vertices[i] == shape.spec_vertex(vertex_table()[i]));
        assert(vertices[j] == shape.spec_vertex(vertex_table()[j]));
    }
}

/// The way from `p` to `q`.
pub open spec fn between(p: (i64, i64, i64), q: (i64, i64, i64)) -> (int, int, int) {
    (q.0 - p.0, q.1 - p.1, q.2 - p.2)
}

/// The cross product of `a` and `b`.
pub open spec fn cross(a: (int, int, int), b: (int, int, int)) -> (int, int, int) {
    (a.1 * b.2 - a.2 * b.1, a.2 * b.0 - a.0 * b.2, a.0 * b.1 - a.1 * b.0)
}

/// The part of `c` along the normal `n`.
pub open spec fn along(n: (i8, i8, i8), c: (int, int, int)) -> int {
    n.0 * c.0 + n.1 * c.1 + n.2 * c.2
}

/// Whether the triangle `p`, `q`, `r` turns counter-clockwise for an eye
/// towards which the normal `n` points.
pub open spec fn winds_counter_clockwise(
    p: (i64, i64, i64),
    q: (i64, i64, i64),
    r: (i64, i64, i64),
    n: (i8, i8, i8),
) -> bool {
    along(n, cross(between(p, q), between(p, r))) > 0
}

/// The sign of a product follows from the signs of its factors.
proof fn lemma_product_sign(x: int, y: int)
    by (nonlinear_arith)
    ensures
        x == 0 || y == 0 ==> x * y == 0,
        (x > 0 && y > 0) || (x < 0 && y < 0) ==> x * y > 0,
        (x > 0 && y < 0) || (x < 0 && y > 0) ==> x * y < 0,
{
}

/// A product with a component of a unit normal is the other factor, its
/// negative, or zero.
proof fn lemma_unit_product(n: i8, c: int)
    by (nonlinear_arith)
    ensures
        n == 0 ==> n * c == 0,
        n == 1 ==> n * c == c,
        n == -1 ==> n * c == -c,
{
}

/// On a box whose edge radius leaves room for the faces, the two triangles of
/// every face turn counter-clockwise as seen from outside the box, where the
/// normal of the face points.
pub proof fn lemma_faces_wind_counter_clockwise(shape: SoftBox, t: int)
    requires
        shape.is_bevelled_properly(),
        0 <= t < FACE_TRIANGLES,
    ensures
        ({
            let vertices = shape.spec_vertices();
            let row = TRIANGLES@[t];
            winds_counter_clockwise(
                vertices[row@[0] as int].position,
                vertices[row@[1] as int].position,
                vertices[row@[2] as int].position,
                vertices[row@[0] as int].normal,
            )
        }),
{
    let vertices = shape.spec_vertices();
    let row = TRIANGLES@[t];
    let first = vertices[row@[0] as int];
    let second = vertices[row@[1] as int];
    let third = vertices[row@[2] as int];
    assert(first == shape.spec_vertex(vertex_table()[row@[0] as int]));
    assert(second == shape.spec_vertex(vertex_table()[row@[1] as int]));
    assert(third == shape.spec_vertex(vertex_table()[row@[2] as int]));
    let a = between(first.position, second.position);
    let b = between(first.position, third.position);
    let c = cross(a, b);
    lemma_product_sign(a.1, b.2);
    lemma_product_sign(a.2, b.1);
    lemma_product_sign(a.2, b.0);
    lemma_product_sign(a.0, b.2);
    lemma_product_sign(a.0, b.1);
    lemma_product_sign(a.1, b.0);
    lemma_unit_product(first.normal.0, c.0);
    lemma_unit_product(first.normal.1, c.1);
    lemma_unit_product(first.normal.2, c.2);
}

/// Twice the way from the centre of the box to `p`.
pub open spec fn from_centre(shape: SoftBox, p: (i64, i64, i64)) -> (int, int, int) {
    (
        2 * p.0 - (shape.min_x + shape.max_x),
        2 * p.1 - (shape.min_y + shape.max_y),
        2 * p.2 - (shape.min_z + shape.max_z),
    )
}

/// Whether the triangle `p`, `q`, `r` shows its front to an eye outside the
/// box: seen from there, away from the centre, it turns counter-clockwise.
pub open spec fn faces_outwards(
    shape: SoftBox,
    p: (i64, i64, i64),
    q: (i64, i64, i64),
    r: (i64, i64, i64),
) -> bool {
    let c = cross(between(p, q), between(p, r));
    let v = from_centre(shape, p);
    c.0 * v.0 + c.1 * v.1 + c.2 * v.2 > 0
}

/// A product keeps its size and changes its sign when one factor does.
proof fn lemma_product_negated(x: int, y: int)
    by (nonlinear_arith)
    ensures
        (-x) * y == -(x * y),
        x * (-y) == -(x * y),
        x * y == y * x,
{
}

/// On a box whose edge radius is positive and leaves room for the faces,
/// every triangle of the mesh of full fidelity shows its front to the
/// outside.
pub proof fn lemma_triangles_face_outwards(shape: SoftBox, t: int)
    requires
        shape.is_bevelled_properly(),
        shape.edge_radius > 0,
        0 <= t < TRIANGLE_COUNT,
    ensures
        ({
            let vertices = shape.spec_vertices();
            let row = TRIANGLES@[t];
            faces_outwards(
                shape,
                vertices[row@[0] as int].position,
                vertices[row@[1] as int].position,
                vertices[row@[2] as int].position,
            )
        }),
{
    let vertices = shape.spec_vertices();
    let row = TRIANGLES@[t];
    let first = vertices[row@[0] as int];
    let second = vertices[row@[1] as int];
    let third = vertices[row@[2] as int];
    assert(first == shape.spec_vertex(vertex_table()[row@[0] as int]));
    assert(second == shape.spec_vertex(vertex_table()[row@[1] as int]));
    assert(third == shape.spec_vertex(vertex_table()[row@[2] as int]));
    let a = between(first.position, second.position);
    let b = between(first.position, third.position);
    let c = cross(a, b);
    let v = from_centre(shape, first.position);
    lemma_product_sign(a.1, b.2);
    lemma_product_sign(a.2, b.1);
    lemma_product_sign(a.2, b.0);
    lemma_product_sign(a.0, b.2);
    lemma_product_sign(a.0, b.1);
    lemma_product_sign(a.1, b.0);
    lemma_product_negated(a.1, b.2);
    lemma_product_negated(a.2, b.1);
    lemma_product_negated(a.2, b.0);
    lemma_product_negated(a.0, b.2);
    lemma_product_negated(a.0, b.1);
    lemma_product_negated(a.1, b.0);
    lemma_product_sign(c.0, v.0);
    lemma_product_sign(c.1, v.1);
    lemma_product_sign(c.2, v.2);
}

} // verus!

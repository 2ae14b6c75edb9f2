//! What holds of the index buffers: their size, their range, and how the
//! triangles of a mesh of full fidelity close the surface.

use vstd::prelude::*;
use crate::indices::{index_table, Corner, Edge, Fidelity, TRIANGLES, TRIANGLE_COUNT};
use crate::layout::{vertex_table, Face, VERTEX_COUNT};

verus! {

/// Number of whole triangles in the index buffer `s`.
pub open spec fn triangles_in(s: Seq<u32>) -> int {
    s.len() as int / 3
}

/// Whether the triangle with the vertices `p`, `q`, `r` has a side that joins
/// `a` and `b`, in either direction.
pub open spec fn joins(p: u32, q: u32, r: u32, a: u32, b: u32) -> bool {
    ||| (p == a && q == b) || (p == b && q == a)
    ||| (q == a && r == b) || (q == b && r == a)
    ||| (r == a && p == b) || (r == b && p == a)
}

/// Whether triangle `t` of the index buffer `s` has a side that joins the
/// vertices `a` and `b`.
pub open spec fn triangle_has_edge(s: Seq<u32>, t: int, a: u32, b: u32) -> bool {
    joins(s[3 * t], s[3 * t + 1], s[3 * t + 2], a, b)
}

/// The triangles `t` and `u` of `s` are two, both have the edge between `a`
/// and `b`, and no other triangle of `s` has it.
pub open spec fn edge_shared_by(s: Seq<u32>, a: u32, b: u32, t: int, u: int) -> bool {
    &&& 0 <= t < u < triangles_in(s)
    &&& triangle_has_edge(s, t, a, b)
    &&& triangle_has_edge(s, u, a, b)
    &&& forall|w: int|
        0 <= w < triangles_in(s) && #[trigger] triangle_has_edge(s, w, a, b) ==> w == t || w == u
}

/// Exactly two triangles of `s` have the edge between `a` and `b`.
pub open spec fn edge_shared_by_two(s: Seq<u32>, a: u32, b: u32) -> bool {
    exists|t: int, u: int| edge_shared_by(s, a, b, t, u)
}

/// The surface that `s` describes has no boundary: every edge of every
/// triangle is shared by exactly two triangles.
pub open spec fn is_edge_watertight(s: Seq<u32>) -> bool {
    forall|t: int, a: u32, b: u32|
        0 <= t < triangles_in(s) && #[trigger] triangle_has_edge(s, t, a, b)
            ==> edge_shared_by_two(s, a, b)
}

/// Whether the triangle with the vertices `p`, `q`, `r`, taken in this order,
/// has a side that runs from `a` to `b`.
pub open spec fn runs(p: u32, q: u32, r: u32, a: u32, b: u32) -> bool {
    (p == a && q == b) || (q == a && r == b) || (r == a && p == b)
}

/// Whether triangle `t` of the index buffer `s` has a side that runs from the
/// vertex `a` to the vertex `b`.
pub open spec fn triangle_runs(s: Seq<u32>, t: int, a: u32, b: u32) -> bool {
    runs(s[3 * t], s[3 * t + 1], s[3 * t + 2], a, b)
}

/// The triangles of `s` all turn the same way: where a side of one triangle
/// runs from `a` to `b`, a side of another runs back from `b` to `a`.
pub open spec fn is_consistently_wound(s: Seq<u32>) -> bool {
    forall|t: int, a: u32, b: u32|
        0 <= t < triangles_in(s) && #[trigger] triangle_runs(s, t, a, b) ==> exists|u: int|
            0 <= u < triangles_in(s) && u != t && triangle_runs(s, u, b, a)
}

/// An index buffer holds three indices for each triangle of its fidelity:
/// thirty-six for the faces alone, sixty with the four bands around the left
/// face, and one hundred and thirty-two with all bands and corners.
pub proof fn lemma_index_count(fidelity: Fidelity)
    ensures
        index_table(fidelity).len() == fidelity.spec_index_count(),
        index_table(Fidelity::Basic).len() == 36,
        index_table(Fidelity::Partial).len() == 60,
        index_table(Fidelity::Full).len() == 132,
{
}

/// Triangle `t` of an index buffer is row `t` of the triangle table.
pub proof fn lemma_triangle_at(fidelity: Fidelity, t: int)
    requires
        0 <= t < fidelity.spec_triangle_count(),
    ensures
        triangles_in(index_table(fidelity)) == fidelity.spec_triangle_count(),
        index_table(fidelity)[3 * t] == TRIANGLES@[t]@[0],
        index_table(fidelity)[3 * t + 1] == TRIANGLES@[t]@[1],
        index_table(fidelity)[3 * t + 2] == TRIANGLES@[t]@[2],
{
}

/// Every index of an index buffer names one of the twenty-four vertices.
pub proof fn lemma_indices_in_range(fidelity: Fidelity)
    ensures
        forall|i: int|
            0 <= i < index_table(fidelity).len() ==> #[trigger] index_table(fidelity)[i]
                < VERTEX_COUNT,
{
    assert forall|t: int, k: int| 0 <= t < TRIANGLE_COUNT && 0 <= k < 3 implies TRIANGLES@[t]@[k]
        < VERTEX_COUNT by {}
    assert forall|i: int| 0 <= i < index_table(fidelity).len() implies #[trigger] index_table(
        fidelity,
    )[i] < VERTEX_COUNT by {
        assert(0 <= i / 3 < TRIANGLE_COUNT && 0 <= i % 3 < 3);
    }
}

/// A mesh of lower fidelity holds the triangles of a mesh of higher fidelity,
/// in the same order, and stops earlier: the faces are the same at every
/// fidelity.
pub proof fn lemma_fidelity_prefix(lower: Fidelity, higher: Fidelity)
    requires
        lower.spec_index_count() <= higher.spec_index_count(),
    ensures
        index_table(lower) == index_table(higher).take(lower.spec_index_count()),
{
    assert(index_table(lower) =~= index_table(higher).take(lower.spec_index_count()));
}

/// The face that owns vertex `v` of the layout.
pub open spec fn face_of(v: u32) -> Face {
    vertex_table()[v as int].face
}

/// Whether the triangle `row` has a vertex on the face `face`.
pub open spec fn touches(row: [u32; 3], face: Face) -> bool {
    face_of(row@[0]) == face || face_of(row@[1]) == face || face_of(row@[2]) == face
}

/// Whether every vertex of the triangle `row` lies on one of the two faces.
pub open spec fn lies_within(row: [u32; 3], first: Face, second: Face) -> bool {
    forall|k: int| 0 <= k < 3 ==> face_of(#[trigger] row@[k]) == first || face_of(row@[k]) == second
}

/// The two triangles of a face join vertices of that face only.
pub proof fn lemma_face_triangles_stay_on_face(face: Face)
    ensures
        lies_within(TRIANGLES@[2 * face.spec_index()], face, face),
        lies_within(TRIANGLES@[2 * face.spec_index() + 1], face, face),
{
}

/// The band along an edge bridges the two faces that meet there: each of its
/// two triangles has vertices of both faces and of no other.
pub proof fn lemma_band_bridges_faces(edge: Edge)
    ensures
        ({
            let (first, second) = edge.spec_faces();
            let near = TRIANGLES@[edge.spec_first_triangle()];
            let far = TRIANGLES@[edge.spec_first_triangle() + 1];
            &&& lies_within(near, first, second)
            &&& lies_within(far, first, second)
            &&& touches(near, first) && touches(near, second)
            &&& touches(far, first) && touches(far, second)
        }),
{
}

/// The triangle of a corner has one vertex on each of the three faces that
/// meet there.
pub proof fn lemma_corner_joins_faces(corner: Corner)
    ensures
        ({
            let (first, second, third) = corner.spec_faces();
            let row = TRIANGLES@[corner.spec_triangle()];
            touches(row, first) && touches(row, second) && touches(row, third)
        }),
{
}

/// The bands of a mesh of partial fidelity are those along the four edges of
/// the left face.
pub proof fn lemma_partial_bands_surround_left(edge: Edge)
    ensures
        edge.spec_index() < Fidelity::Partial.spec_band_count() <==> (edge.spec_faces().0
            == Face::Left || edge.spec_faces().1 == Face::Left),
{
}

/// Whether the triangle in row `t` of `rows` has a side that joins `a` and
/// `b`.
pub open spec fn row_has_edge(rows: Seq<[u32; 3]>, t: int, a: u32, b: u32) -> bool {
    joins(rows[t]@[0], rows[t]@[1], rows[t]@[2], a, b)
}

/// Whether the triangle in row `t` of `rows` has a side that runs from `a` to
/// `b`.
pub open spec fn row_runs(rows: Seq<[u32; 3]>, t: int, a: u32, b: u32) -> bool {
    runs(rows[t]@[0], rows[t]@[1], rows[t]@[2], a, b)
}

/// The rows `t` and `u` of `rows` are two, both have the edge between `a` and
/// `b`, no other row has it, and the two run along it in opposite directions.
#[verifier::opaque]
pub open spec fn rows_share_edge(rows: Seq<[u32; 3]>, a: u32, b: u32, t: int, u: int) -> bool {
    &&& 0 <= t < u < rows.len()
    &&& row_has_edge(rows, t, a, b)
    &&& row_has_edge(rows, u, a, b)
    &&& forall|w: int|
        0 <= w < rows.len() && #[trigger] row_has_edge(rows, w, a, b) ==> w == t || w == u
    &&& row_runs(rows, t, a, b) <==> row_runs(rows, u, b, a)
    &&& row_runs(rows, t, b, a) <==> row_runs(rows, u, a, b)
}

/// The index buffer `s` lists the triangles of `rows`, one after the other.
pub open spec fn lists_rows(s: Seq<u32>, rows: Seq<[u32; 3]>) -> bool {
    &&& s.len() == 3 * rows.len()
    &&& forall|t: int|
        0 <= t < rows.len() ==> {
            let row = #[trigger] rows[t];
            s[3 * t] == row@[0] && s[3 * t + 1] == row@[1] && s[3 * t + 2] == row@[2]
        }
}

/// The sixty-six edges of the triangle table, each with the two rows that
/// share it.
proof fn lemma_edge_table()
    ensures
        rows_share_edge(TRIANGLES@, 0, 1, 0, 30),
        rows_share_edge(TRIANGLES@, 0, 2, 0, 1),
        rows_share_edge(TRIANGLES@, 0, 3, 1, 12),
        rows_share_edge(TRIANGLES@, 0, 12, 13, 40),
        rows_share_edge(TRIANGLES@, 0, 13, 12, 13),
        rows_share_edge(TRIANGLES@, 0, 20, 30, 31),
        rows_share_edge(TRIANGLES@, 0, 21, 31, 40),
        rows_share_edge(TRIANGLES@, 1, 2, 0, 20),
        rows_share_edge(TRIANGLES@, 1, 10, 20, 21),
        rows_share_edge(TRIANGLES@, 1, 11, 21, 42),
        rows_share_edge(TRIANGLES@, 1, 20, 30, 42),
        rows_share_edge(TRIANGLES@, 2, 3, 1, 29),
        rows_share_edge(TRIANGLES@, 2, 10, 20, 38),
        rows_share_edge(TRIANGLES@, 2, 18, 28, 29),
        rows_share_edge(TRIANGLES@, 2, 19, 28, 38),
        rows_share_edge(TRIANGLES@, 3, 13, 12, 36),
        rows_share_edge(TRIANGLES@, 3, 18, 29, 36),
        rows_share_edge(TRIANGLES@, 4, 5, 2, 34),
        rows_share_edge(TRIANGLES@, 4, 6, 2, 3),
        rows_share_edge(TRIANGLES@, 4, 7, 3, 16),
        rows_share_edge(TRIANGLES@, 4, 14, 16, 37),
        rows_share_edge(TRIANGLES@, 4, 17, 34, 37),
        rows_share_edge(TRIANGLES@, 5, 6, 2, 24),
        rows_share_edge(TRIANGLES@, 5, 9, 24, 39),
        rows_share_edge(TRIANGLES@, 5, 16, 35, 39),
        rows_share_edge(TRIANGLES@, 5, 17, 34, 35),
        rows_share_edge(TRIANGLES@, 6, 7, 3, 33),
        rows_share_edge(TRIANGLES@, 6, 8, 25, 43),
        rows_share_edge(TRIANGLES@, 6, 9, 24, 25),
        rows_share_edge(TRIANGLES@, 6, 23, 33, 43),
        rows_share_edge(TRIANGLES@, 7, 14, 16, 17),
        rows_share_edge(TRIANGLES@, 7, 15, 17, 41),
        rows_share_edge(TRIANGLES@, 7, 22, 32, 41),
        rows_share_edge(TRIANGLES@, 7, 23, 32, 33),
        rows_share_edge(TRIANGLES@, 8, 9, 4, 25),
        rows_share_edge(TRIANGLES@, 8, 10, 4, 5),
        rows_share_edge(TRIANGLES@, 8, 11, 5, 27),
        rows_share_edge(TRIANGLES@, 8, 20, 26, 27),
        rows_share_edge(TRIANGLES@, 8, 23, 26, 43),
        rows_share_edge(TRIANGLES@, 9, 10, 4, 23),
        rows_share_edge(TRIANGLES@, 9, 16, 23, 39),
        rows_share_edge(TRIANGLES@, 10, 11, 5, 21),
        rows_share_edge(TRIANGLES@, 10, 16, 22, 23),
        rows_share_edge(TRIANGLES@, 10, 19, 22, 38),
        rows_share_edge(TRIANGLES@, 11, 20, 27, 42),
        rows_share_edge(TRIANGLES@, 12, 13, 6, 13),
        rows_share_edge(TRIANGLES@, 12, 14, 6, 7),
        rows_share_edge(TRIANGLES@, 12, 15, 7, 19),
        rows_share_edge(TRIANGLES@, 12, 21, 19, 40),
        rows_share_edge(TRIANGLES@, 13, 14, 6, 15),
        rows_share_edge(TRIANGLES@, 13, 17, 14, 15),
        rows_share_edge(TRIANGLES@, 13, 18, 14, 36),
        rows_share_edge(TRIANGLES@, 14, 15, 7, 17),
        rows_share_edge(TRIANGLES@, 14, 17, 15, 37),
        rows_share_edge(TRIANGLES@, 15, 21, 18, 19),
        rows_share_edge(TRIANGLES@, 15, 22, 18, 41),
        rows_share_edge(TRIANGLES@, 16, 17, 8, 35),
        rows_share_edge(TRIANGLES@, 16, 18, 8, 9),
        rows_share_edge(TRIANGLES@, 16, 19, 9, 22),
        rows_share_edge(TRIANGLES@, 17, 18, 8, 14),
        rows_share_edge(TRIANGLES@, 18, 19, 9, 28),
        rows_share_edge(TRIANGLES@, 20, 21, 10, 31),
        rows_share_edge(TRIANGLES@, 20, 22, 10, 11),
        rows_share_edge(TRIANGLES@, 20, 23, 11, 26),
        rows_share_edge(TRIANGLES@, 21, 22, 10, 18),
        rows_share_edge(TRIANGLES@, 22, 23, 11, 32),
{
    reveal(rows_share_edge);
}

/// What two rows of a triangle table share, the two triangles of the index
/// buffer that lists them share.
proof fn lemma_rows_give_edge(s: Seq<u32>, rows: Seq<[u32; 3]>, a: u32, b: u32, t: int, u: int)
    requires
        lists_rows(s, rows),
        rows_share_edge(rows, a, b, t, u),
    ensures
        edge_shared_by(s, a, b, t, u),
{
    reveal(rows_share_edge);
    assert forall|w: int| 0 <= w < triangles_in(s) implies (triangle_has_edge(s, w, a, b)
        <==> row_has_edge(rows, w, a, b)) by {
        let row = rows[w];
        assert(s[3 * w] == row@[0] && s[3 * w + 1] == row@[1] && s[3 * w + 2] == row@[2]);
    }
}

/// An edge is shared by the same rows whichever of its ends is named first.
proof fn lemma_rows_share_edge_symmetric(rows: Seq<[u32; 3]>, a: u32, b: u32, t: int, u: int)
    requires
        rows_share_edge(rows, a, b, t, u),
    ensures
        rows_share_edge(rows, b, a, t, u),
{
    reveal(rows_share_edge);
    assert forall|w: int| 0 <= w < rows.len() && #[trigger] row_has_edge(rows, w, b, a) implies w
        == t || w == u by {
        assert(row_has_edge(rows, w, a, b));
    }
}

/// Every edge of every row of the triangle table is shared by two rows.
proof fn lemma_edge_table_covers(t: int, a: u32, b: u32)
    requires
        0 <= t < TRIANGLE_COUNT,
        row_has_edge(TRIANGLES@, t, a, b),
    ensures
        exists|u: int, v: int| rows_share_edge(TRIANGLES@, a, b, u, v),
{
    lemma_edge_table();
    assert forall|x: u32, y: u32, u: int, v: int| #[trigger]
        rows_share_edge(TRIANGLES@, x, y, u, v) implies rows_share_edge(TRIANGLES@, y, x, u, v) by {
        lemma_rows_share_edge_symmetric(TRIANGLES@, x, y, u, v);
    }
}

/// An index buffer is closed when every edge of every row of the triangle
/// table that it lists is shared by two rows.
proof fn lemma_watertight_from_rows(s: Seq<u32>, rows: Seq<[u32; 3]>)
    requires
        lists_rows(s, rows),
        forall|t: int, a: u32, b: u32|
            0 <= t < rows.len() && #[trigger] row_has_edge(rows, t, a, b) ==> exists|
                u: int,
                v: int,
            | rows_share_edge(rows, a, b, u, v),
    ensures
        is_edge_watertight(s),
{
    assert forall|t: int, a: u32, b: u32|
        0 <= t < triangles_in(s) && #[trigger] triangle_has_edge(
            s,
            t,
            a,
            b,
        ) implies edge_shared_by_two(s, a, b) by {
        let row = rows[t];
        assert(s[3 * t] == row@[0] && s[3 * t + 1] == row@[1] && s[3 * t + 2] == row@[2]);
        assert(row_has_edge(rows, t, a, b));
        let (u, v) = choose|u: int, v: int| rows_share_edge(rows, a, b, u, v);
        lemma_rows_give_edge(s, rows, a, b, u, v);
    }
}

/// The triangles of an index buffer all turn the same way when every edge of
/// every row of the triangle table that it lists is shared by two rows that
/// run along it in opposite directions.
proof fn lemma_winding_from_rows(s: Seq<u32>, rows: Seq<[u32; 3]>)
    requires
        lists_rows(s, rows),
        forall|t: int, a: u32, b: u32|
            0 <= t < rows.len() && #[trigger] row_has_edge(rows, t, a, b) ==> exists|
                u: int,
                v: int,
            | rows_share_edge(rows, a, b, u, v),
    ensures
        is_consistently_wound(s),
{
    assert forall|t: int, a: u32, b: u32|
        0 <= t < triangles_in(s) && #[trigger] triangle_runs(s, t, a, b) implies exists|u: int|
        0 <= u < triangles_in(s) && u != t && triangle_runs(s, u, b, a) by {
        let row = rows[t];
        assert(s[3 * t] == row@[0] && s[3 * t + 1] == row@[1] && s[3 * t + 2] == row@[2]);
        assert(row_has_edge(rows, t, a, b));
        let (u, v) = choose|u: int, v: int| rows_share_edge(rows, a, b, u, v);
        reveal(rows_share_edge);
        let other = if t == u {
            v
        } else {
            u
        };
        let across = rows[other];
        assert(s[3 * other] == across@[0] && s[3 * other + 1] == across@[1] && s[3 * other + 2]
            == across@[2]);
        assert(triangle_runs(s, other, b, a));
    }
}

/// The index buffer of a mesh of full fidelity lists the triangle table, and
/// every edge of every row of the table is shared by two rows.
proof fn lemma_full_mesh_lists_table()
    ensures
        lists_rows(index_table(Fidelity::Full), TRIANGLES@),
        forall|t: int, a: u32, b: u32|
            0 <= t < TRIANGLES@.len() && #[trigger] row_has_edge(TRIANGLES@, t, a, b) ==> exists|
                u: int,
                v: int,
            | rows_share_edge(TRIANGLES@, a, b, u, v),
{
    let s = index_table(Fidelity::Full);
    let rows = TRIANGLES@;
    assert(lists_rows(s, rows)) by {
        assert forall|t: int| 0 <= t < rows.len() implies {
            let row = #[trigger] rows[t];
            s[3 * t] == row@[0] && s[3 * t + 1] == row@[1] && s[3 * t + 2] == row@[2]
        } by {
            lemma_triangle_at(Fidelity::Full, t);
        }
    }
    assert forall|t: int, a: u32, b: u32|
        0 <= t < rows.len() && #[trigger] row_has_edge(rows, t, a, b) implies exists|
            u: int,
            v: int,
        | rows_share_edge(rows, a, b, u, v) by {
        lemma_edge_table_covers(t, a, b);
    }
}

/// A mesh of full fidelity is closed: every edge of each of its triangles is
/// shared by exactly two of its triangles, so the surface has no boundary.
pub proof fn lemma_full_mesh_is_watertight()
    ensures
        is_edge_watertight(index_table(Fidelity::Full)),
{
    lemma_full_mesh_lists_table();
    lemma_watertight_from_rows(index_table(Fidelity::Full), TRIANGLES@);
}

/// The triangles of a mesh of full fidelity all turn the same way: the two
/// triangles that share an edge run along it in opposite directions.
pub proof fn lemma_full_mesh_is_consistently_wound()
    ensures
        is_consistently_wound(index_table(Fidelity::Full)),
{
    lemma_full_mesh_lists_table();
    lemma_winding_from_rows(index_table(Fidelity::Full), TRIANGLES@);
}

/// A mesh of lower fidelity is open: the lower edge of the front face belongs
/// to one triangle only, because the band below it is missing.
pub proof fn lemma_lower_fidelity_is_open(fidelity: Fidelity)
    requires
        fidelity != Fidelity::Full,
    ensures
        !is_edge_watertight(index_table(fidelity)),
{
    let s = index_table(fidelity);
    lemma_triangle_at(fidelity, 0);
    assert(triangle_has_edge(s, 0, 0, 1));
    if edge_shared_by_two(s, 0, 1) {
        let (t, u) = choose|t: int, u: int| edge_shared_by(s, 0, 1, t, u);
        lemma_triangle_at(fidelity, t);
        lemma_triangle_at(fidelity, u);
        assert(row_has_edge(TRIANGLES@, t, 0, 1));
        assert(row_has_edge(TRIANGLES@, u, 0, 1));
        assert(false);
    }
}

} // verus!

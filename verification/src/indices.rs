//! The index buffer of a rounded box.
//!
//! The triangles are listed in one table over the fixed vertex layout: two
//! triangles for each face, two for the bevel band along each edge of the
//! cuboid, and one for each corner. How far into the table a mesh reaches
//! depends on its fidelity.

use vstd::prelude::*;
use crate::layout::Face;

verus! {

/// How much of the bevel a mesh holds.
#[derive(Clone, Copy, Debug, PartialEq, Eq, Hash, Structural)]
pub enum Fidelity {
    /// The six faces only; the bevel is left open.
    Basic,
    /// The six faces and the bands along the four edges of the left face.
    Partial,
    /// The six faces, the bands along all twelve edges, and the eight corner
    /// triangles.
    Full,
}

/// The twelve edges of the cuboid, each named by the two faces that meet in
/// it, in the order of the band table.
#[derive(Clone, Copy, Debug, PartialEq, Eq, Hash, Structural)]
pub enum Edge {
    FrontLeft,
    TopLeft,
    BackLeft,
    BottomLeft,
    FrontRight,
    TopRight,
    BackRight,
    BottomRight,
    TopFront,
    FrontBottom,
    BottomBack,
    BackTop,
}

/// The eight corners of the cuboid, each named by the three faces that meet in
/// it, in the order of the corner table.
#[derive(Clone, Copy, Debug, PartialEq, Eq, Hash, Structural)]
pub enum Corner {
    TopLeftFront,
    TopLeftBack,
    TopRightFront,
    TopRightBack,
    BottomLeftFront,
    BottomLeftBack,
    BottomRightFront,
    BottomRightBack,
}

/// Number of triangles of every mesh that lie on the faces.
pub const FACE_TRIANGLES: usize = 12;

/// Number of triangles of a mesh of full fidelity.
pub const TRIANGLE_COUNT: usize = 44;

/// The triangles of a mesh of full fidelity, each by its three vertices in
/// the vertex layout: two for each face, in the order of the faces; two for
/// the band along each edge, in the order of the edges; one for each corner,
/// in the order of the corners. A mesh of lower fidelity holds the triangles
/// at the beginning of this table.
pub const TRIANGLES: [[u32; 3]; 44] = [
    // faces
    [0, 1, 2],
    [2, 3, 0],
    [4, 5, 6],
    [6, 7, 4],
    [8, 9, 10],
    [10, 11, 8],
    [12, 13, 14],
    [14, 15, 12],
    [16, 17, 18],
    [18, 19, 16],
    [20, 21, 22],
    [22, 23, 20],
    // bands around the left face
    [0, 3, 13],
    [13, 12, 0],
    [18, 17, 13],
    [14, 13, 17],
    [4, 7, 14],
    [14, 7, 15],
    [22, 21, 15],
    [12, 15, 21],
    // bands around the right face
    [2, 1, 10],
    [1, 11, 10],
    [16, 19, 10],
    [10, 9, 16],
    [6, 5, 9],
    [9, 8, 6],
    [20, 23, 8],
    [8, 11, 20],
    // bands between front, top, back and bottom
    [19, 18, 2],
    [3, 2, 18],
    [1, 0, 20],
    [21, 20, 0],
    [23, 22, 7],
    [7, 6, 23],
    [5, 4, 17],
    [17, 16, 5],
    // corners
    [18, 13, 3],
    [17, 4, 14],
    [19, 2, 10],
    [16, 9, 5],
    [21, 0, 12],
    [22, 15, 7],
    [20, 11, 1],
    [23, 6, 8],
];

impl Fidelity {
    /// Number of edge bands in a mesh of this fidelity.
    pub open spec fn spec_band_count(self) -> int {
        match self {
            Fidelity::Basic => 0,
            Fidelity::Partial => 4,
            Fidelity::Full => 12,
        }
    }

    /// Number of corner triangles in a mesh of this fidelity.
    pub open spec fn spec_corner_count(self) -> int {
        match self {
            Fidelity::Full => 8,
            _ => 0,
        }
    }

    /// Number of triangles in a mesh of this fidelity: two for each face, two
    /// for each band and one for each corner.
    pub open spec fn spec_triangle_count(self) -> int {
        12 + 2 * self.spec_band_count() + self.spec_corner_count()
    }

    /// Number of indices in a mesh of this fidelity: three for each triangle.
    pub open spec fn spec_index_count(self) -> int {
        3 * self.spec_triangle_count()
    }

    /// Number of edge bands in a mesh of this fidelity.
    pub fn band_count(self) -> (n: usize)
        ensures
            n == self.spec_band_count(),
    {
        match self {
            Fidelity::Basic => 0,
            Fidelity::Partial => 4,
            Fidelity::Full => 12,
        }
    }

    /// Number of corner triangles in a mesh of this fidelity.
    pub fn corner_count(self) -> (n: usize)
        ensures
            n == self.spec_corner_count(),
    {
        match self {
            Fidelity::Full => 8,
            _ => 0,
        }
    }

    /// Number of triangles in a mesh of this fidelity.
    pub fn triangle_count(self) -> (n: usize)
        ensures
            n == self.spec_triangle_count(),
            FACE_TRIANGLES <= n <= TRIANGLE_COUNT,
    {
        FACE_TRIANGLES + 2 * self.band_count() + self.corner_count()
    }

    /// Number of indices in a mesh of this fidelity.
    pub fn index_count(self) -> (n: usize)
        ensures
            n == self.spec_index_count(),
            self == Fidelity::Basic ==> n == 36,
            self == Fidelity::Partial ==> n == 60,
            self == Fidelity::Full ==> n == 132,
    {
        3 * self.triangle_count()
    }
}

impl Edge {
    /// The position of the edge in the order of the bands.
    pub open spec fn spec_index(self) -> int {
        match self {
            Edge::FrontLeft => 0,
            Edge::TopLeft => 1,
            Edge::BackLeft => 2,
            Edge::BottomLeft => 3,
            Edge::FrontRight => 4,
            Edge::TopRight => 5,
            Edge::BackRight => 6,
            Edge::BottomRight => 7,
            Edge::TopFront => 8,
            Edge::FrontBottom => 9,
            Edge::BottomBack => 10,
            Edge::BackTop => 11,
        }
    }

    /// The two faces that meet in the edge.
    pub open spec fn spec_faces(self) -> (Face, Face) {
        match self {
            Edge::FrontLeft => (Face::Front, Face::Left),
            Edge::TopLeft => (Face::Top, Face::Left),
            Edge::BackLeft => (Face::Back, Face::Left),
            Edge::BottomLeft => (Face::Bottom, Face::Left),
            Edge::FrontRight => (Face::Front, Face::Right),
            Edge::TopRight => (Face::Top, Face::Right),
            Edge::BackRight => (Face::Back, Face::Right),
            Edge::BottomRight => (Face::Bottom, Face::Right),
            Edge::TopFront => (Face::Top, Face::Front),
            Edge::FrontBottom => (Face::Front, Face::Bottom),
            Edge::BottomBack => (Face::Bottom, Face::Back),
            Edge::BackTop => (Face::Back, Face::Top),
        }
    }

    /// The row of the triangle table at which the band of the edge begins.
    pub open spec fn spec_first_triangle(self) -> int {
        FACE_TRIANGLES + 2 * self.spec_index()
    }

    /// The position of the edge in the order of the bands.
    pub fn index(self) -> (i: usize)
        ensures
            i == self.spec_index(),
            i < 12,
    {
        match self {
            Edge::FrontLeft => 0,
            Edge::TopLeft => 1,
            Edge::BackLeft => 2,
            Edge::BottomLeft => 3,
            Edge::FrontRight => 4,
            Edge::TopRight => 5,
            Edge::BackRight => 6,
            Edge::BottomRight => 7,
            Edge::TopFront => 8,
            Edge::FrontBottom => 9,
            Edge::BottomBack => 10,
            Edge::BackTop => 11,
        }
    }

    /// The two faces that meet in the edge.
    pub fn faces(self) -> (faces: (Face, Face))
        ensures
            faces == self.spec_faces(),
    {
        match self {
            Edge::FrontLeft => (Face::Front, Face::Left),
            Edge::TopLeft => (Face::Top, Face::Left),
            Edge::BackLeft => (Face::Back, Face::Left),
            Edge::BottomLeft => (Face::Bottom, Face::Left),
            Edge::FrontRight => (Face::Front, Face::Right),
            Edge::TopRight => (Face::Top, Face::Right),
            Edge::BackRight => (Face::Back, Face::Right),
            Edge::BottomRight => (Face::Bottom, Face::Right),
            Edge::TopFront => (Face::Top, Face::Front),
            Edge::FrontBottom => (Face::Front, Face::Bottom),
            Edge::BottomBack => (Face::Bottom, Face::Back),
            Edge::BackTop => (Face::Back, Face::Top),
        }
    }
}

impl Corner {
    /// The position of the corner in the order of the corner triangles.
    pub open spec fn spec_index(self) -> int {
        match self {
            Corner::TopLeftFront => 0,
            Corner::TopLeftBack => 1,
            Corner::TopRightFront => 2,
            Corner::TopRightBack => 3,
            Corner::BottomLeftFront => 4,
            Corner::BottomLeftBack => 5,
            Corner::BottomRightFront => 6,
            Corner::BottomRightBack => 7,
        }
    }

    /// The three faces that meet in the corner.
    pub open spec fn spec_faces(self) -> (Face, Face, Face) {
        match self {
            Corner::TopLeftFront => (Face::Top, Face::Left, Face::Front),
            Corner::TopLeftBack => (Face::Top, Face::Left, Face::Back),
            Corner::TopRightFront => (Face::Top, Face::Right, Face::Front),
            Corner::TopRightBack => (Face::Top, Face::Right, Face::Back),
            Corner::BottomLeftFront => (Face::Bottom, Face::Left, Face::Front),
            Corner::BottomLeftBack => (Face::Bottom, Face::Left, Face::Back),
            Corner::BottomRightFront => (Face::Bottom, Face::Right, Face::Front),
            Corner::BottomRightBack => (Face::Bottom, Face::Right, Face::Back),
        }
    }

    /// The row of the triangle table that holds the triangle of the corner.
    pub open spec fn spec_triangle(self) -> int {
        FACE_TRIANGLES + 24 + self.spec_index()
    }

    /// The position of the corner in the order of the corner triangles.
    pub fn index(self) -> (i: usize)
        ensures
            i == self.spec_index(),
            i < 8,
    {
        match self {
            Corner::TopLeftFront => 0,
            Corner::TopLeftBack => 1,
            Corner::TopRightFront => 2,
            Corner::TopRightBack => 3,
            Corner::BottomLeftFront => 4,
            Corner::BottomLeftBack => 5,
            Corner::BottomRightFront => 6,
            Corner::BottomRightBack => 7,
        }
    }

    /// The three faces that meet in the corner.
    pub fn faces(self) -> (faces: (Face, Face, Face))
        ensures
            faces == self.spec_faces(),
    {
        match self {
            Corner::TopLeftFront => (Face::Top, Face::Left, Face::Front),
            Corner::TopLeftBack => (Face::Top, Face::Left, Face::Back),
            Corner::TopRightFront => (Face::Top, Face::Right, Face::Front),
            Corner::TopRightBack => (Face::Top, Face::Right, Face::Back),
            Corner::BottomLeftFront => (Face::Bottom, Face::Left, Face::Front),
            Corner::BottomLeftBack => (Face::Bottom, Face::Left, Face::Back),
            Corner::BottomRightFront => (Face::Bottom, Face::Right, Face::Front),
            Corner::BottomRightBack => (Face::Bottom, Face::Right, Face::Back),
        }
    }
}

/// The two triangles of a face.
pub fn face_triangles(face: Face) -> (rows: [[u32; 3]; 2])
    ensures
        rows@[0] == TRIANGLES@[2 * face.spec_index()],
        rows@[1] == TRIANGLES@[2 * face.spec_index() + 1],
{
    let first = 2 * face.index();
    [TRIANGLES[first], TRIANGLES[first + 1]]
}

/// The two triangles of the band along an edge.
pub fn band_triangles(edge: Edge) -> (rows: [[u32; 3]; 2])
    ensures
        rows@[0] == TRIANGLES@[edge.spec_first_triangle()],
        rows@[1] == TRIANGLES@[edge.spec_first_triangle() + 1],
{
    let first = FACE_TRIANGLES + 2 * edge.index();
    [TRIANGLES[first], TRIANGLES[first + 1]]
}

/// The triangle that closes a corner.
pub fn corner_triangle(corner: Corner) -> (row: [u32; 3])
    ensures
        row == TRIANGLES@[corner.spec_triangle()],
{
    TRIANGLES[FACE_TRIANGLES + 24 + corner.index()]
}

/// The index buffer of a mesh of the given fidelity: the vertices of its
/// triangles, one triangle after the other.
pub open spec fn index_table(fidelity: Fidelity) -> Seq<u32> {
    Seq::new(fidelity.spec_index_count() as nat, |i: int| TRIANGLES@[i / 3]@[i % 3])
}

/// The index buffer of a mesh of the given fidelity. Every three indices make
/// one triangle over the vertex layout.
pub fn triangle_indices(fidelity: Fidelity) -> (indices: Vec<u32>)
    ensures
        indices@ == index_table(fidelity),
        indices@.len() == fidelity.spec_index_count(),
{
    let count = fidelity.triangle_count();
    let mut out: Vec<u32> = Vec::new();
    let mut t: usize = 0;
    while t < count
        invariant
            t <= count <= TRIANGLE_COUNT,
            out@ == Seq::new((3 * t) as nat, |i: int| TRIANGLES@[i / 3]@[i % 3]),
        decreases count - t,
    {
        let triangle = TRIANGLES[t];
        out.push(triangle[0]);
        out.push(triangle[1]);
        out.push(triangle[2]);
        t += 1;
    }
    out
}

} // verus!

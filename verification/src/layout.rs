//! The fixed layout of the twenty-four vertices of a rounded box.
//!
//! Every face of the cuboid owns four vertices. A vertex is described without
//! reference to a particular box: on each axis it sits at one of the two
//! extremes of the box, either exactly there or moved inwards by the edge
//! radius. The face it belongs to gives its normal.

use vstd::prelude::*;

verus! {

/// Number of vertices of every rounded box.
pub const VERTEX_COUNT: usize = 24;

/// The six faces of the cuboid, in the order in which their vertices are laid
/// out.
#[derive(Clone, Copy, Debug, PartialEq, Eq, Hash, Structural)]
pub enum Face {
    /// The face at the largest `z`.
    Front,
    /// The face at the smallest `z`.
    Back,
    /// The face at the largest `x`.
    Right,
    /// The face at the smallest `x`.
    Left,
    /// The face at the largest `y`.
    Top,
    /// The face at the smallest `y`.
    Bottom,
}

/// The three coordinate axes.
#[derive(Clone, Copy, Debug, PartialEq, Eq, Hash, Structural)]
pub enum Axis {
    X,
    Y,
    Z,
}

/// Where a vertex sits along one axis of the box.
#[derive(Clone, Copy, Debug, PartialEq, Eq, Hash, Structural)]
pub enum Anchor {
    /// At the smallest coordinate of the box.
    Min,
    /// At the smallest coordinate, moved inwards by the edge radius.
    MinInset,
    /// At the largest coordinate, moved inwards by the edge radius.
    MaxInset,
    /// At the largest coordinate of the box.
    Max,
}

/// One entry of the vertex layout: the face that owns the vertex, its place on
/// each axis, and its texture coordinates, each `0` or `1`.
#[derive(Clone, Copy, Debug, PartialEq, Eq, Hash, Structural)]
pub struct VertexLayout {
    pub face: Face,
    pub x: Anchor,
    pub y: Anchor,
    pub z: Anchor,
    pub u: u8,
    pub v: u8,
}

/// Whether `n` is one of the six unit vectors along the axes.
pub open spec fn is_axis_unit(n: (i8, i8, i8)) -> bool {
    ||| n == (1i8, 0i8, 0i8)
    ||| n == (-1i8, 0i8, 0i8)
    ||| n == (0i8, 1i8, 0i8)
    ||| n == (0i8, -1i8, 0i8)
    ||| n == (0i8, 0i8, 1i8)
    ||| n == (0i8, 0i8, -1i8)
}

impl Face {
    /// The position of the face in the layout: its vertices are those
    /// numbered `4 * index` to `4 * index + 3`.
    pub open spec fn spec_index(self) -> int {
        match self {
            Face::Front => 0,
            Face::Back => 1,
            Face::Right => 2,
            Face::Left => 3,
            Face::Top => 4,
            Face::Bottom => 5,
        }
    }

    /// The axis along which the face looks.
    pub open spec fn spec_axis(self) -> Axis {
        match self {
            Face::Front | Face::Back => Axis::Z,
            Face::Right | Face::Left => Axis::X,
            Face::Top | Face::Bottom => Axis::Y,
        }
    }

    /// Whether the face lies at the largest coordinate of its axis.
    pub open spec fn spec_is_positive(self) -> bool {
        self == Face::Front || self == Face::Right || self == Face::Top
    }

    /// The outward unit normal of the face.
    pub open spec fn spec_normal(self) -> (i8, i8, i8) {
        match self {
            Face::Front => (0i8, 0i8, 1i8),
            Face::Back => (0i8, 0i8, -1i8),
            Face::Right => (1i8, 0i8, 0i8),
            Face::Left => (-1i8, 0i8, 0i8),
            Face::Top => (0i8, 1i8, 0i8),
            Face::Bottom => (0i8, -1i8, 0i8),
        }
    }

    /// The position of the face in the layout.
    pub fn index(self) -> (i: usize)
        ensures
            i == self.spec_index(),
            i < 6,
    {
        match self {
            Face::Front => 0,
            Face::Back => 1,
            Face::Right => 2,
            Face::Left => 3,
            Face::Top => 4,
            Face::Bottom => 5,
        }
    }

    /// The face at position `i` of the layout, if `i` is below six.
    pub fn from_index(i: usize) -> (face: Option<Face>)
        ensures
            i < 6 ==> face is Some && face->0.spec_index() == i,
            i >= 6 ==> face is None,
    {
        match i {
            0 => Some(Face::Front),
            1 => Some(Face::Back),
            2 => Some(Face::Right),
            3 => Some(Face::Left),
            4 => Some(Face::Top),
            5 => Some(Face::Bottom),
            _ => None,
        }
    }

    /// The axis along which the face looks.
    pub fn axis(self) -> (axis: Axis)
        ensures
            axis == self.spec_axis(),
    {
        match self {
            Face::Front | Face::Back => Axis::Z,
            Face::Right | Face::Left => Axis::X,
            Face::Top | Face::Bottom => Axis::Y,
        }
    }

    /// The outward unit normal of the face.
    pub fn normal(self) -> (n: (i8, i8, i8))
        ensures
            n == self.spec_normal(),
            is_axis_unit(n),
    {
        match self {
            Face::Front => (0, 0, 1),
            Face::Back => (0, 0, -1),
            Face::Right => (1, 0, 0),
            Face::Left => (-1, 0, 0),
            Face::Top => (0, 1, 0),
            Face::Bottom => (0, -1, 0),
        }
    }
}

impl Anchor {
    /// Whether the anchor is moved inwards by the edge radius.
    pub open spec fn is_inset(self) -> bool {
        self == Anchor::MinInset || self == Anchor::MaxInset
    }

    /// The coordinate of the anchor on an axis that runs from `min` to `max`,
    /// for the edge radius `radius`.
    pub open spec fn coordinate(self, min: int, max: int, radius: int) -> int {
        match self {
            Anchor::Min => min,
            Anchor::MinInset => min + radius,
            Anchor::MaxInset => max - radius,
            Anchor::Max => max,
        }
    }

    /// The coordinate of the anchor on an axis that runs from `min` to `max`,
    /// for the edge radius `radius`.
    pub fn place(self, min: i32, max: i32, radius: i32) -> (c: i64)
        ensures
            c == self.coordinate(min as int, max as int, radius as int),
    {
        match self {
            Anchor::Min => min as i64,
            Anchor::MinInset => min as i64 + radius as i64,
            Anchor::MaxInset => max as i64 - radius as i64,
            Anchor::Max => max as i64,
        }
    }
}

impl VertexLayout {
    /// The anchor of the vertex on the given axis.
    pub open spec fn spec_anchor(self, axis: Axis) -> Anchor {
        match axis {
            Axis::X => self.x,
            Axis::Y => self.y,
            Axis::Z => self.z,
        }
    }

    /// The normal of the vertex: that of its face.
    pub open spec fn spec_normal(self) -> (i8, i8, i8) {
        self.face.spec_normal()
    }

    /// A vertex lies on its face: along the axis of the face it sits at the
    /// extreme of the box on the side of the face, not inset, and along the
    /// two other axes it is inset.
    pub open spec fn lies_on_face(self) -> bool {
        let along = self.face.spec_axis();
        &&& self.spec_anchor(along) == if self.face.spec_is_positive() {
            Anchor::Max
        } else {
            Anchor::Min
        }
        &&& along != Axis::X ==> self.x.is_inset()
        &&& along != Axis::Y ==> self.y.is_inset()
        &&& along != Axis::Z ==> self.z.is_inset()
    }

    /// The anchor of the vertex on the given axis.
    pub fn anchor(&self, axis: Axis) -> (a: Anchor)
        ensures
            a == self.spec_anchor(axis),
    {
        match axis {
            Axis::X => self.x,
            Axis::Y => self.y,
            Axis::Z => self.z,
        }
    }

    /// The normal of the vertex: that of its face.
    pub fn normal(&self) -> (n: (i8, i8, i8))
        ensures
            n == self.spec_normal(),
            is_axis_unit(n),
    {
        self.face.normal()
    }
}

/// The layout of the twenty-four vertices, face by face.
pub open spec fn vertex_table() -> Seq<VertexLayout> {
    seq![
        // front
        VertexLayout { face: Face::Front, x: Anchor::MinInset, y: Anchor::MinInset, z: Anchor::Max, u: 0u8, v: 0u8 },
        VertexLayout { face: Face::Front, x: Anchor::MaxInset, y: Anchor::MinInset, z: Anchor::Max, u: 1u8, v: 0u8 },
        VertexLayout { face: Face::Front, x: Anchor::MaxInset, y: Anchor::MaxInset, z: Anchor::Max, u: 1u8, v: 1u8 },
        VertexLayout { face: Face::Front, x: Anchor::MinInset, y: Anchor::MaxInset, z: Anchor::Max, u: 0u8, v: 1u8 },
        // back
        VertexLayout { face: Face::Back, x: Anchor::MinInset, y: Anchor::MaxInset, z: Anchor::Min, u: 1u8, v: 0u8 },
        VertexLayout { face: Face::Back, x: Anchor::MaxInset, y: Anchor::MaxInset, z: Anchor::Min, u: 0u8, v: 0u8 },
        VertexLayout { face: Face::Back, x: Anchor::MaxInset, y: Anchor::MinInset, z: Anchor::Min, u: 0u8, v: 1u8 },
        VertexLayout { face: Face::Back, x: Anchor::MinInset, y: Anchor::MinInset, z: Anchor::Min, u: 1u8, v: 1u8 },
        // right
        VertexLayout { face: Face::Right, x: Anchor::Max, y: Anchor::MinInset, z: Anchor::MinInset, u: 0u8, v: 0u8 },
        VertexLayout { face: Face::Right, x: Anchor::Max, y: Anchor::MaxInset, z: Anchor::MinInset, u: 1u8, v: 0u8 },
        VertexLayout { face: Face::Right, x: Anchor::Max, y: Anchor::MaxInset, z: Anchor::MaxInset, u: 1u8, v: 1u8 },
        VertexLayout { face: Face::Right, x: Anchor::Max, y: Anchor::MinInset, z: Anchor::MaxInset, u: 0u8, v: 1u8 },
        // left
        VertexLayout { face: Face::Left, x: Anchor::Min, y: Anchor::MinInset, z: Anchor::MaxInset, u: 1u8, v: 0u8 },
        VertexLayout { face: Face::Left, x: Anchor::Min, y: Anchor::MaxInset, z: Anchor::MaxInset, u: 0u8, v: 0u8 },
        VertexLayout { face: Face::Left, x: Anchor::Min, y: Anchor::MaxInset, z: Anchor::MinInset, u: 0u8, v: 1u8 },
        VertexLayout { face: Face::Left, x: Anchor::Min, y: Anchor::MinInset, z: Anchor::MinInset, u: 1u8, v: 1u8 },
        // top
        VertexLayout { face: Face::Top, x: Anchor::MaxInset, y: Anchor::Max, z: Anchor::MinInset, u: 1u8, v: 0u8 },
        VertexLayout { face: Face::Top, x: Anchor::MinInset, y: Anchor::Max, z: Anchor::MinInset, u: 0u8, v: 0u8 },
        VertexLayout { face: Face::Top, x: Anchor::MinInset, y: Anchor::Max, z: Anchor::MaxInset, u: 0u8, v: 1u8 },
        VertexLayout { face: Face::Top, x: Anchor::MaxInset, y: Anchor::Max, z: Anchor::MaxInset, u: 1u8, v: 1u8 },
        // bottom
        VertexLayout { face: Face::Bottom, x: Anchor::MaxInset, y: Anchor::Min, z: Anchor::MaxInset, u: 0u8, v: 0u8 },
        VertexLayout { face: Face::Bottom, x: Anchor::MinInset, y: Anchor::Min, z: Anchor::MaxInset, u: 1u8, v: 0u8 },
        VertexLayout { face: Face::Bottom, x: Anchor::MinInset, y: Anchor::Min, z: Anchor::MinInset, u: 1u8, v: 1u8 },
        VertexLayout { face: Face::Bottom, x: Anchor::MaxInset, y: Anchor::Min, z: Anchor::MinInset, u: 0u8, v: 1u8 },
    ]
}

/// The layout of the twenty-four vertices, face by face: the vertices of one
/// box are these entries placed on the box, in this order.
pub fn vertex_layout() -> (table: Vec<VertexLayout>)
    ensures
        table@ == vertex_table(),
        table@.len() == VERTEX_COUNT,
{
    vec![
        // front
        VertexLayout { face: Face::Front, x: Anchor::MinInset, y: Anchor::MinInset, z: Anchor::Max, u: 0, v: 0 },
        VertexLayout { face: Face::Front, x: Anchor::MaxInset, y: Anchor::MinInset, z: Anchor::Max, u: 1, v: 0 },
        VertexLayout { face: Face::Front, x: Anchor::MaxInset, y: Anchor::MaxInset, z: Anchor::Max, u: 1, v: 1 },
        VertexLayout { face: Face::Front, x: Anchor::MinInset, y: Anchor::MaxInset, z: Anchor::Max, u: 0, v: 1 },
        // back
        VertexLayout { face: Face::Back, x: Anchor::MinInset, y: Anchor::MaxInset, z: Anchor::Min, u: 1, v: 0 },
        VertexLayout { face: Face::Back, x: Anchor::MaxInset, y: Anchor::MaxInset, z: Anchor::Min, u: 0, v: 0 },
        VertexLayout { face: Face::Back, x: Anchor::MaxInset, y: Anchor::MinInset, z: Anchor::Min, u: 0, v: 1 },
        VertexLayout { face: Face::Back, x: Anchor::MinInset, y: Anchor::MinInset, z: Anchor::Min, u: 1, v: 1 },
        // right
        VertexLayout { face: Face::Right, x: Anchor::Max, y: Anchor::MinInset, z: Anchor::MinInset, u: 0, v: 0 },
        VertexLayout { face: Face::Right, x: Anchor::Max, y: Anchor::MaxInset, z: Anchor::MinInset, u: 1, v: 0 },
        VertexLayout { face: Face::Right, x: Anchor::Max, y: Anchor::MaxInset, z: Anchor::MaxInset, u: 1, v: 1 },
        VertexLayout { face: Face::Right, x: Anchor::Max, y: Anchor::MinInset, z: Anchor::MaxInset, u: 0, v: 1 },
        // left
        VertexLayout { face: Face::Left, x: Anchor::Min, y: Anchor::MinInset, z: Anchor::MaxInset, u: 1, v: 0 },
        VertexLayout { face: Face::Left, x: Anchor::Min, y: Anchor::MaxInset, z: Anchor::MaxInset, u: 0, v: 0 },
        VertexLayout { face: Face::Left, x: Anchor::Min, y: Anchor::MaxInset, z: Anchor::MinInset, u: 0, v: 1 },
        VertexLayout { face: Face::Left, x: Anchor::Min, y: Anchor::MinInset, z: Anchor::MinInset, u: 1, v: 1 },
        // top
        VertexLayout { face: Face::Top, x: Anchor::MaxInset, y: Anchor::Max, z: Anchor::MinInset, u: 1, v: 0 },
        VertexLayout { face: Face::Top, x: Anchor::MinInset, y: Anchor::Max, z: Anchor::MinInset, u: 0, v: 0 },
        VertexLayout { face: Face::Top, x: Anchor::MinInset, y: Anchor::Max, z: Anchor::MaxInset, u: 0, v: 1 },
        VertexLayout { face: Face::Top, x: Anchor::MaxInset, y: Anchor::Max, z: Anchor::MaxInset, u: 1, v: 1 },
        // bottom
        VertexLayout { face: Face::Bottom, x: Anchor::MaxInset, y: Anchor::Min, z: Anchor::MaxInset, u: 0, v: 0 },
        VertexLayout { face: Face::Bottom, x: Anchor::MinInset, y: Anchor::Min, z: Anchor::MaxInset, u: 1, v: 0 },
        VertexLayout { face: Face::Bottom, x: Anchor::MinInset, y: Anchor::Min, z: Anchor::MinInset, u: 1, v: 1 },
        VertexLayout { face: Face::Bottom, x: Anchor::MaxInset, y: Anchor::Min, z: Anchor::MinInset, u: 0, v: 1 },
    ]
}

/// The layout holds twenty-four vertices; the four of each face stand
/// together, in the order of the faces; every vertex lies on its face; and
/// every normal is a unit vector along an axis.
pub proof fn lemma_vertex_table()
    ensures
        vertex_table().len() == VERTEX_COUNT,
        forall|i: int|
            0 <= i < VERTEX_COUNT ==> (#[trigger] vertex_table()[i]).face.spec_index() == i / 4,
        forall|i: int| 0 <= i < VERTEX_COUNT ==> (#[trigger] vertex_table()[i]).lies_on_face(),
        forall|i: int|
            0 <= i < VERTEX_COUNT ==> is_axis_unit((#[trigger] vertex_table()[i]).spec_normal()),
        forall|i: int|
            0 <= i < VERTEX_COUNT ==> (#[trigger] vertex_table()[i]).u <= 1 && vertex_table()[i].v
                <= 1,
{
}

} // verus!

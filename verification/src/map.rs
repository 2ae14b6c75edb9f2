//! Lattice points from a map drawn in characters.
//!
//! Every row of the map is one step along `z`, every character of a row one
//! step along `x`, the first character standing at `x = 1`. Every cell has a
//! floor point; a cell that holds the wall marker has a wall point above it.

use vstd::prelude::*;
use crate::point::PointI32;

verus! {

/// The height of the floor points.
pub const FLOOR_LEVEL: i32 = -1;

/// The height of the wall points.
pub const WALL_LEVEL: i32 = 0;

/// The marker of a wall cell in the built-in map.
pub const WORLD_WALL: char = 'X';

/// The points of the cell in column `x` of row `z` that holds the character
/// `cell`: its floor point, followed by its wall point if the cell is a wall.
pub open spec fn cell_points(cell: char, wall_marker: char, x: int, z: int) -> Seq<PointI32> {
    let floor = PointI32 { x: x as i32, y: FLOOR_LEVEL, z: z as i32 };
    let wall = PointI32 { x: x as i32, y: WALL_LEVEL, z: z as i32 };
    if cell == wall_marker {
        seq![floor, wall]
    } else {
        seq![floor]
    }
}

/// The points of row `z`, cell by cell from the left.
pub open spec fn row_points(row: Seq<char>, wall_marker: char, z: int) -> Seq<PointI32>
    decreases row.len(),
{
    if row.len() == 0 {
        Seq::empty()
    } else {
        row_points(row.drop_last(), wall_marker, z) + cell_points(
            row.last(),
            wall_marker,
            row.len() as int,
            z,
        )
    }
}

/// The points of a map, row by row from the first.
pub open spec fn map_points(rows: Seq<&str>, wall_marker: char) -> Seq<PointI32>
    decreases rows.len(),
{
    if rows.len() == 0 {
        Seq::empty()
    } else {
        map_points(rows.drop_last(), wall_marker) + row_points(
            rows.last()@,
            wall_marker,
            rows.len() - 1,
        )
    }
}

/// Number of cells of a map.
pub open spec fn cell_count(rows: Seq<&str>) -> nat
    decreases rows.len(),
{
    if rows.len() == 0 {
        0
    } else {
        cell_count(rows.drop_last()) + rows.last()@.len()
    }
}

/// Number of cells of a row that hold the wall marker.
pub open spec fn row_wall_count(row: Seq<char>, wall_marker: char) -> nat
    decreases row.len(),
{
    if row.len() == 0 {
        0
    } else {
        row_wall_count(row.drop_last(), wall_marker) + if row.last() == wall_marker {
            1nat
        } else {
            0nat
        }
    }
}

/// Number of cells of a map that hold the wall marker.
pub open spec fn wall_count(rows: Seq<&str>, wall_marker: char) -> nat
    decreases rows.len(),
{
    if rows.len() == 0 {
        0
    } else {
        wall_count(rows.drop_last(), wall_marker) + row_wall_count(rows.last()@, wall_marker)
    }
}

/// Whether the map is small enough for its coordinates: it has no more rows,
/// and no row has more cells, than the largest coordinate.
pub open spec fn map_fits(rows: Seq<&str>) -> bool {
    &&& rows.len() <= i32::MAX
    &&& forall|i: int| 0 <= i < rows.len() ==> (#[trigger] rows[i])@.len() <= i32::MAX
}

/// A row has one point for each of its cells and one more for each wall among
/// them.
pub proof fn lemma_row_point_count(row: Seq<char>, wall_marker: char, z: int)
    ensures
        row_points(row, wall_marker, z).len() == row.len() + row_wall_count(row, wall_marker),
    decreases row.len(),
{
    if row.len() > 0 {
        lemma_row_point_count(row.drop_last(), wall_marker, z);
    }
}

/// A map has one point for each of its cells and one more for each wall
/// among them.
pub proof fn lemma_point_count(rows: Seq<&str>, wall_marker: char)
    ensures
        map_points(rows, wall_marker).len() == cell_count(rows) + wall_count(rows, wall_marker),
    decreases rows.len(),
{
    if rows.len() > 0 {
        lemma_point_count(rows.drop_last(), wall_marker);
        lemma_row_point_count(rows.last()@, wall_marker, rows.len() - 1);
    }
}

/// Appends to `points` the points of row `z`.
fn push_row(points: &mut Vec<PointI32>, row: &str, wall_marker: char, z: i32)
    requires
        row@.len() <= i32::MAX,
    ensures
        final(points)@ == old(points)@ + row_points(row@, wall_marker, z as int),
{
    let ghost before = points@;
    let mut x: i32 = 0;
    for cell in it: row.chars()
        invariant
            it.seq() == row@,
            row@.len() <= i32::MAX,
            x == it.index(),
            points@ == before + row_points(row@.take(it.index() as int), wall_marker, z as int),
    {
        assert(row@.take(it.index() + 1).drop_last() == row@.take(it.index() as int));
        x += 1;
        points.push(PointI32::new(x, FLOOR_LEVEL, z));
        if cell == wall_marker {
            points.push(PointI32::new(x, WALL_LEVEL, z));
        }
    }
    assert(row@.take(row@.len() as int) == row@);
}

/// The lattice points of a map: for every cell, row by row and from left to
/// right, its floor point, followed by its wall point where the cell holds
/// `wall_marker`. Rows may differ in length.
pub fn from_map(rows: &[&str], wall_marker: char) -> (points: Vec<PointI32>)
    requires
        map_fits(rows@),
    ensures
        points@ == map_points(rows@, wall_marker),
        points@.len() == cell_count(rows@) + wall_count(rows@, wall_marker),
{
    proof {
        lemma_point_count(rows@, wall_marker);
    }
    let mut points: Vec<PointI32> = Vec::new();
    let mut z: usize = 0;
    while z < rows.len()
        invariant
            z <= rows@.len(),
            map_fits(rows@),
            points@ == map_points(rows@.take(z as int), wall_marker),
        decreases rows@.len() - z,
    {
        assert(rows@.take(z + 1).drop_last() == rows@.take(z as int));
        push_row(&mut points, rows[z], wall_marker, z as i32);
        z += 1;
    }
    assert(rows@.take(rows@.len() as int) == rows@);
    points
}

/// The rows of the built-in map: a walled room of fourteen by seven cells
/// with four pillars.
pub open spec fn world_rows() -> Seq<&'static str> {
    seq![
        "XXXXXXXXXXXXXX",
        "X  X         X",
        "X            X",
        "X  X         X",
        "X          X X",
        "X            X",
        "XXXXXXXXXXXXXX",
    ]
}

/// The rows of the built-in map.
pub fn world_map() -> (rows: Vec<&'static str>)
    ensures
        rows@ == world_rows(),
        map_fits(rows@),
{
    proof {
        reveal_strlit("XXXXXXXXXXXXXX");
        reveal_strlit("X  X         X");
        reveal_strlit("X            X");
        reveal_strlit("X          X X");
    }
    vec![
        "XXXXXXXXXXXXXX",
        "X  X         X",
        "X            X",
        "X  X         X",
        "X          X X",
        "X            X",
        "XXXXXXXXXXXXXX",
    ]
}

/// The lattice points of the built-in map, with `X` for a wall.
pub fn get_world_points() -> (points: Vec<PointI32>)
    ensures
        points@ == map_points(world_rows(), WORLD_WALL),
{
    let rows = world_map();
    from_map(rows.as_slice(), WORLD_WALL)
}

} // verus!

//! A random walk on the integer lattice.
//!
//! The walk starts at a fixed point and moves one unit along one axis at
//! every step. It does not avoid itself: a point may be visited again, and a
//! step may undo the one before it.

use rand::rngs::StdRng;
use rand::Rng;
use vstd::prelude::*;
use crate::point::PointI32;

verus! {

/// Number of directions a step can take.
pub const DIRECTION_COUNT: usize = 6;

/// The longest walk whose points are sure to have coordinates in range.
pub const MAX_WALK_LENGTH: usize = 2_147_483_643;

/// The six unit steps along the axes.
#[derive(Clone, Copy, Debug, PartialEq, Eq, Hash, Structural)]
pub enum Direction {
    PosX,
    NegX,
    PosY,
    NegY,
    PosZ,
    NegZ,
}

/// The generator that the walk draws from: `StdRng` of the `rand` crate, of
/// which nothing is known here but that it can be drawn from.
#[verifier::external_type_specification]
#[verifier::external_body]
pub struct ExStdRng(rand::rngs::StdRng);

/// Draws a number from the generator, by `Rng::gen_range` of the `rand` crate
/// on the range from zero up to, and without, `bound`. The range must not be
/// empty. All that is claimed of the number is that it lies in the range:
/// which number comes is left open, and may differ from call to call.
#[verifier::external_body]
fn draw_below(rng: &mut StdRng, bound: usize) -> (drawn: usize)
    requires
        bound > 0,
    ensures
        drawn < bound,
{
    rng.gen_range(0..bound)
}

impl Direction {
    /// The number by which the direction is drawn.
    pub open spec fn spec_index(self) -> int {
        match self {
            Direction::PosX => 0,
            Direction::NegX => 1,
            Direction::PosY => 2,
            Direction::NegY => 3,
            Direction::PosZ => 4,
            Direction::NegZ => 5,
        }
    }

    /// The step of the direction along each axis.
    pub open spec fn spec_offset(self) -> PointI32 {
        match self {
            Direction::PosX => PointI32 { x: 1, y: 0, z: 0 },
            Direction::NegX => PointI32 { x: -1i32, y: 0, z: 0 },
            Direction::PosY => PointI32 { x: 0, y: 1, z: 0 },
            Direction::NegY => PointI32 { x: 0, y: -1i32, z: 0 },
            Direction::PosZ => PointI32 { x: 0, y: 0, z: 1 },
            Direction::NegZ => PointI32 { x: 0, y: 0, z: -1i32 },
        }
    }

    /// The direction that is drawn by the number `index`.
    pub fn from_index(index: usize) -> (direction: Direction)
        requires
            index < DIRECTION_COUNT,
        ensures
            direction.spec_index() == index,
    {
        match index {
            0 => Direction::PosX,
            1 => Direction::NegX,
            2 => Direction::PosY,
            3 => Direction::NegY,
            4 => Direction::PosZ,
            _ => Direction::NegZ,
        }
    }

    /// The step of the direction along each axis.
    pub fn offset(self) -> (step: PointI32)
        ensures
            step == self.spec_offset(),
    {
        match self {
            Direction::PosX => PointI32::new(1, 0, 0),
            Direction::NegX => PointI32::new(-1, 0, 0),
            Direction::PosY => PointI32::new(0, 1, 0),
            Direction::NegY => PointI32::new(0, -1, 0),
            Direction::PosZ => PointI32::new(0, 0, 1),
            Direction::NegZ => PointI32::new(0, 0, -1),
        }
    }
}

/// Where every walk starts.
pub open spec fn spec_origin() -> PointI32 {
    PointI32 { x: 0, y: 5, z: 0 }
}

/// The point one step from `from` in the given direction.
pub open spec fn spec_step(from: PointI32, direction: Direction) -> PointI32 {
    let offset = direction.spec_offset();
    PointI32 {
        x: (from.x + offset.x) as i32,
        y: (from.y + offset.y) as i32,
        z: (from.z + offset.z) as i32,
    }
}

/// Whether a step from `from` in any direction stays in range.
pub open spec fn can_step(from: PointI32) -> bool {
    &&& i32::MIN < from.x < i32::MAX
    &&& i32::MIN < from.y < i32::MAX
    &&& i32::MIN < from.z < i32::MAX
}

/// The walk that takes the given directions, one after the other: the
/// starting point, then the point reached after each step.
pub open spec fn walk_path(draws: Seq<Direction>) -> Seq<PointI32>
    decreases draws.len(),
{
    if draws.len() == 0 {
        seq![spec_origin()]
    } else {
        let before = walk_path(draws.drop_last());
        before.push(spec_step(before.last(), draws.last()))
    }
}

/// Whether each point of `path` but the first lies one unit along one axis
/// from the point before it.
pub open spec fn is_lattice_walk(path: Seq<PointI32>) -> bool {
    forall|i: int|
        0 <= i < path.len() - 1 ==> (#[trigger] path[i]).manhattan_distance(path[i + 1]) == 1
}

/// Whether every coordinate of `point` is within `steps` of the starting
/// point.
pub open spec fn within_reach(point: PointI32, steps: int) -> bool {
    &&& -steps <= point.x <= steps
    &&& 5 - steps <= point.y <= 5 + steps
    &&& -steps <= point.z <= steps
}

/// Where every walk starts.
pub fn origin() -> (point: PointI32)
    ensures
        point == spec_origin(),
{
    PointI32::new(0, 5, 0)
}

/// The point one step from `from` in the given direction.
pub fn step(from: PointI32, direction: Direction) -> (to: PointI32)
    requires
        can_step(from),
    ensures
        to == spec_step(from, direction),
        from.manhattan_distance(to) == 1,
{
    let offset = direction.offset();
    PointI32::new(from.x + offset.x, from.y + offset.y, from.z + offset.z)
}

/// A walk has one point more than it takes steps, it starts at the starting
/// point, and each of its points is no farther from there on any axis than
/// the number of steps before it.
pub proof fn lemma_walk_path_reach(draws: Seq<Direction>)
    requires
        draws.len() < MAX_WALK_LENGTH,
    ensures
        walk_path(draws).len() == draws.len() + 1,
        walk_path(draws)[0] == spec_origin(),
        forall|i: int| 0 <= i <= draws.len() ==> within_reach(#[trigger] walk_path(draws)[i], i),
        forall|i: int|
            0 <= i < draws.len() ==> walk_path(draws)[i + 1] == spec_step(
                walk_path(draws)[i],
                #[trigger] draws[i],
            ),
    decreases draws.len(),
{
    if draws.len() > 0 {
        let shorter = draws.drop_last();
        lemma_walk_path_reach(shorter);
        let before = walk_path(shorter);
        assert(within_reach(before.last(), shorter.len() as int));
        assert forall|i: int| 0 <= i < draws.len() implies walk_path(draws)[i + 1] == spec_step(
            walk_path(draws)[i],
            #[trigger] draws[i],
        ) by {
            if i < shorter.len() {
                assert(draws[i] == shorter[i]);
            }
        }
    }
}

/// Every step of a walk leads to a neighbour on the lattice: two points that
/// follow each other differ by one unit along one axis.
pub proof fn lemma_walk_path_is_lattice_walk(draws: Seq<Direction>)
    requires
        draws.len() < MAX_WALK_LENGTH,
    ensures
        is_lattice_walk(walk_path(draws)),
{
    lemma_walk_path_reach(draws);
    let path = walk_path(draws);
    assert forall|i: int| 0 <= i < path.len() - 1 implies (#[trigger] path[i]).manhattan_distance(
        path[i + 1],
    ) == 1 by {
        assert(within_reach(path[i], i));
        assert(path[i + 1] == spec_step(path[i], draws[i]));
    }
}

/// Every direction is a unit step: its offset is one unit long along one
/// axis, and a step along it leads to a neighbour on the lattice.
pub proof fn lemma_direction_is_unit_step(direction: Direction)
    ensures
        direction.spec_index() < DIRECTION_COUNT,
        (PointI32 { x: 0, y: 0, z: 0 }).manhattan_distance(direction.spec_offset()) == 1,
        forall|from: PointI32|
            can_step(from) ==> from.manhattan_distance(#[trigger] spec_step(from, direction)) == 1,
{
}

/// One of the six directions, drawn from the generator. Any of them may come
/// back, whatever was drawn before; whichever comes is a unit step.
pub fn random_direction(rng: &mut StdRng) -> (direction: Direction)
    ensures
        direction.spec_index() < DIRECTION_COUNT,
        (PointI32 { x: 0, y: 0, z: 0 }).manhattan_distance(direction.spec_offset()) == 1,
        forall|from: PointI32|
            can_step(from) ==> from.manhattan_distance(#[trigger] spec_step(from, direction)) == 1,
{
    let index = draw_below(rng, DIRECTION_COUNT);
    let direction = Direction::from_index(index);
    proof {
        lemma_direction_is_unit_step(direction);
    }
    direction
}

/// The walk that takes the given directions: the starting point, then the
/// point reached after each step.
pub fn walk_along(draws: &[Direction]) -> (path: Vec<PointI32>)
    requires
        draws@.len() < MAX_WALK_LENGTH,
    ensures
        path@ == walk_path(draws@),
        path@.len() == draws@.len() + 1,
        is_lattice_walk(path@),
{
    let mut path: Vec<PointI32> = Vec::new();
    let mut last = origin();
    path.push(last);
    let mut i: usize = 0;
    while i < draws.len()
        invariant
            i <= draws@.len() < MAX_WALK_LENGTH,
            path@ == walk_path(draws@.take(i as int)),
            last == path@.last(),
        decreases draws@.len() - i,
    {
        proof {
            lemma_walk_path_reach(draws@.take(i as int));
            assert(within_reach(last, i as int));
            assert(draws@.take(i + 1).drop_last() == draws@.take(i as int));
        }
        last = step(last, draws[i]);
        path.push(last);
        i += 1;
    }
    proof {
        assert(draws@.take(draws@.len() as int) == draws@);
        lemma_walk_path_reach(draws@);
        lemma_walk_path_is_lattice_walk(draws@);
    }
    path
}

/// A random walk of `length` points: the starting point, then one random
/// step after the other until the walk is long enough. A walk always holds
/// its starting point, so a length of zero gives the same walk as a length of
/// one; such a walk takes no step and leaves the generator as it was.
pub fn walk(length: usize, rng: &mut StdRng) -> (path: Vec<PointI32>)
    requires
        length <= MAX_WALK_LENGTH,
    ensures
        path@.len() == if length == 0 { 1 } else { length as int },
        path@[0] == spec_origin(),
        length <= 1 ==> path@ == seq![spec_origin()],
        length <= 1 ==> *final(rng) == *old(rng),
        is_lattice_walk(path@),
        exists|draws: Seq<Direction>| path@ == walk_path(draws),
{
    let mut path: Vec<PointI32> = Vec::new();
    let mut last = origin();
    path.push(last);
    let ghost mut draws: Seq<Direction> = Seq::empty();
    while path.len() < length
        invariant
            length <= MAX_WALK_LENGTH,
            path@.len() == draws.len() + 1,
            path@.len() <= length || path@.len() == 1,
            path@ == walk_path(draws),
            last == path@.last(),
            length <= 1 ==> *rng == *old(rng),
        decreases length - path@.len(),
    {
        proof {
            lemma_walk_path_reach(draws);
            assert(within_reach(last, draws.len() as int));
        }
        let direction = random_direction(rng);
        last = step(last, direction);
        path.push(last);
        proof {
            assert(draws.push(direction).drop_last() == draws);
            draws = draws.push(direction);
        }
    }
    proof {
        lemma_walk_path_reach(draws);
        lemma_walk_path_is_lattice_walk(draws);
    }
    path
}

} // verus!

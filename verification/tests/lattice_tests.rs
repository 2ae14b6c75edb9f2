use rand::rngs::StdRng;
use rand::SeedableRng;

use softbox::map::{from_map, get_world_points, world_map, FLOOR_LEVEL, WALL_LEVEL, WORLD_WALL};
use softbox::point::PointI32;
use softbox::walk::{
    origin, random_direction, step, walk, walk_along, Direction, DIRECTION_COUNT, MAX_WALK_LENGTH,
};

const ALL_DIRECTIONS: [Direction; 6] = [
    Direction::PosX,
    Direction::NegX,
    Direction::PosY,
    Direction::NegY,
    Direction::PosZ,
    Direction::NegZ,
];

fn p(x: i32, y: i32, z: i32) -> PointI32 {
    PointI32::new(x, y, z)
}

fn manhattan(a: &PointI32, b: &PointI32) -> i64 {
    (a.x as i64 - b.x as i64).abs()
        + (a.y as i64 - b.y as i64).abs()
        + (a.z as i64 - b.z as i64).abs()
}

#[test]
fn point_new_keeps_the_coordinates() {
    let point = PointI32::new(3, -4, i32::MAX);
    assert_eq!((point.x, point.y, point.z), (3, -4, i32::MAX));
    assert_eq!(point, PointI32 { x: 3, y: -4, z: i32::MAX });
    assert_ne!(point, PointI32::new(3, -4, 0));
}

#[test]
fn scaling_multiplies_every_coordinate() {
    assert_eq!(PointI32::new(3, -4, 0).scaled(5), (15, -20, 0));
    assert_eq!(PointI32::new(3, -4, 7).scaled(-2), (-6, 8, -14));
    assert_eq!(PointI32::new(3, -4, 7).scaled(0), (0, 0, 0));
    assert_eq!(
        PointI32::new(i32::MIN, i32::MAX, i32::MIN).scaled(i32::MIN),
        (4_611_686_018_427_387_904, -4_611_686_016_279_904_256, 4_611_686_018_427_387_904)
    );
}

#[test]
fn map_with_one_wall_and_one_gap() {
    assert_eq!(from_map(&["X "], 'X'), vec![p(1, -1, 0), p(1, 0, 0), p(2, -1, 0)]);
}

#[test]
fn map_columns_start_at_one() {
    assert_eq!(from_map(&[" "], 'X'), vec![p(1, -1, 0)]);
    assert_eq!(from_map(&["X"], 'X'), vec![p(1, -1, 0), p(1, 0, 0)]);
}

#[test]
fn map_rows_advance_z() {
    assert_eq!(
        from_map(&["X", " X"], 'X'),
        vec![p(1, -1, 0), p(1, 0, 0), p(1, -1, 1), p(2, -1, 1), p(2, 0, 1)]
    );
}

#[test]
fn map_rows_may_differ_in_length() {
    assert_eq!(
        from_map(&["..#", "", "#"], '#'),
        vec![p(1, -1, 0), p(2, -1, 0), p(3, -1, 0), p(3, 0, 0), p(1, -1, 2), p(1, 0, 2)]
    );
}

#[test]
fn empty_map_has_no_points() {
    assert_eq!(from_map(&[], 'X'), vec![]);
    assert_eq!(from_map(&["", ""], 'X'), vec![]);
}

#[test]
fn map_takes_any_marker() {
    assert_eq!(from_map(&["X "], ' '), vec![p(1, -1, 0), p(2, -1, 0), p(2, 0, 0)]);
    assert_eq!(from_map(&["X "], 'Y'), vec![p(1, -1, 0), p(2, -1, 0)]);
}

#[test]
fn map_counts_characters_not_bytes() {
    assert_eq!(
        from_map(&["é█é"], '█'),
        vec![p(1, -1, 0), p(2, -1, 0), p(2, 0, 0), p(3, -1, 0)]
    );
}

#[test]
fn map_levels() {
    assert_eq!(FLOOR_LEVEL, -1);
    assert_eq!(WALL_LEVEL, 0);
    assert_eq!(WORLD_WALL, 'X');
}

#[test]
fn world_map_is_the_walled_room() {
    assert_eq!(
        world_map(),
        vec![
            "XXXXXXXXXXXXXX",
            "X  X         X",
            "X            X",
            "X  X         X",
            "X          X X",
            "X            X",
            "XXXXXXXXXXXXXX",
        ]
    );
}

#[test]
fn world_points_have_a_floor_under_every_cell() {
    let rows = world_map();
    let points = from_map(&rows, 'X');
    let walls: usize = rows.iter().map(|row| row.chars().filter(|&c| c == 'X').count()).sum();
    assert_eq!(walls, 41);
    assert_eq!(points.iter().filter(|point| point.y == -1).count(), 98);
    assert_eq!(points.iter().filter(|point| point.y == 0).count(), walls);
    assert_eq!(points.len(), 98 + walls);
    for z in 0..7 {
        for x in 1..=14 {
            assert_eq!(points.iter().filter(|&&point| point == p(x, -1, z)).count(), 1);
            let wall = rows[z as usize].as_bytes()[(x - 1) as usize] == b'X';
            assert_eq!(
                points.iter().filter(|&&point| point == p(x, 0, z)).count(),
                if wall { 1 } else { 0 }
            );
        }
    }
}

#[test]
fn world_points_come_from_the_world_map() {
    let points = get_world_points();
    assert_eq!(points, from_map(&world_map(), 'X'));
    assert_eq!(points.len(), 139);
    assert_eq!(points[0], p(1, -1, 0));
    assert_eq!(points[1], p(1, 0, 0));
    assert_eq!(points[28], p(1, -1, 1));
    assert_eq!(points[138], p(14, 0, 6));
}

#[test]
fn map_puts_the_floor_before_the_wall() {
    let points = get_world_points();
    for (i, point) in points.iter().enumerate() {
        if point.y == 0 {
            assert_eq!(points[i - 1], p(point.x, -1, point.z));
        }
    }
}

#[test]
fn direction_from_index() {
    assert_eq!(DIRECTION_COUNT, 6);
    for (i, direction) in ALL_DIRECTIONS.iter().enumerate() {
        assert_eq!(Direction::from_index(i), *direction);
    }
}

#[test]
fn direction_offsets() {
    assert_eq!(Direction::PosX.offset(), p(1, 0, 0));
    assert_eq!(Direction::NegX.offset(), p(-1, 0, 0));
    assert_eq!(Direction::PosY.offset(), p(0, 1, 0));
    assert_eq!(Direction::NegY.offset(), p(0, -1, 0));
    assert_eq!(Direction::PosZ.offset(), p(0, 0, 1));
    assert_eq!(Direction::NegZ.offset(), p(0, 0, -1));
}

#[test]
fn step_moves_one_unit() {
    assert_eq!(origin(), p(0, 5, 0));
    assert_eq!(step(p(0, 5, 0), Direction::PosX), p(1, 5, 0));
    assert_eq!(step(p(0, 5, 0), Direction::NegY), p(0, 4, 0));
    assert_eq!(step(p(-7, 5, 9), Direction::NegZ), p(-7, 5, 8));
    assert_eq!(step(p(i32::MAX - 1, 0, i32::MIN + 1), Direction::PosX), p(i32::MAX, 0, i32::MIN + 1));
    assert_eq!(step(p(i32::MAX - 1, 0, i32::MIN + 1), Direction::NegZ), p(i32::MAX - 1, 0, i32::MIN));
    for direction in ALL_DIRECTIONS {
        assert_eq!(manhattan(&p(3, 3, 3), &step(p(3, 3, 3), direction)), 1);
    }
}

#[test]
fn walk_along_follows_the_directions() {
    assert_eq!(walk_along(&[]), vec![p(0, 5, 0)]);
    assert_eq!(
        walk_along(&[
            Direction::PosX,
            Direction::PosX,
            Direction::NegY,
            Direction::PosZ,
            Direction::NegX,
            Direction::PosY,
            Direction::NegZ,
        ]),
        vec![
            p(0, 5, 0),
            p(1, 5, 0),
            p(2, 5, 0),
            p(2, 4, 0),
            p(2, 4, 1),
            p(1, 4, 1),
            p(1, 5, 1),
            p(1, 5, 0),
        ]
    );
}

#[test]
fn walk_along_may_turn_back() {
    assert_eq!(
        walk_along(&[Direction::PosX, Direction::NegX, Direction::PosX]),
        vec![p(0, 5, 0), p(1, 5, 0), p(0, 5, 0), p(1, 5, 0)]
    );
}

#[test]
fn walk_of_length_one_is_the_origin() {
    for seed in 0..20 {
        let mut rng = StdRng::seed_from_u64(seed);
        assert_eq!(walk(1, &mut rng), vec![p(0, 5, 0)]);
    }
}

#[test]
fn walk_of_length_zero_still_holds_the_origin() {
    let mut rng = StdRng::seed_from_u64(7);
    assert_eq!(walk(0, &mut rng), vec![p(0, 5, 0)]);
}

#[test]
fn walk_without_a_step_leaves_the_generator() {
    for length in [0usize, 1] {
        let mut rng = StdRng::seed_from_u64(31);
        let before = rng.clone();
        assert_eq!(walk(length, &mut rng), vec![p(0, 5, 0)]);
        assert_eq!(rng, before);
    }
}

#[test]
fn walk_with_a_step_draws_from_the_generator() {
    let mut rng = StdRng::seed_from_u64(31);
    let before = rng.clone();
    assert_eq!(walk(2, &mut rng).len(), 2);
    assert_ne!(rng, before);
}

#[test]
fn random_direction_is_a_unit_step() {
    let mut rng = StdRng::seed_from_u64(3);
    for _ in 0..200 {
        let offset = random_direction(&mut rng).offset();
        assert_eq!(manhattan(&p(0, 0, 0), &offset), 1);
    }
}

#[test]
fn walk_has_the_length_asked_for() {
    for length in [2usize, 3, 10, 257, 5000] {
        let mut rng = StdRng::seed_from_u64(length as u64);
        let path = walk(length, &mut rng);
        assert_eq!(path.len(), length);
        assert_eq!(path[0], p(0, 5, 0));
    }
}

#[test]
fn walk_steps_one_unit_along_one_axis() {
    for seed in 0..50 {
        let mut rng = StdRng::seed_from_u64(seed);
        let path = walk(400, &mut rng);
        for pair in path.windows(2) {
            assert_eq!(manhattan(&pair[0], &pair[1]), 1);
        }
    }
}

#[test]
fn walk_is_the_path_of_its_steps() {
    let mut rng = StdRng::seed_from_u64(99);
    let path = walk(300, &mut rng);
    let draws: Vec<Direction> = path
        .windows(2)
        .map(|pair| {
            let delta = p(pair[1].x - pair[0].x, pair[1].y - pair[0].y, pair[1].z - pair[0].z);
            *ALL_DIRECTIONS.iter().find(|d| d.offset() == delta).unwrap()
        })
        .collect();
    assert_eq!(walk_along(&draws), path);
}

#[test]
fn walk_repeats_with_the_same_seed() {
    let first = walk(500, &mut StdRng::seed_from_u64(1234));
    let second = walk(500, &mut StdRng::seed_from_u64(1234));
    assert_eq!(first, second);
}

#[test]
fn walk_goes_on_where_the_generator_stands() {
    let mut rng = StdRng::seed_from_u64(5);
    let first = walk(200, &mut rng);
    let second = walk(200, &mut rng);
    assert_ne!(first, second);
}

#[test]
fn walk_takes_every_direction() {
    let mut rng = StdRng::seed_from_u64(2024);
    let path = walk(2000, &mut rng);
    for direction in ALL_DIRECTIONS {
        let offset = direction.offset();
        assert!(path.windows(2).any(|pair| {
            pair[1].x - pair[0].x == offset.x
                && pair[1].y - pair[0].y == offset.y
                && pair[1].z - pair[0].z == offset.z
        }));
    }
}

#[test]
fn random_direction_draws_every_direction() {
    let mut rng = StdRng::seed_from_u64(11);
    let mut seen = [false; 6];
    for _ in 0..1000 {
        let direction = random_direction(&mut rng);
        let index = ALL_DIRECTIONS.iter().position(|d| *d == direction).unwrap();
        seen[index] = true;
    }
    assert_eq!(seen, [true; 6]);
}

#[test]
fn longest_walk_stays_in_range() {
    assert_eq!(MAX_WALK_LENGTH as i64, i32::MAX as i64 - 4);
    assert_eq!(5 + (MAX_WALK_LENGTH as i64 - 1), i32::MAX as i64);
}

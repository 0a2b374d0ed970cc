use gridkit::{Direction, Point, DIR8, DIR9};

#[test]
fn from_delta() {
    let dir = Direction::from_delta(10, 20);
    assert!(matches!(dir, Direction::SouthEast));
}

#[test]
fn from_tuple() {
    let dir = Direction::from((10, 20));
    assert!(matches!(dir, Direction::SouthEast));
}

#[test]
fn from_point() {
    let dir = Direction::from(Point::new(10, 20));
    assert!(matches!(dir, Direction::SouthEast));
}

#[test]
fn from_point_diff() {
    let pt = Point::new(1, 2);
    let dir = pt.direction_to(Point::new(3, 4));
    assert!(matches!(dir, Direction::SouthEast));
}

#[test]
fn from_delta_uses_signs_only() {
    assert_eq!(Direction::from_delta(5, -100), Direction::NorthEast);
    assert_eq!(Direction::from_delta(1, -1), Direction::NorthEast);
    assert_eq!(Direction::from_delta(10, 20), Direction::from_delta(1, 1));
    assert_eq!(Direction::from_delta(i32::MIN, 0), Direction::West);
    assert_eq!(Direction::from_delta(0, i32::MAX), Direction::South);
    assert_eq!(Direction::from_delta(0, 0), Direction::Here);
    assert_eq!(Direction::from_delta(-3, -3), Direction::NorthWest);
    assert_eq!(Direction::from_delta(-3, 7), Direction::SouthWest);
    assert_eq!(Direction::from_delta(0, -7), Direction::North);
    assert_eq!(Direction::from_delta(8, 0), Direction::East);
}

#[test]
fn deltas_round_trip() {
    for d in Direction::all_with_here() {
        assert_eq!(Direction::from_delta(d.dx(), d.dy()), d);
    }
    assert_eq!((Direction::NorthWest.dx(), Direction::NorthWest.dy()), (-1, -1));
    assert_eq!((Direction::South.dx(), Direction::South.dy()), (0, 1));
    assert_eq!((Direction::Here.dx(), Direction::Here.dy()), (0, 0));
}

#[test]
fn all_in_clockwise_order() {
    assert_eq!(
        Direction::all(),
        [
            Direction::East,
            Direction::SouthEast,
            Direction::South,
            Direction::SouthWest,
            Direction::West,
            Direction::NorthWest,
            Direction::North,
            Direction::NorthEast,
        ]
    );
    assert_eq!(
        Direction::all_with_here(),
        [
            Direction::Here,
            Direction::East,
            Direction::SouthEast,
            Direction::South,
            Direction::SouthWest,
            Direction::West,
            Direction::NorthWest,
            Direction::North,
            Direction::NorthEast,
        ]
    );
}

#[test]
fn predicates_and_default() {
    assert!(Direction::default().is_default());
    assert_eq!(Direction::default(), Direction::East);
    assert!(!Direction::North.is_default());
    assert!(Direction::Here.is_here());
    assert!(!Direction::East.is_here());
    let diagonal: Vec<bool> = Direction::all().iter().map(|d| d.is_diagonal()).collect();
    assert_eq!(diagonal, vec![false, true, false, true, false, true, false, true]);
    assert!(!Direction::Here.is_diagonal());
}

#[test]
fn draws_pick_directions() {
    let all = Direction::all();
    for k in 0..8u32 {
        assert_eq!(Direction::from_draw(k), all[k as usize]);
    }
    assert_eq!(Direction::from_draw(8), Direction::Here);
}

#[test]
fn constant_lists_match_accessors() {
    assert_eq!(DIR8, Direction::all());
    assert_eq!(DIR9, Direction::all_with_here());
    assert_eq!(DIR8[0], Direction::East);
    assert_eq!(DIR9[0], Direction::Here);
    assert_eq!(&DIR9[1..], &DIR8[..]);
}

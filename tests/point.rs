use gridkit::{Direction, Point};

#[test]
fn index_converting() {
    let pt = Point::new(1, 2);
    assert_eq!(21, pt.to_index(10).unwrap());
    let pt2 = Point::from_index(21, 10);
    assert_eq!(pt, pt2);
    let pt = Point::new(-1, 2);
    assert!(pt.to_index(10).is_none());
    let pt = Point::new(1, -2);
    assert!(pt.to_index(10).is_none());
    let pt = Point::new(10, 2);
    assert!(pt.to_index(10).is_none());
}

#[test]
fn add_direction_to_point() {
    let mut pt = Point::new(1, 2);
    pt += Direction::NorthWest;
    assert_eq!(0, pt.x);
    assert_eq!(1, pt.y);
}

#[test]
fn div_assign_point() {
    let mut pt = Point::new(1, 2);
    pt /= Point::new(1, 2);
    assert_eq!(1, pt.x);
    assert_eq!(1, pt.y);
}

#[test]
fn div_point() {
    let pt = Point::new(1, 2);
    let pt2 = pt / Point::new(1, 2);
    assert_eq!(1, pt2.x);
    assert_eq!(1, pt2.y);
}

#[test]
fn index_round_trip() {
    for width in [1, 3, 10] {
        for y in [0, 1, 7, 1000] {
            for x in 0..width {
                let p = Point::new(x, y);
                let i = p.to_index(width).unwrap();
                assert_eq!(i, (y * width + x) as usize);
                assert_eq!(Point::from_index(i, width), p);
            }
        }
    }
    assert_eq!(Point::from_index(0, 7), Point::new(0, 0));
    assert_eq!(Point::from_index(6, 7), Point::new(6, 0));
    assert_eq!(Point::from_index(7, 7), Point::new(0, 1));
}

#[test]
fn index_absent_out_of_columns() {
    assert_eq!(Point::new(-1, 0).to_index(5), None);
    assert_eq!(Point::new(0, -1).to_index(5), None);
    assert_eq!(Point::new(5, 0).to_index(5), None);
    assert_eq!(Point::new(-1, i32::MAX).to_index(5), None);
    assert_eq!(Point::new(7, i32::MAX).to_index(5), None);
    assert_eq!(Point::new(0, 0).to_index(0), None);
    assert_eq!(Point::new(4, 1_000_000).to_index(5), Some(5_000_004));
}

#[test]
fn direction_to_steps_toward_target() {
    let a = Point::new(1, 2);
    let b = Point::new(3, 4);
    let d = a.direction_to(b);
    assert_eq!(d, Direction::SouthEast);
    assert_eq!(a + d, Point::new(2, 3));
    assert_eq!(a.direction_to(a), Direction::Here);
    let c = Point::new(1, -5);
    let d = a.direction_to(c);
    assert_eq!(d, Direction::North);
    assert_eq!(a + d, Point::new(1, 1));
    assert_eq!(Point::new(i32::MIN, 0).direction_to(Point::new(i32::MAX, 0)), Direction::East);
}

#[test]
fn square_distance() {
    let pt = Point::new(1, 2);
    let pt2 = Point::new(4, 6);
    assert_eq!(25, pt.square_distance_to(pt2));
    assert_eq!(25, pt2.square_distance_to(pt));
    assert_eq!(0, pt.square_distance_to(pt));
    assert_eq!(2, Point::new(-1, -1).square_distance_to(Point::new(0, 0)));
}

#[test]
fn constructors() {
    let p = Point::new(-3, 9);
    assert_eq!((p.x, p.y), (-3, 9));
    assert_eq!(Point::try_new(5i64, 7i64), Point::new(5, 7));
    assert_eq!(Point::try_new(5i64, 1i64 << 40), Point::new(5, 0));
    assert_eq!(Point::try_new(300u64, 2u64), Point::new(300, 2));
    assert_eq!(Point::try_new(u32::MAX, 1u32), Point::new(0, 1));
    assert_eq!(Point::zero(), Point::new(0, 0));
    assert!(Point::zero().is_zero());
    assert!(!Point::new(0, 1).is_zero());
    assert_eq!(Point::default(), Point::zero());
}

#[test]
fn conversions() {
    assert_eq!(Point::from((4, -2)), Point::new(4, -2));
    let pair: (i32, i32) = Point::new(4, -2).into();
    assert_eq!(pair, (4, -2));
    assert_eq!(Point::from(Direction::SouthWest), Point::new(-1, 1));
    assert!(Point::new(4, -2) == (4, -2));
    assert!(Point::new(4, -2) != (4, 2));
}

#[test]
fn binary_arithmetic() {
    let p = Point::new(6, -9);
    assert_eq!(p + Point::new(1, 2), Point::new(7, -7));
    assert_eq!(p + Direction::NorthEast, Point::new(7, -10));
    assert_eq!(p + (10, 20), Point::new(16, 11));
    assert_eq!(p - Point::new(1, 2), Point::new(5, -11));
    assert_eq!(p - Direction::NorthEast, Point::new(5, -8));
    assert_eq!(p - (10, 20), Point::new(-4, -29));
    assert_eq!(p * 3, Point::new(18, -27));
    assert_eq!(p * (2, -1), Point::new(12, 9));
    assert_eq!(p * Point::new(0, 2), Point::new(0, -18));
    assert_eq!(p / 4, Point::new(1, -2));
    assert_eq!(p / (-4, 2), Point::new(-1, -4));
    assert_eq!(p / Point::new(5, 9), Point::new(1, -1));
    assert_eq!(-p, Point::new(-6, 9));
}

#[test]
fn compound_matches_binary() {
    let p = Point::new(6, -9);
    let mut q = p;
    q += Point::new(1, 2);
    assert_eq!(q, p + Point::new(1, 2));
    let mut q = p;
    q += Direction::SouthWest;
    assert_eq!(q, p + Direction::SouthWest);
    let mut q = p;
    q += (10, 20);
    assert_eq!(q, p + (10, 20));
    let mut q = p;
    q -= Point::new(1, 2);
    assert_eq!(q, p - Point::new(1, 2));
    let mut q = p;
    q -= Direction::SouthWest;
    assert_eq!(q, p - Direction::SouthWest);
    let mut q = p;
    q -= (10, 20);
    assert_eq!(q, p - (10, 20));
    let mut q = p;
    q *= 3;
    assert_eq!(q, p * 3);
    let mut q = p;
    q *= (2, -1);
    assert_eq!(q, p * (2, -1));
    let mut q = p;
    q *= Point::new(0, 2);
    assert_eq!(q, p * Point::new(0, 2));
    let mut q = p;
    q /= 4;
    assert_eq!(q, p / 4);
    let mut q = p;
    q /= (-4, 2);
    assert_eq!(q, p / (-4, 2));
    let mut q = p;
    q /= Point::new(5, 9);
    assert_eq!(q, p / Point::new(5, 9));
}

use gridkit::Point;

fn adjacent_steps(line: &[Point]) -> bool {
    line.windows(2).all(|w| {
        let (dx, dy) = (w[1].x - w[0].x, w[1].y - w[0].y);
        dx.abs() <= 1 && dy.abs() <= 1 && (dx, dy) != (0, 0)
    })
}

#[test]
fn test_line() {
    let pt = Point::new(0, 0);
    let pt2 = Point::new(5, 5);
    assert_eq!(
        pt.line_to(pt2),
        [(0, 0), (1, 1), (2, 2), (3, 3), (4, 4), (5, 5)]
    )
}

#[test]
fn line_steep() {
    let line = Point::new(0, 0).line_to(Point::new(5, 6));
    assert_eq!(line, [(0, 0), (0, 1), (1, 2), (2, 3), (3, 4), (4, 5), (5, 6)]);
}

#[test]
fn line_reversed_is_reverse() {
    let ends = [
        (Point::new(0, 0), Point::new(5, 6)),
        (Point::new(0, 0), Point::new(7, 2)),
        (Point::new(-3, 4), Point::new(6, -1)),
        (Point::new(2, 9), Point::new(2, -3)),
        (Point::new(-8, 1), Point::new(4, 1)),
        (Point::new(0, 0), Point::new(-5, -5)),
    ];
    for (a, b) in ends {
        let forward = a.line_to(b);
        let mut backward = b.line_to(a);
        backward.reverse();
        assert_eq!(forward, backward);
        assert_eq!(forward[0], a);
        assert_eq!(*forward.last().unwrap(), b);
        assert!(adjacent_steps(&forward));
        let dx = (b.x - a.x).abs();
        let dy = (b.y - a.y).abs();
        assert_eq!(forward.len() as i32, 1 + dx.max(dy));
    }
}

#[test]
fn line_single_cell() {
    let p = Point::new(3, -4);
    assert_eq!(p.line_to(p), vec![p]);
}

#[test]
fn line_axis_aligned() {
    assert_eq!(
        Point::new(0, 0).line_to(Point::new(0, -3)),
        [(0, 0), (0, -1), (0, -2), (0, -3)]
    );
    assert_eq!(
        Point::new(2, 1).line_to(Point::new(-1, 1)),
        [(2, 1), (1, 1), (0, 1), (-1, 1)]
    );
}

#[test]
fn line_far_apart() {
    let a = Point::new(i32::MIN, i32::MIN);
    let b = Point::new(i32::MIN + 3, i32::MIN + 1);
    let line = a.line_to(b);
    assert_eq!(line.len(), 4);
    assert_eq!(line[0], a);
    assert_eq!(line[3], b);
    assert!(adjacent_steps(&line));
    let c = Point::new(i32::MAX, i32::MAX - 2);
    let d = Point::new(i32::MAX - 2, i32::MAX);
    let line = c.line_to(d);
    assert_eq!(line.len(), 3);
    assert!(adjacent_steps(&line));
}

use circular_motion::{frame_geometry, Arrow, FrameGeometry, Heading, Point, SimulationState, UNIT};

fn heading_at(angle_radians: f64) -> Heading {
    Heading {
        x: (angle_radians.cos() * UNIT as f64).round() as i32,
        y: (angle_radians.sin() * UNIT as f64).round() as i32,
    }
}

fn sub(a: Point, b: Point) -> (i128, i128) {
    (a.x as i128 - b.x as i128, a.y as i128 - b.y as i128)
}

fn len_sq(v: (i128, i128)) -> i128 {
    v.0 * v.0 + v.1 * v.1
}

fn dot(a: (i128, i128), b: (i128, i128)) -> i128 {
    a.0 * b.0 + a.1 * b.1
}

#[test]
fn arrow_at_angle_zero() {
    let g = frame_geometry(Point { x: 0, y: 0 }, 100, 5, Heading { x: 1_000_000, y: 0 });
    assert_eq!(g.position, Point { x: 100_000_000, y: 0 });
    assert_eq!(
        g.arrow,
        Some(Arrow {
            start: Point { x: 100_000_000, y: 0 },
            tip: Point { x: 100_000_000, y: 50_000_000 },
            left: Point { x: 95_000_000, y: 40_000_000 },
            right: Point { x: 105_000_000, y: 40_000_000 },
        })
    );
}

#[test]
fn arrow_reverses_with_negative_velocity() {
    let g = frame_geometry(Point { x: 7_000_000, y: -3_000_000 }, 10, -1, Heading { x: 0, y: 1_000_000 });
    assert_eq!(g.position, Point { x: 7_000_000, y: 7_000_000 });
    let a = g.arrow.unwrap();
    assert_eq!(a.tip, Point { x: 57_000_000, y: 7_000_000 });
    assert_eq!(a.left, Point { x: 47_000_000, y: 12_000_000 });
    assert_eq!(a.right, Point { x: 47_000_000, y: 2_000_000 });
}

#[test]
fn no_arrow_without_velocity() {
    let g = frame_geometry(Point { x: 1, y: 2 }, 100, 0, heading_at(0.7));
    assert_eq!(g.arrow, None);
    let h = heading_at(0.7);
    assert_eq!(g.position, Point { x: 1 + 100 * h.x as i64, y: 2 + 100 * h.y as i64 });
}

#[test]
fn no_arrow_for_zero_heading() {
    let g = frame_geometry(Point { x: 0, y: 0 }, 100, 9, Heading { x: 0, y: 0 });
    assert_eq!(g, FrameGeometry { position: Point { x: 0, y: 0 }, arrow: None });
}

#[test]
fn wings_are_symmetric() {
    for (angle, velocity) in [(0.3, 157_079_600i64), (2.0, -5), (4.4, 1), (6.2, -1_000_000)] {
        let h = heading_at(angle);
        let center = Point { x: 400_000_000, y: 300_000_000 };
        let g = frame_geometry(center, 120, velocity, h);
        let a = g.arrow.unwrap();
        let axis = sub(a.tip, a.start);
        let unit = (axis.0 / 50, axis.1 / 50);
        assert_eq!((unit.0 * 50, unit.1 * 50), axis);
        assert!(((len_sq(unit) as f64).sqrt() - UNIT as f64).abs() <= 2.0);
        let l = sub(a.left, a.tip);
        let r = sub(a.right, a.tip);
        assert_eq!(len_sq(l), len_sq(r));
        assert_eq!(len_sq(l), 125 * len_sq(unit));
        assert_eq!(dot(l, unit), dot(r, unit));
        let across = (-unit.1, unit.0);
        assert_eq!(dot(l, across), -dot(r, across));
        assert!(dot(l, across) > 0);
    }
}

#[test]
fn arrow_is_tangent_at_drawn_point() {
    let mut s = SimulationState { radius: 150, angular_velocity: 2_000_000, angle: 0 };
    s.advance(700_000);
    let h = heading_at(s.angle as f64 / 1e12);
    let center = Point { x: -2_000_000, y: 9_000_000 };
    let g = frame_geometry(center, s.radius, s.velocity(), h);
    let radius_vec = sub(g.position, center);
    assert_eq!(radius_vec, (150 * h.x as i128, 150 * h.y as i128));
    let a = g.arrow.unwrap();
    assert_eq!(a.start, g.position);
    assert_eq!(dot(radius_vec, sub(a.tip, a.start)), 0);
    let axis = sub(a.tip, a.start);
    assert_eq!(axis, (-50 * h.y as i128, 50 * h.x as i128));
}

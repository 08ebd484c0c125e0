use vstd::math::abs;
use vstd::prelude::*;

verus! {

/// Scale of a heading's components: a heading of length one has components
/// whose squares sum to about `UNIT²`. Positions are in `1 / UNIT` of a length
/// unit, so `UNIT` sub-units make one length unit.
pub const UNIT: i32 = 1_000_000;

/// Length of the velocity arrow, in length units.
pub const ARROW_LENGTH: i64 = 50;

/// Length of the arrowhead along the arrow, in length units.
pub const ARROWHEAD_SIZE: i64 = 10;

/// How far each wing of the arrowhead stands out from the arrow's axis, in
/// length units: half the arrowhead's size.
pub const WING_OFFSET: i64 = 5;

/// Largest magnitude of a coordinate of the circle's center, in sub-units.
pub const COORD_LIMIT: i64 = 0x4000_0000_0000_0000;

/// A point of the drawing surface, in sub-units (`1 / UNIT` of a length unit).
#[derive(Clone, Copy, Debug, PartialEq, Eq, Structural)]
pub struct Point {
    pub x: i64,
    pub y: i64,
}

/// The direction of the moving point from the center, `(cos angle, sin angle)`
/// scaled by `UNIT`.
#[derive(Clone, Copy, Debug, PartialEq, Eq, Structural)]
pub struct Heading {
    pub x: i32,
    pub y: i32,
}

/// The velocity arrow: a main segment from `start` to `tip` and two wing
/// segments from `tip` to `left` and to `right`.
#[derive(Clone, Copy, Debug, PartialEq, Eq, Structural)]
pub struct Arrow {
    pub start: Point,
    pub tip: Point,
    pub left: Point,
    pub right: Point,
}

/// What is drawn for the moving point in one frame.
#[derive(Clone, Copy, Debug, PartialEq, Eq, Structural)]
pub struct FrameGeometry {
    /// Center of the moving point.
    pub position: Point,
    /// The velocity arrow, absent when the tangential velocity vanishes.
    pub arrow: Option<Arrow>,
}

impl Point {
    /// Both coordinates are within `COORD_LIMIT`.
    pub open spec fn in_bounds(&self) -> bool {
        -COORD_LIMIT <= self.x <= COORD_LIMIT && -COORD_LIMIT <= self.y <= COORD_LIMIT
    }
}

impl Heading {
    /// Each component lies within `[-UNIT, UNIT]`, as a cosine or sine does.
    pub open spec fn wf(&self) -> bool {
        -UNIT <= self.x <= UNIT && -UNIT <= self.y <= UNIT
    }

    pub open spec fn is_zero(&self) -> bool {
        self.x == 0 && self.y == 0
    }
}

/// A vector of integers.
pub struct Vector {
    pub x: int,
    pub y: int,
}

pub open spec fn dot(a: Vector, b: Vector) -> int {
    a.x * b.x + a.y * b.y
}

pub open spec fn length_sq(a: Vector) -> int {
    dot(a, a)
}

pub open spec fn scale(k: int, a: Vector) -> Vector {
    Vector { x: k * a.x, y: k * a.y }
}

/// The vector from `a` to `b`.
pub open spec fn offset(a: Point, b: Point) -> Vector {
    Vector { x: b.x - a.x, y: b.y - a.y }
}

pub open spec fn shift(p: Point, v: Vector) -> Point {
    Point { x: (p.x + v.x) as i64, y: (p.y + v.y) as i64 }
}

/// `v` turned a quarter turn, from the x axis toward the y axis.
pub open spec fn perp(v: Vector) -> Vector {
    Vector { x: -v.y, y: v.x }
}

pub open spec fn heading_vector(h: Heading) -> Vector {
    Vector { x: h.x as int, y: h.y as int }
}

/// The moving point: `center + radius · heading`.
pub open spec fn point_on_circle(center: Point, radius: int, h: Heading) -> Point {
    shift(center, scale(radius, heading_vector(h)))
}

/// The tangential velocity vector `(-velocity · sin, velocity · cos)`.
pub open spec fn tangent(velocity: int, h: Heading) -> Vector {
    scale(velocity, perp(heading_vector(h)))
}

/// The tangential vector normalised to the heading's length: the heading
/// turned a quarter turn forward for positive velocity, backward for negative.
pub open spec fn arrow_direction(velocity: int, h: Heading) -> Vector {
    if velocity >= 0 {
        perp(heading_vector(h))
    } else {
        scale(-1, perp(heading_vector(h)))
    }
}

/// The arrow drawn from `start` along direction `d` (of length `UNIT`).
pub open spec fn arrow_from(start: Point, d: Vector) -> Arrow {
    let tip = shift(start, scale(ARROW_LENGTH as int, d));
    let back = shift(tip, scale(-ARROWHEAD_SIZE, d));
    Arrow {
        start,
        tip,
        left: shift(back, scale(WING_OFFSET as int, perp(d))),
        right: shift(back, scale(-WING_OFFSET, perp(d))),
    }
}

/// The frame's geometry as a value.
pub open spec fn frame_of(center: Point, radius: int, velocity: int, h: Heading) -> FrameGeometry {
    let position = point_on_circle(center, radius, h);
    FrameGeometry {
        position,
        arrow: if velocity == 0 || h.is_zero() {
            None
        } else {
            Some(arrow_from(position, arrow_direction(velocity, h)))
        },
    }
}

proof fn lemma_position_exact(center: Point, radius: int, h: Heading)
    requires
        center.in_bounds(),
        0 <= radius <= 0xffff_ffff,
        h.wf(),
    ensures
        point_on_circle(center, radius, h).x == center.x + radius * h.x,
        point_on_circle(center, radius, h).y == center.y + radius * h.y,
        -COORD_LIMIT - 0x1_0000_0000 * 1_000_000 <= point_on_circle(center, radius, h).x
            <= COORD_LIMIT + 0x1_0000_0000 * 1_000_000,
        -COORD_LIMIT - 0x1_0000_0000 * 1_000_000 <= point_on_circle(center, radius, h).y
            <= COORD_LIMIT + 0x1_0000_0000 * 1_000_000,
{
    assert(-0x1_0000_0000 * 1_000_000 <= radius * h.x <= 0x1_0000_0000 * 1_000_000
        && -0x1_0000_0000 * 1_000_000 <= radius * h.y <= 0x1_0000_0000 * 1_000_000)
        by (nonlinear_arith)
        requires
            0 <= radius <= 0x1_0000_0000,
            -1_000_000 <= h.x <= 1_000_000,
            -1_000_000 <= h.y <= 1_000_000,
    ;
}

/// The drawn point and the arrow come from the same angle: the point is the
/// center moved by `radius · heading`, and the arrow starts at that point and
/// runs along the tangent there, at right angles to the radius.
pub proof fn lemma_position_matches_arrow(center: Point, radius: u32, velocity: i64, h: Heading)
    requires
        center.in_bounds(),
        h.wf(),
    ensures
        ({
            let g = frame_of(center, radius as int, velocity as int, h);
            &&& offset(center, g.position) == scale(radius as int, heading_vector(h))
            &&& g.arrow matches Some(a) ==> {
                &&& a.start == g.position
                &&& dot(offset(center, g.position), offset(a.start, a.tip)) == 0
            }
        }),
{
    let g = frame_of(center, radius as int, velocity as int, h);
    lemma_position_exact(center, radius as int, h);
    if g.arrow is Some {
        let d = arrow_direction(velocity as int, h);
        lemma_arrow_shape(g.position, d);
        let (hx, hy, r) = (h.x as int, h.y as int, radius as int);
        assert(dot(scale(r, heading_vector(h)), scale(ARROW_LENGTH as int, d)) == 0)
            by (nonlinear_arith)
            requires
                d == perp(heading_vector(h)) || d == scale(-1, perp(heading_vector(h))),
        ;
    }
}

/// Offsets that the arrow adds to its start stay small enough that every
/// coordinate of it is exact.
proof fn lemma_arrow_shape(start: Point, d: Vector)
    requires
        -COORD_LIMIT - 0x1_0000_0000 * 1_000_000 <= start.x <= COORD_LIMIT + 0x1_0000_0000
            * 1_000_000,
        -COORD_LIMIT - 0x1_0000_0000 * 1_000_000 <= start.y <= COORD_LIMIT + 0x1_0000_0000
            * 1_000_000,
        -1_000_000 <= d.x <= 1_000_000,
        -1_000_000 <= d.y <= 1_000_000,
    ensures
        ({
            let a = arrow_from(start, d);
            &&& a.start == start
            &&& offset(a.start, a.tip) == scale(ARROW_LENGTH as int, d)
            &&& offset(a.tip, a.left) == (Vector {
                x: -ARROWHEAD_SIZE * d.x - WING_OFFSET * d.y,
                y: -ARROWHEAD_SIZE * d.y + WING_OFFSET * d.x,
            })
            &&& offset(a.tip, a.right) == (Vector {
                x: -ARROWHEAD_SIZE * d.x + WING_OFFSET * d.y,
                y: -ARROWHEAD_SIZE * d.y - WING_OFFSET * d.x,
            })
        }),
{
}

/// The arrow is the tangential velocity vector normalised: its direction is
/// that vector divided by `|velocity|`, so it has the heading's length (`UNIT`,
/// one length unit, for a true unit heading). Its two wings are symmetric about
/// the main axis: equally long, with the same component along the axis and
/// opposite offsets across it.
pub proof fn lemma_arrow_symmetric(center: Point, radius: u32, velocity: i64, h: Heading)
    requires
        center.in_bounds(),
        h.wf(),
    ensures
        ({
            let g = frame_of(center, radius as int, velocity as int, h);
            let d = arrow_direction(velocity as int, h);
            g.arrow matches Some(a) ==> {
                &&& tangent(velocity as int, h) == scale(abs(velocity as int) as int, d)
                &&& length_sq(d) == length_sq(heading_vector(h))
                &&& length_sq(d) > 0
                &&& offset(a.start, a.tip) == scale(ARROW_LENGTH as int, d)
                &&& length_sq(offset(a.tip, a.left)) == length_sq(offset(a.tip, a.right))
                &&& dot(offset(a.tip, a.left), d) == dot(offset(a.tip, a.right), d)
                &&& dot(offset(a.tip, a.left), d) == -ARROWHEAD_SIZE * length_sq(d)
                &&& dot(offset(a.tip, a.left), perp(d)) == -dot(offset(a.tip, a.right), perp(d))
                &&& dot(offset(a.tip, a.left), perp(d)) == WING_OFFSET * length_sq(d)
            }
        }),
{
    let g = frame_of(center, radius as int, velocity as int, h);
    let d = arrow_direction(velocity as int, h);
    lemma_position_exact(center, radius as int, h);
    if g.arrow is Some {
        lemma_arrow_shape(g.position, d);
        let v = velocity as int;
        let (hx, hy) = (h.x as int, h.y as int);
        assert(tangent(v, h) == scale(abs(v) as int, d)) by (nonlinear_arith)
            requires
                v != 0,
                d == (if v >= 0 {
                    perp(heading_vector(h))
                } else {
                    scale(-1, perp(heading_vector(h)))
                }),
                hx == h.x,
                hy == h.y,
        ;
        assert(length_sq(d) == hx * hx + hy * hy) by (nonlinear_arith)
            requires
                d == (Vector { x: -hy, y: hx }) || d == (Vector { x: hy, y: -hx }),
        ;
        assert(hx * hx + hy * hy > 0) by (nonlinear_arith)
            requires
                hx != 0 || hy != 0,
        ;
        let (dx, dy) = (d.x, d.y);
        assert(length_sq(Vector { x: -10 * dx - 5 * dy, y: -10 * dy + 5 * dx }) == length_sq(
            Vector { x: -10 * dx + 5 * dy, y: -10 * dy - 5 * dx },
        )) by (nonlinear_arith);
        assert(dot(Vector { x: -10 * dx - 5 * dy, y: -10 * dy + 5 * dx }, d) == -10 * length_sq(
            d,
        ) && dot(Vector { x: -10 * dx + 5 * dy, y: -10 * dy - 5 * dx }, d) == -10 * length_sq(d))
            by (nonlinear_arith)
            requires
                dx == d.x,
                dy == d.y,
        ;
        assert(dot(Vector { x: -10 * dx - 5 * dy, y: -10 * dy + 5 * dx }, perp(d)) == 5
            * length_sq(d) && dot(Vector { x: -10 * dx + 5 * dy, y: -10 * dy - 5 * dx }, perp(d))
            == -5 * length_sq(d)) by (nonlinear_arith)
            requires
                dx == d.x,
                dy == d.y,
        ;
    }
}

/// Computes the moving point's position on the circle around `center`, and,
/// when the tangential velocity is not zero, the arrow along it. `velocity` is
/// the signed tangential velocity and `heading` the point's direction from
/// the center at the current angle.
pub fn frame_geometry(center: Point, radius: u32, velocity: i64, heading: Heading) -> (g:
    FrameGeometry)
    requires
        center.in_bounds(),
        heading.wf(),
    ensures
        g == frame_of(center, radius as int, velocity as int, heading),
        g.arrow is None <==> (velocity == 0 || heading.is_zero()),
{
    let r: i64 = radius as i64;
    let hx: i64 = heading.x as i64;
    let hy: i64 = heading.y as i64;
    assert(-0x1_0000_0000 * 1_000_000 <= r * hx <= 0x1_0000_0000 * 1_000_000
        && -0x1_0000_0000 * 1_000_000 <= r * hy <= 0x1_0000_0000 * 1_000_000) by (nonlinear_arith)
        requires
            0 <= r <= 0x1_0000_0000,
            -1_000_000 <= hx <= 1_000_000,
            -1_000_000 <= hy <= 1_000_000,
    ;
    let position = Point { x: center.x + r * hx, y: center.y + r * hy };
    if velocity == 0 || (hx == 0 && hy == 0) {
        return FrameGeometry { position, arrow: None };
    }
    let (dx, dy): (i64, i64) = if velocity >= 0 { (-hy, hx) } else { (hy, -hx) };
    let tip = Point { x: position.x + ARROW_LENGTH * dx, y: position.y + ARROW_LENGTH * dy };
    let back = Point { x: tip.x - ARROWHEAD_SIZE * dx, y: tip.y - ARROWHEAD_SIZE * dy };
    let left = Point { x: back.x + WING_OFFSET * (-dy), y: back.y + WING_OFFSET * dx };
    let right = Point { x: back.x - WING_OFFSET * (-dy), y: back.y - WING_OFFSET * dx };
    let arrow = Arrow { start: position, tip, left, right };
    FrameGeometry { position, arrow: Some(arrow) }
}

} // verus!

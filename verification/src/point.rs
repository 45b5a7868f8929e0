//! Integer coordinates, the four unit steps and the Manhattan distance.

use vstd::prelude::*;
use vstd::std_specs::ops::AddSpec;

verus! {

/// A pair of small signed coordinates. A `Point` serves both as an absolute
/// position on a grid and as a relative offset between two positions.
#[derive(Copy, Clone, Hash, Eq, PartialEq, Debug, Structural)]
pub struct Point {
    pub x: i8,
    pub y: i8,
}

/// The point with the given coordinates, each of which lies in the range of
/// an `i8`.
pub open spec fn spec_point(x: int, y: int) -> Point
    recommends
        i8::MIN <= x <= i8::MAX,
        i8::MIN <= y <= i8::MAX,
{
    Point { x: x as i8, y: y as i8 }
}

impl core::ops::Add for Point {
    type Output = Point;

    /// Elementwise sum: the point reached from `self` by the offset `rhs`.
    /// Both sums must stay within the range of a coordinate.
    fn add(self, rhs: Point) -> (r: Point) {
        Point { x: self.x + rhs.x, y: self.y + rhs.y }
    }
}

impl vstd::std_specs::ops::AddSpecImpl for Point {
    open spec fn obeys_add_spec() -> bool {
        true
    }

    open spec fn add_req(self, rhs: Point) -> bool {
        &&& i8::MIN <= self.x + rhs.x <= i8::MAX
        &&& i8::MIN <= self.y + rhs.y <= i8::MAX
    }

    open spec fn add_spec(self, rhs: Point) -> Point {
        spec_point(self.x + rhs.x, self.y + rhs.y)
    }
}

/// The four unit steps as a sequence, in the order right, left, up, down.
pub open spec fn spec_directions() -> Seq<Point> {
    seq![spec_point(1, 0), spec_point(-1, 0), spec_point(0, 1), spec_point(0, -1)]
}

/// The unit step towards larger `x`.
pub fn direction_right() -> (d: Point)
    ensures
        d == spec_point(1, 0),
{
    Point { x: 1, y: 0 }
}

/// The unit step towards smaller `x`.
pub fn direction_left() -> (d: Point)
    ensures
        d == spec_point(-1, 0),
{
    Point { x: -1, y: 0 }
}

/// The unit step towards larger `y`.
pub fn direction_up() -> (d: Point)
    ensures
        d == spec_point(0, 1),
{
    Point { x: 0, y: 1 }
}

/// The unit step towards smaller `y`.
pub fn direction_down() -> (d: Point)
    ensures
        d == spec_point(0, -1),
{
    Point { x: 0, y: -1 }
}

/// The four unit steps, in the order right, left, up, down.
pub fn directions() -> (d: [Point; 4])
    ensures
        d@ == spec_directions(),
{
    [direction_right(), direction_left(), direction_up(), direction_down()]
}

/// The absolute difference `|a - b|` of two integers.
pub open spec fn spec_abs_diff(a: int, b: int) -> int {
    if a >= b {
        a - b
    } else {
        b - a
    }
}

/// The Manhattan distance `|a.x - b.x| + |a.y - b.y|` as a mathematical
/// integer.
pub open spec fn spec_distance(a: Point, b: Point) -> int {
    spec_abs_diff(a.x as int, b.x as int) + spec_abs_diff(a.y as int, b.y as int)
}

/// Manhattan distance between `a` and `b`.
///
/// The result is a `u8`, so the two points must be at most 255 steps apart;
/// every pair of points whose coordinates differ by at most 127 each is.
pub fn get_distance(a: &Point, b: &Point) -> (d: u8)
    requires
        spec_distance(*a, *b) <= u8::MAX,
    ensures
        d == spec_distance(*a, *b),
{
    let dx: i16 = a.x as i16 - b.x as i16;
    let dy: i16 = a.y as i16 - b.y as i16;
    let ax: i16 = if dx < 0 { -dx } else { dx };
    let ay: i16 = if dy < 0 { -dy } else { dy };
    (ax + ay) as u8
}

/// The distance does not depend on the order of the two points.
pub proof fn lemma_distance_symmetric(a: Point, b: Point)
    ensures
        spec_distance(a, b) == spec_distance(b, a),
{
}

/// The distance is never negative, and it is 0 exactly between a point and
/// itself.
pub proof fn lemma_distance_zero(a: Point, b: Point)
    ensures
        spec_distance(a, a) == 0,
        spec_distance(a, b) >= 0,
        spec_distance(a, b) == 0 <==> a == b,
{
}

/// Two points whose coordinates are not negative, such as two points of a
/// grid, are close enough for `get_distance`.
pub proof fn lemma_distance_fits(a: Point, b: Point)
    requires
        0 <= a.x,
        0 <= a.y,
        0 <= b.x,
        0 <= b.y,
    ensures
        spec_distance(a, b) <= 254,
{
}

/// The four directions are four different points, each one step away from
/// the origin.
pub proof fn lemma_directions_are_unit_steps()
    ensures
        spec_directions().len() == 4,
        spec_directions().no_duplicates(),
        forall|i: int|
            0 <= i < 4 ==> spec_distance(spec_point(0, 0), #[trigger] spec_directions()[i]) == 1,
{
}

/// Adding a direction to a point gives a neighbour: a point at distance 1.
pub proof fn lemma_step_reaches_neighbour(p: Point, i: int)
    requires
        0 <= i < 4,
        p.add_req(spec_directions()[i]),
    ensures
        spec_distance(p, p.add_spec(spec_directions()[i])) == 1,
{
}

} // verus!

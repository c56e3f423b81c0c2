//! Quarter-turn rotation of grid points about a centre.

use vstd::prelude::*;
use crate::geometry::Point;

verus! {

/// A rotation by a multiple of ninety degrees.
#[derive(Clone, Copy, Debug, PartialEq, Eq, Structural)]
pub enum Rotation {
    Rotate0,
    Rotate90,
    Rotate180,
    Rotate270,
}

/// Where `p` lands when the plane is turned by `rotation` about `center`:
/// the offset `(x, y)` from the centre becomes `(x, y)`, `(-y, x)`,
/// `(-x, -y)` or `(y, -x)`.
pub open spec fn rotated(p: (int, int), rotation: Rotation, center: (int, int)) -> (int, int) {
    let x = p.0 - center.0;
    let y = p.1 - center.1;
    match rotation {
        Rotation::Rotate0 => (center.0 + x, center.1 + y),
        Rotation::Rotate90 => (center.0 - y, center.1 + x),
        Rotation::Rotate180 => (center.0 - x, center.1 - y),
        Rotation::Rotate270 => (center.0 + y, center.1 - x),
    }
}

/// The rotated position as wide integers, which cannot overflow.
fn rotate_wide(point: Point, rotation: Rotation, center: Point) -> (r: (i64, i64))
    ensures
        (r.0 as int, r.1 as int) == rotated(point@, rotation, center@),
{
    let x: i64 = point.x as i64 - center.x as i64;
    let y: i64 = point.y as i64 - center.y as i64;
    let cx: i64 = center.x as i64;
    let cy: i64 = center.y as i64;
    match rotation {
        Rotation::Rotate0 => (cx + x, cy + y),
        Rotation::Rotate90 => (cx - y, cy + x),
        Rotation::Rotate180 => (cx - x, cy - y),
        Rotation::Rotate270 => (cx + y, cy - x),
    }
}

/// Rotates `point` by `rotation` about `center`.
///
/// The rotated position has to be a `Point` again; positions in between
/// need not be.
pub fn rotate_point(point: Point, rotation: Rotation, center: Point) -> (r: Point)
    requires
        Point::representable(rotated(point@, rotation, center@)),
    ensures
        r@ == rotated(point@, rotation, center@),
{
    let (x, y) = rotate_wide(point, rotation, center);
    Point { x: x as i32, y: y as i32 }
}

/// Rotates `point` by `rotation` about `center`, or returns `None` where
/// the rotated position has a coordinate that no `Point` can hold.
pub fn checked_rotate_point(point: Point, rotation: Rotation, center: Point) -> (r: Option<Point>)
    ensures
        r is Some <==> Point::representable(rotated(point@, rotation, center@)),
        r matches Some(p) ==> p@ == rotated(point@, rotation, center@),
{
    let (x, y) = rotate_wide(point, rotation, center);
    let low: i64 = i32::MIN as i64;
    let high: i64 = i32::MAX as i64;
    if low <= x && x <= high && low <= y && y <= high {
        Some(Point { x: x as i32, y: y as i32 })
    } else {
        None
    }
}

/// Four quarter turns bring every point back to where it was.
pub proof fn lemma_four_quarter_turns(p: (int, int), center: (int, int))
    ensures
        rotated(
            rotated(
                rotated(rotated(p, Rotation::Rotate90, center), Rotation::Rotate90, center),
                Rotation::Rotate90,
                center,
            ),
            Rotation::Rotate90,
            center,
        ) == p,
{
}

/// Two half turns bring every point back to where it was.
pub proof fn lemma_two_half_turns(p: (int, int), center: (int, int))
    ensures
        rotated(rotated(p, Rotation::Rotate180, center), Rotation::Rotate180, center) == p,
{
}

/// A quarter turn followed by a three-quarter turn brings every point back.
pub proof fn lemma_quarter_then_three_quarter_turn(p: (int, int), center: (int, int))
    ensures
        rotated(rotated(p, Rotation::Rotate90, center), Rotation::Rotate270, center) == p,
{
}

/// No rotation moves its own centre.
pub proof fn lemma_center_is_fixed(center: (int, int), rotation: Rotation)
    ensures
        rotated(center, rotation, center) == center,
{
}

} // verus!

use vstd::prelude::*;

verus! {

/// A screen position in physical pixels.
#[derive(Clone, Copy, Debug, PartialEq, Eq, Structural)]
pub struct Point {
    pub x: i32,
    pub y: i32,
}

/// A signed pixel vector: the follower's position minus the target's.
#[derive(Clone, Copy, Debug, PartialEq, Eq, Structural)]
pub struct Offset {
    pub dx: i64,
    pub dy: i64,
}

/// An opaque, equality-comparable identifier of a native top-level window.
#[derive(Clone, Copy, Debug, PartialEq, Eq, Structural)]
pub struct WindowHandle {
    pub raw: isize,
}

pub open spec fn fits_i32(v: int) -> bool {
    i32::MIN <= v <= i32::MAX
}

/// The offset from `origin` to `p`.
pub open spec fn offset_between(p: Point, origin: Point) -> Offset {
    Offset { dx: (p.x - origin.x) as i64, dy: (p.y - origin.y) as i64 }
}

/// `origin` moved by `off`, where that position is representable.
pub open spec fn shifted(origin: Point, off: Offset) -> Option<Point> {
    if fits_i32(origin.x + off.dx) && fits_i32(origin.y + off.dy) {
        Some(Point { x: (origin.x + off.dx) as i32, y: (origin.y + off.dy) as i32 })
    } else {
        None
    }
}

impl Point {
    pub fn new(x: i32, y: i32) -> (r: Point)
        ensures
            r.x == x,
            r.y == y,
    {
        Point { x, y }
    }
}

pub fn offset_of(p: Point, origin: Point) -> (r: Offset)
    ensures
        r == offset_between(p, origin),
{
    Offset { dx: p.x as i64 - origin.x as i64, dy: p.y as i64 - origin.y as i64 }
}

fn shift_coord(c: i32, d: i64) -> (r: Option<i32>)
    ensures
        r matches Some(v) ==> v == c + d,
        r is None <==> !fits_i32(c + d),
{
    match (c as i64).checked_add(d) {
        Some(s) => {
            if i32::MIN as i64 <= s && s <= i32::MAX as i64 {
                Some(s as i32)
            } else {
                None
            }
        },
        None => None,
    }
}

pub fn shift(origin: Point, off: Offset) -> (r: Option<Point>)
    ensures
        r == shifted(origin, off),
{
    match (shift_coord(origin.x, off.dx), shift_coord(origin.y, off.dy)) {
        (Some(x), Some(y)) => Some(Point { x, y }),
        _ => None,
    }
}

} // verus!

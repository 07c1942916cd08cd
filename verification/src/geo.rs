//! Geographic value types and the bounding-box containment test.

use vstd::prelude::*;

verus! {

/// A geographic point: latitude and longitude in degrees scaled by 10^7,
/// stored as fixed-precision integers. Equality and hashing are structural
/// on both coordinates.
#[derive(Clone, Copy, PartialEq, Eq, Structural, Hash, Debug)]
pub struct Point {
    pub latitude: i32,
    pub longitude: i32,
}

/// An axis-aligned bounding box given by two corner points. The corners need
/// not be ordered: queries normalize them with min/max first.
#[derive(Clone, Copy, PartialEq, Eq, Structural, Debug)]
pub struct Rectangle {
    pub lo: Point,
    pub hi: Point,
}

/// Whether `point` lies inside the normalized bounding box of `rect`,
/// inclusive on all four edges.
pub open spec fn in_range_spec(point: Point, rect: Rectangle) -> bool {
    let left = if rect.lo.longitude <= rect.hi.longitude {
        rect.lo.longitude
    } else {
        rect.hi.longitude
    };
    let right = if rect.lo.longitude <= rect.hi.longitude {
        rect.hi.longitude
    } else {
        rect.lo.longitude
    };
    let bottom = if rect.lo.latitude <= rect.hi.latitude {
        rect.lo.latitude
    } else {
        rect.hi.latitude
    };
    let top = if rect.lo.latitude <= rect.hi.latitude {
        rect.hi.latitude
    } else {
        rect.lo.latitude
    };
    left <= point.longitude && point.longitude <= right && bottom <= point.latitude
        && point.latitude <= top
}

/// Boundary-inclusive containment test against the normalized corners of
/// `rect`.
pub fn in_range(point: &Point, rect: &Rectangle) -> (r: bool)
    ensures
        r == in_range_spec(*point, *rect),
{
    let left = if rect.lo.longitude <= rect.hi.longitude {
        rect.lo.longitude
    } else {
        rect.hi.longitude
    };
    let right = if rect.lo.longitude <= rect.hi.longitude {
        rect.hi.longitude
    } else {
        rect.lo.longitude
    };
    let bottom = if rect.lo.latitude <= rect.hi.latitude {
        rect.lo.latitude
    } else {
        rect.hi.latitude
    };
    let top = if rect.lo.latitude <= rect.hi.latitude {
        rect.hi.latitude
    } else {
        rect.lo.latitude
    };
    point.longitude >= left && point.longitude <= right && point.latitude >= bottom
        && point.latitude <= top
}

/// Containment does not depend on which corner of the rectangle is `lo` and
/// which is `hi`: swapping them leaves the answer unchanged for every point.
pub proof fn lemma_in_range_corner_swap(point: Point, rect: Rectangle)
    ensures
        in_range_spec(point, rect) == in_range_spec(
            point,
            Rectangle { lo: rect.hi, hi: rect.lo },
        ),
{
}

} // verus!

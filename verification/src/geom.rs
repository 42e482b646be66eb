use vstd::prelude::*;

verus! {

/// Largest coordinate magnitude (in subunits) a body may occupy.
/// Chosen so that sums and differences of any two in-range coordinates,
/// plus a body size, stay far inside the `i64` range.
pub const COORD_LIMIT: i64 = 1_000_000_000_000;

/// Largest width or height (in subunits) a body or a viewport may have.
pub const SIZE_LIMIT: i64 = 1_000_000_000;

/// Largest configurable speed, in subunits per millisecond. One subunit
/// per millisecond is one thousandth of a world unit per second.
pub const SPEED_LIMIT: i64 = 1_000_000_000;

/// Largest frame time (in milliseconds) a single step may cover.
pub const DT_LIMIT: i64 = 1_000_000;

/// Largest per-frame displacement magnitude: `SPEED_LIMIT` subunits per
/// millisecond sustained for `DT_LIMIT` milliseconds.
pub const DISP_LIMIT: i64 = 1_000_000_000_000_000;

/// A 2D point or vector with integer subunit coordinates.
#[derive(Clone, Copy, PartialEq, Eq, Structural, Debug)]
pub struct Vec2i {
    pub x: i64,
    pub y: i64,
}

/// An axis-aligned rectangle: top-left corner at `(x, y)`, extending
/// `w` subunits to the right and `h` subunits downwards.
#[derive(Clone, Copy, PartialEq, Eq, Structural, Debug)]
pub struct Rect {
    pub x: i64,
    pub y: i64,
    pub w: i64,
    pub h: i64,
}

/// A coordinate the world accepts.
pub open spec fn in_coord_range(v: int) -> bool {
    -(COORD_LIMIT as int) <= v <= COORD_LIMIT as int
}

/// Well-formed body rectangle: in-range position, positive bounded size.
pub open spec fn rect_wf(r: Rect) -> bool {
    &&& in_coord_range(r.x as int)
    &&& in_coord_range(r.y as int)
    &&& 0 < r.w <= SIZE_LIMIT
    &&& 0 < r.h <= SIZE_LIMIT
}

/// The rectangle a body occupies when placed at `pos` with the given size.
pub open spec fn rect_at(pos: Vec2i, width: i64, height: i64) -> Rect {
    Rect { x: pos.x, y: pos.y, w: width, h: height }
}

/// Halves a nonnegative quantity, rounding towards zero.
pub fn half_nonneg(v: i64) -> (h: i64)
    requires
        0 <= v,
    ensures
        h == v as int / 2,
{
    ((v as u64) / 2) as i64
}

} // verus!

use vstd::prelude::*;

verus! {

/// A point in virtual-screen coordinates.
#[derive(Clone, Copy, Debug, PartialEq, Eq, Structural)]
pub struct Point {
    pub x: i32,
    pub y: i32,
}

/// The bounds of a monitor: `left` and `top` inclusive, `right` and `bottom`
/// exclusive.
#[derive(Clone, Copy, Debug, PartialEq, Eq, Structural)]
pub struct Rect {
    pub left: i32,
    pub top: i32,
    pub right: i32,
    pub bottom: i32,
}

/// `a + b`, clamped to the range of `i32`.
pub open spec fn saturating_sum_i32(a: i32, b: i32) -> int {
    let s = a + b;
    if s > i32::MAX {
        i32::MAX as int
    } else if s < i32::MIN {
        i32::MIN as int
    } else {
        s
    }
}

/// The strip of `width_px` columns at the left edge of `monitor` holds `point`.
pub open spec fn in_left_edge_strip(monitor: Rect, point: Point, width_px: i32) -> bool {
    &&& width_px > 0
    &&& point.x >= monitor.left
    &&& point.x < saturating_sum_i32(monitor.left, width_px)
    &&& point.y >= monitor.top
    &&& point.y < monitor.bottom
}

/// The point lies in the left-edge strip of the monitor it was found on; no
/// monitor means no edge.
pub open spec fn at_left_edge(monitor: Option<Rect>, point: Point, width_px: i32) -> bool {
    match monitor {
        Some(bounds) => in_left_edge_strip(bounds, point, width_px),
        None => false,
    }
}

fn saturating_add_i32(a: i32, b: i32) -> (r: i32)
    ensures
        r == saturating_sum_i32(a, b),
{
    let s: i64 = a as i64 + b as i64;
    if s > i32::MAX as i64 {
        i32::MAX
    } else if s < i32::MIN as i64 {
        i32::MIN
    } else {
        s as i32
    }
}

impl Rect {
    /// Whether `point` lies within `width_px` columns of the left edge of
    /// these bounds, and between their top (inclusive) and bottom (exclusive).
    pub fn contains_left_edge(self, point: Point, width_px: i32) -> (r: bool)
        ensures
            r == in_left_edge_strip(self, point, width_px),
    {
        width_px > 0 && point.x >= self.left && point.x < saturating_add_i32(self.left, width_px)
            && point.y >= self.top && point.y < self.bottom
    }
}

/// Whether `point` is at the left edge of `monitor`, the bounds of the
/// monitor nearest to the point (`None` where none could be determined).
pub fn is_at_left_edge(monitor: Option<Rect>, point: Point, width_px: i32) -> (r: bool)
    ensures
        r == at_left_edge(monitor, point, width_px),
{
    match monitor {
        Some(bounds) => bounds.contains_left_edge(point, width_px),
        None => false,
    }
}

/// A strip of non-positive width holds no point.
pub proof fn lemma_non_positive_width_holds_nothing(monitor: Rect, point: Point, width_px: i32)
    requires
        width_px <= 0,
    ensures
        !in_left_edge_strip(monitor, point, width_px),
{
}


/// A point is in the left-edge strip exactly when the width is positive, the
/// point's column is at or right of the monitor's left edge and less than
/// `width_px` columns right of it (and not the last representable column,
/// where the strip's end is clamped), and its row lies between the top
/// (inclusive) and the bottom (exclusive); this holds for monitors anywhere,
/// at negative coordinates too.
pub proof fn lemma_left_edge_strip_membership(monitor: Rect, point: Point, width_px: i32)
    ensures
        in_left_edge_strip(monitor, point, width_px) <==> (width_px > 0 && monitor.left
            <= point.x && point.x < monitor.left + width_px && point.x < 0x7fff_ffff
            && monitor.top <= point.y && point.y < monitor.bottom),
        at_left_edge(Some(monitor), point, width_px) == in_left_edge_strip(monitor, point, width_px),
        !at_left_edge(None, point, width_px),
{
}

/// Moving a monitor and a point by the same horizontal and vertical distance
/// keeps the point in or out of the strip, as long as no coordinate leaves the
/// range of `i32` and the strip's end stays representable.
pub proof fn lemma_left_edge_strip_translation(
    monitor: Rect,
    point: Point,
    width_px: i32,
    dx: int,
    dy: int,
    moved_monitor: Rect,
    moved_point: Point,
)
    requires
        moved_monitor.left == monitor.left + dx,
        moved_monitor.top == monitor.top + dy,
        moved_monitor.bottom == monitor.bottom + dy,
        moved_point.x == point.x + dx,
        moved_point.y == point.y + dy,
        monitor.left + width_px <= 0x7fff_ffff,
        moved_monitor.left + width_px <= 0x7fff_ffff,
    ensures
        in_left_edge_strip(moved_monitor, moved_point, width_px) == in_left_edge_strip(
            monitor,
            point,
            width_px,
        ),
{
}

} // verus!

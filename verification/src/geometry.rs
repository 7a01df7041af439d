//! Points, rectangles, pivots and guide marks on the integer canvas grid.

use vstd::prelude::*;

verus! {

/// Smallest width and height that a resize leaves a layer with.
pub const MIN_SIZE: i32 = 16;

/// A moved edge or centre closer than this to a guide snaps onto it.
pub const MOVE_SNAP_DISTANCE: i32 = 3;

/// A resized edge closer than this to a guide snaps onto it.
pub const RESIZE_SNAP_DISTANCE: i32 = 10;

/// Banked motion larger than this on either axis pulls the layer free.
pub const RELEASE_THRESHOLD: i32 = 5;

/// The pointer grabs an edge of the selected layer when it is closer than
/// this to it.
pub const GRAB_DISTANCE: i32 = 4;

/// The value of `i32` nearest to `v`.
pub open spec fn clamp_i32(v: int) -> i32 {
    if v < i32::MIN {
        i32::MIN
    } else if v > i32::MAX {
        i32::MAX
    } else {
        v as i32
    }
}

/// How far apart two coordinates are.
pub open spec fn distance(a: int, b: int) -> int {
    if a >= b {
        a - b
    } else {
        b - a
    }
}

/// Narrows a wide intermediate result to a coordinate, saturating.
pub fn saturate(v: i64) -> (r: i32)
    ensures
        r == clamp_i32(v as int),
{
    if v < i32::MIN as i64 {
        i32::MIN
    } else if v > i32::MAX as i64 {
        i32::MAX
    } else {
        v as i32
    }
}

/// Whether two coordinates are closer than `limit`.
pub fn closer_than(a: i64, b: i64, limit: i32) -> (r: bool)
    requires
        -0x2000_0000_0000_0000 <= a <= 0x2000_0000_0000_0000,
        -0x2000_0000_0000_0000 <= b <= 0x2000_0000_0000_0000,
    ensures
        r == (distance(a as int, b as int) < limit),
{
    let d: i64 = if a >= b {
        a - b
    } else {
        b - a
    };
    d < limit as i64
}

/// Half of `a`, rounded down.
pub fn half_floor(a: i64) -> (r: i64)
    requires
        a > i64::MIN,
    ensures
        r == (a as int) / 2,
{
    if a >= 0 {
        a / 2
    } else {
        (a - 1) / 2
    }
}

/// A position on the canvas, or a displacement between two positions.
#[derive(Debug, Clone, Copy, PartialEq, Eq, Structural)]
pub struct Point {
    pub x: i32,
    pub y: i32,
}

impl Point {
    /// The point with both coordinates zero.
    pub open spec fn origin() -> Point {
        Point { x: 0, y: 0 }
    }

    /// Coordinate-wise sum, saturating.
    pub open spec fn plus(self, other: Point) -> Point {
        Point { x: clamp_i32(self.x + other.x), y: clamp_i32(self.y + other.y) }
    }

    /// Coordinate-wise difference, saturating.
    pub open spec fn minus(self, other: Point) -> Point {
        Point { x: clamp_i32(self.x - other.x), y: clamp_i32(self.y - other.y) }
    }

    pub open spec fn is_zero(self) -> bool {
        self.x == 0 && self.y == 0
    }

    pub fn new(x: i32, y: i32) -> (p: Point)
        ensures
            p == (Point { x, y }),
    {
        Point { x, y }
    }

    pub fn zero() -> (p: Point)
        ensures
            p == Point::origin(),
    {
        Point { x: 0, y: 0 }
    }

    pub fn add_sat(self, other: Point) -> (p: Point)
        ensures
            p == self.plus(other),
    {
        Point {
            x: saturate(self.x as i64 + other.x as i64),
            y: saturate(self.y as i64 + other.y as i64),
        }
    }

    pub fn sub_sat(self, other: Point) -> (p: Point)
        ensures
            p == self.minus(other),
    {
        Point {
            x: saturate(self.x as i64 - other.x as i64),
            y: saturate(self.y as i64 - other.y as i64),
        }
    }

    pub fn is_origin(self) -> (b: bool)
        ensures
            b == self.is_zero(),
    {
        self.x == 0 && self.y == 0
    }
}

/// An axis-aligned rectangle: origin at the top-left corner, `x` growing to
/// the right and `y` downwards.
#[derive(Debug, Clone, Copy, PartialEq, Eq, Structural)]
pub struct Rectangle {
    pub x: i32,
    pub y: i32,
    pub width: i32,
    pub height: i32,
}

impl Rectangle {
    /// A rectangle that a layer may have: both sides positive.
    pub open spec fn positive(self) -> bool {
        self.width >= 1 && self.height >= 1
    }

    pub open spec fn right(self) -> int {
        self.x + self.width
    }

    pub open spec fn bottom(self) -> int {
        self.y + self.height
    }

    /// Whether the point lies in the rectangle. The left and top edges are
    /// part of it, the right and bottom edges are not.
    pub open spec fn holds(self, p: Point) -> bool {
        &&& self.x <= p.x
        &&& p.x < self.right()
        &&& self.y <= p.y
        &&& p.y < self.bottom()
    }

    /// The rectangle moved by `delta`, saturating.
    pub open spec fn translated(self, delta: Point) -> Rectangle {
        Rectangle {
            x: clamp_i32(self.x + delta.x),
            y: clamp_i32(self.y + delta.y),
            width: self.width,
            height: self.height,
        }
    }

    pub fn new(x: i32, y: i32, width: i32, height: i32) -> (r: Rectangle)
        ensures
            r == (Rectangle { x, y, width, height }),
    {
        Rectangle { x, y, width, height }
    }

    pub fn contains(&self, p: Point) -> (b: bool)
        ensures
            b == self.holds(p),
    {
        self.x <= p.x && (p.x as i64) < self.x as i64 + self.width as i64 && self.y <= p.y && (
        p.y as i64) < self.y as i64 + self.height as i64
    }

    pub fn translate(&self, delta: Point) -> (r: Rectangle)
        ensures
            r == self.translated(delta),
    {
        Rectangle {
            x: saturate(self.x as i64 + delta.x as i64),
            y: saturate(self.y as i64 + delta.y as i64),
            width: self.width,
            height: self.height,
        }
    }
}

/// One of the two axes of the canvas.
#[derive(Debug, Clone, Copy, PartialEq, Eq, Structural)]
pub enum Axis {
    Horizontal,
    Vertical,
}

impl Rectangle {
    /// Where the rectangle begins along `axis`: its left or its top edge.
    pub open spec fn start(self, axis: Axis) -> int {
        match axis {
            Axis::Horizontal => self.x as int,
            Axis::Vertical => self.y as int,
        }
    }

    /// How far the rectangle extends along `axis`: its width or its height.
    pub open spec fn len(self, axis: Axis) -> int {
        match axis {
            Axis::Horizontal => self.width as int,
            Axis::Vertical => self.height as int,
        }
    }

    /// Where the rectangle ends along `axis`: its right or its bottom edge.
    pub open spec fn end(self, axis: Axis) -> int {
        self.start(axis) + self.len(axis)
    }

    /// Twice the coordinate of the rectangle's centre along `axis`.
    pub open spec fn center2(self, axis: Axis) -> int {
        2 * self.start(axis) + self.len(axis)
    }

    pub fn axis_start(&self, axis: Axis) -> (r: i32)
        ensures
            r == self.start(axis),
    {
        match axis {
            Axis::Horizontal => self.x,
            Axis::Vertical => self.y,
        }
    }

    pub fn axis_len(&self, axis: Axis) -> (r: i32)
        ensures
            r == self.len(axis),
    {
        match axis {
            Axis::Horizontal => self.width,
            Axis::Vertical => self.height,
        }
    }

    pub fn axis_end(&self, axis: Axis) -> (r: i64)
        ensures
            r == self.end(axis),
            -0x1_0000_0000 <= r <= 0x1_0000_0000,
    {
        self.axis_start(axis) as i64 + self.axis_len(axis) as i64
    }

    pub fn axis_center2(&self, axis: Axis) -> (r: i64)
        ensures
            r == self.center2(axis),
            -0x2_0000_0000 <= r <= 0x2_0000_0000,
    {
        2 * (self.axis_start(axis) as i64) + self.axis_len(axis) as i64
    }
}

impl Point {
    /// The coordinate of the point along `axis`.
    pub open spec fn along(self, axis: Axis) -> int {
        match axis {
            Axis::Horizontal => self.x as int,
            Axis::Vertical => self.y as int,
        }
    }

    pub fn axis_value(&self, axis: Axis) -> (r: i32)
        ensures
            r == self.along(axis),
    {
        match axis {
            Axis::Horizontal => self.x,
            Axis::Vertical => self.y,
        }
    }
}

/// Which part of a rectangle stays fixed along one axis while it is resized.
/// `Start` fixes the left or top edge, so that the opposite edge follows the
/// pointer; `End` fixes the right or bottom edge; `Center` fixes the middle,
/// and the pointer does not drive this axis.
#[derive(Debug, Clone, Copy, PartialEq, Eq, Structural)]
pub enum Anchor {
    Start,
    Center,
    End,
}

impl Anchor {
    /// Whether an edge, rather than the middle, is fixed.
    pub open spec fn on_edge(self) -> bool {
        self != Anchor::Center
    }

    /// The change in length that a pointer displacement `d` asks for.
    pub open spec fn growth(self, d: int) -> int {
        match self {
            Anchor::Start => d,
            Anchor::Center => 0,
            Anchor::End => -d,
        }
    }

    /// How far the origin moves back when the length grows by `grow`.
    pub open spec fn shift(self, grow: int) -> int {
        match self {
            Anchor::Start => 0,
            Anchor::Center => grow / 2,
            Anchor::End => grow,
        }
    }

    pub fn is_edge(self) -> (b: bool)
        ensures
            b == self.on_edge(),
    {
        match self {
            Anchor::Center => false,
            _ => true,
        }
    }
}

/// The anchor of a resize on both axes.
#[derive(Debug, Clone, Copy, PartialEq, Eq, Structural)]
pub struct Pivot {
    pub x: Anchor,
    pub y: Anchor,
}

impl Pivot {
    pub open spec fn along(self, axis: Axis) -> Anchor {
        match axis {
            Axis::Horizontal => self.x,
            Axis::Vertical => self.y,
        }
    }

    /// Both axes are anchored at an edge: the pointer holds a corner.
    pub open spec fn is_corner(self) -> bool {
        self.x.on_edge() && self.y.on_edge()
    }

    pub fn new(x: Anchor, y: Anchor) -> (p: Pivot)
        ensures
            p == (Pivot { x, y }),
    {
        Pivot { x, y }
    }

    pub fn axis_anchor(&self, axis: Axis) -> (a: Anchor)
        ensures
            a == self.along(axis),
    {
        match axis {
            Axis::Horizontal => self.x,
            Axis::Vertical => self.y,
        }
    }
}

/// The alignment guide that is active along one axis: none, one that runs
/// along a left or top edge (`Start`), one through a centre (`Center`), or
/// one that runs along a right or bottom edge (`End`). The function that
/// reports a guide says which edges it means.
#[derive(Debug, Clone, Copy, PartialEq, Eq, Structural)]
pub enum Guide {
    Off,
    Start,
    Center,
    End,
}

impl Guide {
    pub open spec fn active(self) -> bool {
        self != Guide::Off
    }

    pub fn is_active(self) -> (b: bool)
        ensures
            b == self.active(),
    {
        match self {
            Guide::Off => false,
            _ => true,
        }
    }
}

/// The guides on both axes. `x` and `y` name the guide that is active. The
/// guide line itself passes through a part of the layer that was moved or
/// resized, which `x_part` and `y_part` name: its left or top edge
/// (`Start`), its centre, or its right or bottom edge (`End`). The two differ
/// where a right or bottom edge of the layer lies on a left or top edge of
/// another one.
#[derive(Debug, Clone, Copy, PartialEq, Eq, Structural)]
pub struct SnapPoint {
    pub x: Guide,
    pub y: Guide,
    pub x_part: Guide,
    pub y_part: Guide,
}

impl SnapPoint {
    /// No guide on either axis.
    pub open spec fn none() -> SnapPoint {
        SnapPoint { x: Guide::Off, y: Guide::Off, x_part: Guide::Off, y_part: Guide::Off }
    }

    /// The guides `x` and `y`, each through the part of the layer that it is
    /// named after.
    pub open spec fn through(x: Guide, y: Guide) -> SnapPoint {
        SnapPoint { x, y, x_part: x, y_part: y }
    }

    /// Whether a guide holds the layer on at least one axis.
    pub open spec fn engaged(self) -> bool {
        self.x.active() || self.y.active()
    }

    /// The guide that is active along `axis`.
    pub open spec fn along(self, axis: Axis) -> Guide {
        match axis {
            Axis::Horizontal => self.x,
            Axis::Vertical => self.y,
        }
    }

    /// The part of the layer that the guide line along `axis` passes
    /// through.
    pub open spec fn part(self, axis: Axis) -> Guide {
        match axis {
            Axis::Horizontal => self.x_part,
            Axis::Vertical => self.y_part,
        }
    }

    pub fn off() -> (s: SnapPoint)
        ensures
            s == SnapPoint::none(),
    {
        SnapPoint { x: Guide::Off, y: Guide::Off, x_part: Guide::Off, y_part: Guide::Off }
    }

    pub fn of(x: Guide, y: Guide) -> (s: SnapPoint)
        ensures
            s == SnapPoint::through(x, y),
    {
        SnapPoint { x, y, x_part: x, y_part: y }
    }

    pub fn is_engaged(&self) -> (b: bool)
        ensures
            b == self.engaged(),
    {
        self.x.is_active() || self.y.is_active()
    }

    pub fn axis_part(&self, axis: Axis) -> (g: Guide)
        ensures
            g == self.part(axis),
    {
        match axis {
            Axis::Horizontal => self.x_part,
            Axis::Vertical => self.y_part,
        }
    }
}

/// The coordinate of a driven edge together with the guide that put it
/// there.
pub struct Snapped {
    pub pos: int,
    pub guide: Guide,
}

/// Where a moved rectangle begins along one axis, the guide that put it
/// there, and the part of the rectangle that lies on the guide line.
pub struct Held {
    pub pos: int,
    pub guide: Guide,
    pub part: Guide,
}

/// What a snapping move or resize hands back: the new rectangle, the part
/// of the requested displacement that was not applied, and the guides that
/// are active.
#[derive(Debug, Clone, Copy, PartialEq, Eq, Structural)]
pub struct Snap {
    pub rect: Rectangle,
    pub ignored: Point,
    pub snap_point: SnapPoint,
}

} // verus!

//! Resizing a rectangle about a pivot, with and without snapping.
//!
//! A resize is worked out one axis at a time. Along each axis the pivot names
//! the part of the rectangle that stays fixed. An axis anchored at an edge is
//! driven by the pointer: the opposite edge follows it. When the aspect ratio
//! is kept, one axis leads and the length of the other is derived from it.
//!
//! A snapping resize lets each driven edge snap onto the matching edge of the
//! board and onto the edges and the centre line of every other layer that are
//! closer than `RESIZE_SNAP_DISTANCE`. Anchored edges never move.

use vstd::prelude::*;
use crate::geometry::{
    clamp_i32, closer_than, distance, half_floor, saturate, Anchor, Axis, Guide, Pivot, Point,
    Rectangle, Snap, SnapPoint, Snapped, MIN_SIZE, RESIZE_SNAP_DISTANCE,
};

verus! {

/// The other axis.
pub open spec fn across(axis: Axis) -> Axis {
    match axis {
        Axis::Horizontal => Axis::Vertical,
        Axis::Vertical => Axis::Horizontal,
    }
}

/// The axis that leads a resize, if the aspect ratio is kept. A pivot on the
/// edge of a single axis makes that axis lead. A pivot on a corner makes the
/// axis lead along which the pointer moved further, the vertical one on a
/// tie. A pivot in the middle of both axes drives neither, and the vertical
/// axis leads by convention.
pub open spec fn leading_axis(delta: Point, pivot: Pivot, preserve_aspect: bool) -> Option<Axis> {
    if !preserve_aspect {
        None
    } else if pivot.is_corner() {
        if distance(delta.x as int, 0) > distance(delta.y as int, 0) {
            Some(Axis::Horizontal)
        } else {
            Some(Axis::Vertical)
        }
    } else if pivot.x.on_edge() {
        Some(Axis::Horizontal)
    } else {
        Some(Axis::Vertical)
    }
}

/// Whether the length along `axis` is derived from the other axis.
pub open spec fn follows(delta: Point, pivot: Pivot, preserve_aspect: bool, axis: Axis) -> bool {
    leading_axis(delta, pivot, preserve_aspect) == Some(across(axis))
}

/// `n` scaled by the ratio `num / den`, rounded down.
pub open spec fn scaled(n: int, num: int, den: int) -> int {
    (n * num) / den
}

/// The length along `axis` that the pointer asks for by itself.
pub open spec fn driven_len(rect: Rectangle, delta: Point, pivot: Pivot, axis: Axis) -> int {
    rect.len(axis) + pivot.along(axis).growth(delta.along(axis))
}

/// The length along `axis` that the resize asks for, before the minimum is
/// applied: the driven length, or on a following axis the driven length of
/// the leading axis scaled by the rectangle's aspect ratio.
pub open spec fn wanted_len(
    rect: Rectangle,
    delta: Point,
    pivot: Pivot,
    preserve_aspect: bool,
    axis: Axis,
) -> int {
    if follows(delta, pivot, preserve_aspect, axis) {
        scaled(
            driven_len(rect, delta, pivot, across(axis)),
            rect.len(axis),
            rect.len(across(axis)),
        )
    } else {
        driven_len(rect, delta, pivot, axis)
    }
}

/// The length nearest to `v` that a resized rectangle may have: never less
/// than `MIN_SIZE`, never more than a coordinate can hold.
pub open spec fn fit_len(v: int) -> int {
    if v < MIN_SIZE {
        MIN_SIZE as int
    } else if v > i32::MAX {
        i32::MAX as int
    } else {
        v
    }
}

/// The length along `axis` after the resize: the wanted length, but never
/// less than `MIN_SIZE`.
pub open spec fn resized_len(
    rect: Rectangle,
    delta: Point,
    pivot: Pivot,
    preserve_aspect: bool,
    axis: Axis,
) -> int {
    fit_len(wanted_len(rect, delta, pivot, preserve_aspect, axis))
}

/// Where the rectangle begins along `axis` once its length has become `len`:
/// moved back so that the anchored part stays where it was.
pub open spec fn anchored_start(rect: Rectangle, pivot: Pivot, axis: Axis, len: int) -> int {
    rect.start(axis) - pivot.along(axis).shift(len - rect.len(axis))
}

/// The rectangle after an unconstrained resize.
#[verifier::opaque]
pub open spec fn resized(
    rect: Rectangle,
    delta: Point,
    pivot: Pivot,
    preserve_aspect: bool,
) -> Rectangle {
    let w = resized_len(rect, delta, pivot, preserve_aspect, Axis::Horizontal);
    let h = resized_len(rect, delta, pivot, preserve_aspect, Axis::Vertical);
    Rectangle {
        x: clamp_i32(anchored_start(rect, pivot, Axis::Horizontal, w)),
        y: clamp_i32(anchored_start(rect, pivot, Axis::Vertical, h)),
        width: w as i32,
        height: h as i32,
    }
}

/// A product of a non-positive and a positive number, divided by a positive
/// number and rounded down, is not positive.
pub proof fn lemma_scaled_nonpositive(n: int, num: int, den: int)
    by (nonlinear_arith)
    requires
        n <= 0,
        num >= 1,
        den >= 1,
    ensures
        scaled(n, num, den) <= 0,
{
}

/// Bounds of a scaled positive length.
pub proof fn lemma_scaled_bounds(n: int, num: int, den: int)
    by (nonlinear_arith)
    requires
        0 <= n <= 0x100_0000_0000,
        1 <= num <= 0x7fff_ffff,
        den >= 1,
    ensures
        0 <= n * num <= 0x100_0000_0000 * 0x7fff_ffff,
        0 <= scaled(n, num, den) <= n * num,
{
}

/// Scaling rounds down by less than one unit of the derived length.
pub proof fn lemma_scaled_ratio(n: int, num: int, den: int)
    by (nonlinear_arith)
    requires
        den >= 1,
    ensures
        0 <= n * num - scaled(n, num, den) * den < den,
{
}

pub fn other_axis(axis: Axis) -> (r: Axis)
    ensures
        r == across(axis),
{
    match axis {
        Axis::Horizontal => Axis::Vertical,
        Axis::Vertical => Axis::Horizontal,
    }
}

fn magnitude(v: i32) -> (r: i64)
    ensures
        r == distance(v as int, 0),
{
    if v >= 0 {
        v as i64
    } else {
        -(v as i64)
    }
}

/// Computes the axis that leads the resize, if any.
pub fn lead_of(delta: Point, pivot: Pivot, preserve_aspect: bool) -> (r: Option<Axis>)
    ensures
        r == leading_axis(delta, pivot, preserve_aspect),
{
    if !preserve_aspect {
        None
    } else if pivot.x.is_edge() && pivot.y.is_edge() {
        if magnitude(delta.x) > magnitude(delta.y) {
            Some(Axis::Horizontal)
        } else {
            Some(Axis::Vertical)
        }
    } else if pivot.x.is_edge() {
        Some(Axis::Horizontal)
    } else {
        Some(Axis::Vertical)
    }
}

fn is_follower(lead: Option<Axis>, axis: Axis) -> (r: bool)
    ensures
        r == (lead == Some(across(axis))),
{
    match lead {
        None => false,
        Some(l) => l == other_axis(axis),
    }
}

fn growth_of(anchor: Anchor, d: i32) -> (r: i64)
    ensures
        r == anchor.growth(d as int),
{
    match anchor {
        Anchor::Start => d as i64,
        Anchor::Center => 0,
        Anchor::End => -(d as i64),
    }
}

fn shift_of(anchor: Anchor, grow: i64) -> (r: i64)
    requires
        grow > i64::MIN,
    ensures
        r == anchor.shift(grow as int),
{
    match anchor {
        Anchor::Start => 0,
        Anchor::Center => half_floor(grow),
        Anchor::End => grow,
    }
}

fn fit(v: i128) -> (r: i32)
    ensures
        r == fit_len(v as int),
{
    if v < MIN_SIZE as i128 {
        MIN_SIZE
    } else if v > i32::MAX as i128 {
        i32::MAX
    } else {
        v as i32
    }
}

fn driven(rect: &Rectangle, delta: Point, pivot: Pivot, axis: Axis) -> (r: i64)
    ensures
        r == driven_len(*rect, delta, pivot, axis),
{
    rect.axis_len(axis) as i64 + growth_of(pivot.axis_anchor(axis), delta.axis_value(axis))
}

/// The fitted length of a following axis, from the length `n` of the leading
/// axis and the rectangle's lengths `num` along the following and `den` along
/// the leading axis.
fn follow_len(n: i64, num: i32, den: i32) -> (r: i32)
    requires
        -0x100_0000_0000 <= n <= 0x100_0000_0000,
        num >= 1,
        den >= 1,
    ensures
        r == fit_len(scaled(n as int, num as int, den as int)),
{
    if n <= 0 {
        proof {
            lemma_scaled_nonpositive(n as int, num as int, den as int);
        }
        MIN_SIZE
    } else {
        proof {
            lemma_scaled_bounds(n as int, num as int, den as int);
        }
        fit((n as i128 * (num as i128)) / (den as i128))
    }
}

/// Computes the length along `axis` after an unconstrained resize.
pub fn resize_len(
    rect: &Rectangle,
    delta: Point,
    pivot: Pivot,
    preserve_aspect: bool,
    axis: Axis,
) -> (r: i32)
    requires
        rect.positive(),
    ensures
        r == resized_len(*rect, delta, pivot, preserve_aspect, axis),
        r >= MIN_SIZE,
{
    let lead = lead_of(delta, pivot, preserve_aspect);
    if is_follower(lead, axis) {
        let other = other_axis(axis);
        follow_len(driven(rect, delta, pivot, other), rect.axis_len(axis), rect.axis_len(other))
    } else {
        fit(driven(rect, delta, pivot, axis) as i128)
    }
}

fn start_for(rect: &Rectangle, pivot: Pivot, axis: Axis, len: i64) -> (r: i64)
    requires
        -0x2_0000_0000 <= len <= 0x2_0000_0000,
    ensures
        r == anchored_start(*rect, pivot, axis, len as int),
        -0x4_0000_0000 <= r <= 0x4_0000_0000,
{
    rect.axis_start(axis) as i64 - shift_of(
        pivot.axis_anchor(axis),
        len - rect.axis_len(axis) as i64,
    )
}

/// Resizes `rect` about `pivot` by the pointer displacement `delta`. Each
/// driven edge follows the pointer; with `preserve_aspect` the following
/// axis keeps the ratio of the sides. Neither side ends up shorter than
/// `MIN_SIZE`, and the anchored part stays where it was.
pub fn resize(rect: &Rectangle, delta: Point, pivot: Pivot, preserve_aspect: bool) -> (r:
    Rectangle)
    requires
        rect.positive(),
    ensures
        r == resized(*rect, delta, pivot, preserve_aspect),
        r.width >= MIN_SIZE,
        r.height >= MIN_SIZE,
{
    proof {
        reveal(resized);
    }
    let w = resize_len(rect, delta, pivot, preserve_aspect, Axis::Horizontal);
    let h = resize_len(rect, delta, pivot, preserve_aspect, Axis::Vertical);
    Rectangle {
        x: saturate(start_for(rect, pivot, Axis::Horizontal, w as i64)),
        y: saturate(start_for(rect, pivot, Axis::Vertical, h as i64)),
        width: w,
        height: h,
    }
}

/// Whether the driven edge may stand at `target`: the rectangle between it
/// and the fixed edge at `fixed` must be at least `MIN_SIZE` long. `far` says
/// that the driven edge is the right or bottom one.
pub open spec fn edge_admits(far: bool, fixed: int, target: int) -> bool {
    if far {
        target - fixed >= MIN_SIZE
    } else {
        fixed - target >= MIN_SIZE
    }
}

/// The guide that a snapped edge reports: the one named after the driven
/// edge itself, `End` for a right or bottom edge and `Start` for a left or
/// top edge, whatever it lies on.
pub open spec fn edge_guide(far: bool) -> Guide {
    if far {
        Guide::End
    } else {
        Guide::Start
    }
}

/// Whether a driven edge at `pos` snaps onto `target`.
pub open spec fn edge_takes(far: bool, fixed: int, pos: int, target: int) -> bool {
    distance(pos, target) < RESIZE_SNAP_DISTANCE && edge_admits(far, fixed, target)
}

/// The driven edge after the test against the board: a left or top edge is
/// held against the board's left or top edge, a right or bottom edge against
/// the board's right or bottom edge.
pub open spec fn edge_on_board(
    far: bool,
    fixed: int,
    pos: int,
    board: Rectangle,
    axis: Axis,
) -> Snapped {
    let target = if far {
        board.end(axis)
    } else {
        board.start(axis)
    };
    if edge_takes(far, fixed, pos, target) {
        Snapped { pos: target, guide: edge_guide(far) }
    } else {
        Snapped { pos, guide: Guide::Off }
    }
}

/// Whether a driven edge at `pos` snaps onto the centre line of a layer
/// whose doubled centre is `center2`. The line runs through the whole unit at
/// or just below the centre.
pub open spec fn edge_takes_center(far: bool, fixed: int, pos: int, center2: int) -> bool {
    distance(2 * pos, center2) < 2 * RESIZE_SNAP_DISTANCE && edge_admits(far, fixed, center2 / 2)
}

/// The driven edge after the tests against one other layer. Its centre line
/// and both of its edges are tried from where the driven edge stood before.
/// If several are near, an edge wins over the centre line, and the edge of
/// the same side over the opposite one.
pub open spec fn edge_on_sibling(
    far: bool,
    fixed: int,
    cur: Snapped,
    other: Rectangle,
    axis: Axis,
) -> Snapped {
    let same = if far {
        other.end(axis)
    } else {
        other.start(axis)
    };
    let opposite = if far {
        other.start(axis)
    } else {
        other.end(axis)
    };
    if edge_takes(far, fixed, cur.pos, same) {
        Snapped { pos: same, guide: edge_guide(far) }
    } else if edge_takes(far, fixed, cur.pos, opposite) {
        Snapped { pos: opposite, guide: edge_guide(far) }
    } else if edge_takes_center(far, fixed, cur.pos, other.center2(axis)) {
        Snapped { pos: other.center2(axis) / 2, guide: edge_guide(far) }
    } else {
        cur
    }
}

/// The driven edge after the tests against the first `n` of the other
/// layers, taken in order, each from where the one before left the edge.
pub open spec fn edge_on_siblings(
    far: bool,
    fixed: int,
    init: Snapped,
    others: Seq<Rectangle>,
    axis: Axis,
    n: nat,
) -> Snapped
    decreases n,
{
    if n == 0 {
        init
    } else {
        edge_on_sibling(
            far,
            fixed,
            edge_on_siblings(far, fixed, init, others, axis, (n - 1) as nat),
            others[n - 1],
            axis,
        )
    }
}

/// Where the driven edge ends up, and the guide that holds it: the board is
/// tried first, then every other layer.
pub open spec fn edge_snapped(
    far: bool,
    fixed: int,
    pos: int,
    others: Seq<Rectangle>,
    board: Rectangle,
    axis: Axis,
) -> Snapped {
    edge_on_siblings(
        far,
        fixed,
        edge_on_board(far, fixed, pos, board, axis),
        others,
        axis,
        others.len(),
    )
}

fn guide_for(far: bool) -> (g: Guide)
    ensures
        g == edge_guide(far),
{
    if far {
        Guide::End
    } else {
        Guide::Start
    }
}

fn takes(far: bool, fixed: i64, pos: i64, target: i64) -> (r: bool)
    requires
        -0x10_0000_0000 <= fixed <= 0x10_0000_0000,
        -0x10_0000_0000 <= pos <= 0x10_0000_0000,
        -0x10_0000_0000 <= target <= 0x10_0000_0000,
    ensures
        r == edge_takes(far, fixed as int, pos as int, target as int),
{
    let admitted = if far {
        target - fixed >= MIN_SIZE as i64
    } else {
        fixed - target >= MIN_SIZE as i64
    };
    closer_than(pos, target, RESIZE_SNAP_DISTANCE) && admitted
}

fn takes_center(far: bool, fixed: i64, pos: i64, center2: i64) -> (r: bool)
    requires
        -0x10_0000_0000 <= fixed <= 0x10_0000_0000,
        -0x10_0000_0000 <= pos <= 0x10_0000_0000,
        -0x10_0000_0000 <= center2 <= 0x10_0000_0000,
    ensures
        r == edge_takes_center(far, fixed as int, pos as int, center2 as int),
{
    let target = half_floor(center2);
    let admitted = if far {
        target - fixed >= MIN_SIZE as i64
    } else {
        fixed - target >= MIN_SIZE as i64
    };
    closer_than(2 * pos, center2, 2 * RESIZE_SNAP_DISTANCE) && admitted
}

/// Searches the guides for a driven edge that stands at `pos`.
fn snap_edge(
    far: bool,
    fixed: i64,
    pos: i64,
    others: &Vec<Rectangle>,
    board: &Rectangle,
    axis: Axis,
) -> (r: (i64, Guide))
    requires
        -0x10_0000_0000 <= fixed <= 0x10_0000_0000,
        -0x10_0000_0000 <= pos <= 0x10_0000_0000,
        edge_admits(far, fixed as int, pos as int),
    ensures
        r.0 == edge_snapped(far, fixed as int, pos as int, others@, *board, axis).pos,
        r.1 == edge_snapped(far, fixed as int, pos as int, others@, *board, axis).guide,
        -0x10_0000_0000 <= r.0 <= 0x10_0000_0000,
        edge_admits(far, fixed as int, r.0 as int),
        !r.1.active() ==> r.0 == pos,
{
    let board_target: i64 = if far {
        board.axis_end(axis)
    } else {
        board.axis_start(axis) as i64
    };
    let mut cur: i64 = pos;
    let mut guide = Guide::Off;
    if takes(far, fixed, pos, board_target) {
        cur = board_target;
        guide = guide_for(far);
    }
    let ghost init = edge_on_board(far, fixed as int, pos as int, *board, axis);
    let mut i: usize = 0;
    while i < others.len()
        invariant
            i <= others.len(),
            -0x10_0000_0000 <= fixed <= 0x10_0000_0000,
            -0x10_0000_0000 <= cur <= 0x10_0000_0000,
            edge_admits(far, fixed as int, cur as int),
            !guide.active() ==> cur == pos,
            edge_on_siblings(far, fixed as int, init, others@, axis, i as nat) == (Snapped {
                pos: cur as int,
                guide,
            }),
        decreases others.len() - i,
    {
        let other = &others[i];
        let same: i64 = if far {
            other.axis_end(axis)
        } else {
            other.axis_start(axis) as i64
        };
        let opposite: i64 = if far {
            other.axis_start(axis) as i64
        } else {
            other.axis_end(axis)
        };
        let center2 = other.axis_center2(axis);
        if takes(far, fixed, cur, same) {
            cur = same;
            guide = guide_for(far);
        } else if takes(far, fixed, cur, opposite) {
            cur = opposite;
            guide = guide_for(far);
        } else if takes_center(far, fixed, cur, center2) {
            cur = half_floor(center2);
            guide = guide_for(far);
        }
        i += 1;
    }
    (cur, guide)
}

/// What a snapping resize does along one axis.
pub struct AxisOutcome {
    /// Where the rectangle begins.
    pub start: int,
    /// How long it is.
    pub len: int,
    /// The part of the pointer's displacement that the driven edge did not
    /// follow.
    pub ignored: int,
    /// The guide that holds the driven edge.
    pub guide: Guide,
}

/// The outcome along an axis whose length is not derived from the other
/// axis. Anchored at an edge, the opposite edge goes where the unconstrained
/// resize puts it and is then searched a guide; the anchored edge stays. The
/// motion ignored is the pointer's displacement less the displacement of the
/// driven edge. Anchored at the centre, the axis has no driven edge: nothing
/// snaps and nothing is ignored.
pub open spec fn lead_outcome(
    rect: Rectangle,
    delta: Point,
    pivot: Pivot,
    others: Seq<Rectangle>,
    board: Rectangle,
    axis: Axis,
) -> AxisOutcome {
    let s = rect.start(axis);
    let l = rect.len(axis);
    let d = delta.along(axis);
    let g = fit_len(driven_len(rect, delta, pivot, axis));
    match pivot.along(axis) {
        Anchor::Center => AxisOutcome {
            start: anchored_start(rect, pivot, axis, g),
            len: g,
            ignored: 0,
            guide: Guide::Off,
        },
        Anchor::Start => {
            let e = edge_snapped(true, s, s + g, others, board, axis);
            AxisOutcome { start: s, len: e.pos - s, ignored: d - (e.pos - (s + l)), guide: e.guide }
        },
        Anchor::End => {
            let e = edge_snapped(false, s + l, s + l - g, others, board, axis);
            AxisOutcome {
                start: e.pos,
                len: s + l - e.pos,
                ignored: d - (e.pos - s),
                guide: e.guide,
            }
        },
    }
}

/// The outcome along an axis that follows the other one to keep the aspect
/// ratio. Its length is derived from the leading axis: from the snapped
/// length if a guide holds the leading edge, else from the length that the
/// pointer asked for. It is searched no guide of its own and ignores
/// nothing.
pub open spec fn follow_outcome(
    rect: Rectangle,
    delta: Point,
    pivot: Pivot,
    others: Seq<Rectangle>,
    board: Rectangle,
    axis: Axis,
) -> AxisOutcome {
    let lead = lead_outcome(rect, delta, pivot, others, board, across(axis));
    let basis = if lead.guide.active() {
        lead.len
    } else {
        driven_len(rect, delta, pivot, across(axis))
    };
    let len = fit_len(scaled(basis, rect.len(axis), rect.len(across(axis))));
    AxisOutcome {
        start: anchored_start(rect, pivot, axis, len),
        len,
        ignored: 0,
        guide: Guide::Off,
    }
}

/// The outcome of a snapping resize along `axis`.
pub open spec fn axis_outcome(
    rect: Rectangle,
    delta: Point,
    pivot: Pivot,
    preserve_aspect: bool,
    others: Seq<Rectangle>,
    board: Rectangle,
    axis: Axis,
) -> AxisOutcome {
    if follows(delta, pivot, preserve_aspect, axis) {
        follow_outcome(rect, delta, pivot, others, board, axis)
    } else {
        lead_outcome(rect, delta, pivot, others, board, axis)
    }
}

/// The result of a snapping resize of `rect` among the rectangles `others`
/// on the board `board`.
#[verifier::opaque]
pub open spec fn snap_resized(
    rect: Rectangle,
    delta: Point,
    pivot: Pivot,
    preserve_aspect: bool,
    others: Seq<Rectangle>,
    board: Rectangle,
) -> Snap {
    let h = axis_outcome(rect, delta, pivot, preserve_aspect, others, board, Axis::Horizontal);
    let v = axis_outcome(rect, delta, pivot, preserve_aspect, others, board, Axis::Vertical);
    Snap {
        rect: Rectangle {
            x: clamp_i32(h.start),
            y: clamp_i32(v.start),
            width: clamp_i32(h.len),
            height: clamp_i32(v.len),
        },
        ignored: Point { x: clamp_i32(h.ignored), y: clamp_i32(v.ignored) },
        snap_point: SnapPoint::through(h.guide, v.guide),
    }
}

struct AxisResult {
    start: i64,
    len: i64,
    ignored: i64,
    guide: Guide,
}

impl AxisResult {
    spec fn outcome(self) -> AxisOutcome {
        AxisOutcome {
            start: self.start as int,
            len: self.len as int,
            ignored: self.ignored as int,
            guide: self.guide,
        }
    }

    spec fn bounded(self) -> bool {
        &&& -0x20_0000_0000 <= self.start <= 0x20_0000_0000
        &&& MIN_SIZE <= self.len <= 0x20_0000_0000
        &&& -0x40_0000_0000 <= self.ignored <= 0x40_0000_0000
    }
}

fn lead_axis(
    rect: &Rectangle,
    delta: Point,
    pivot: Pivot,
    others: &Vec<Rectangle>,
    board: &Rectangle,
    axis: Axis,
) -> (r: AxisResult)
    requires
        rect.positive(),
    ensures
        r.outcome() == lead_outcome(*rect, delta, pivot, others@, *board, axis),
        r.bounded(),
        !r.guide.active() ==> r.len == fit_len(driven_len(*rect, delta, pivot, axis)),
{
    let s = rect.axis_start(axis) as i64;
    let l = rect.axis_len(axis) as i64;
    let d = delta.axis_value(axis) as i64;
    let g = fit(driven(rect, delta, pivot, axis) as i128) as i64;
    match pivot.axis_anchor(axis) {
        Anchor::Center => AxisResult {
            start: start_for(rect, pivot, axis, g),
            len: g,
            ignored: 0,
            guide: Guide::Off,
        },
        Anchor::Start => {
            let (e, guide) = snap_edge(true, s, s + g, others, board, axis);
            AxisResult { start: s, len: e - s, ignored: d - (e - (s + l)), guide }
        },
        Anchor::End => {
            let (e, guide) = snap_edge(false, s + l, s + l - g, others, board, axis);
            AxisResult { start: e, len: s + l - e, ignored: d - (e - s), guide }
        },
    }
}

fn follow_axis(
    rect: &Rectangle,
    delta: Point,
    pivot: Pivot,
    others: &Vec<Rectangle>,
    board: &Rectangle,
    axis: Axis,
) -> (r: AxisResult)
    requires
        rect.positive(),
    ensures
        r.outcome() == follow_outcome(*rect, delta, pivot, others@, *board, axis),
        r.bounded(),
{
    let other = other_axis(axis);
    let lead = lead_axis(rect, delta, pivot, others, board, other);
    let basis = if lead.guide.is_active() {
        lead.len
    } else {
        driven(rect, delta, pivot, other)
    };
    let len = follow_len(basis, rect.axis_len(axis), rect.axis_len(other)) as i64;
    AxisResult { start: start_for(rect, pivot, axis, len), len, ignored: 0, guide: Guide::Off }
}

fn resize_axis(
    rect: &Rectangle,
    delta: Point,
    pivot: Pivot,
    preserve_aspect: bool,
    others: &Vec<Rectangle>,
    board: &Rectangle,
    axis: Axis,
) -> (r: AxisResult)
    requires
        rect.positive(),
    ensures
        r.outcome() == axis_outcome(*rect, delta, pivot, preserve_aspect, others@, *board, axis),
        r.bounded(),
{
    if is_follower(lead_of(delta, pivot, preserve_aspect), axis) {
        follow_axis(rect, delta, pivot, others, board, axis)
    } else {
        lead_axis(rect, delta, pivot, others, board, axis)
    }
}

/// Resizes `rect` as `resize` does, and then lets each driven edge snap onto
/// the matching edge of the board, or onto an edge or the centre line of one
/// of `others`, that is closer than `RESIZE_SNAP_DISTANCE`. Hands back the
/// new rectangle, the motion that the snap or the minimum size withheld, and
/// the active guides.
pub fn resize_with_snap(
    rect: &Rectangle,
    delta: Point,
    pivot: Pivot,
    preserve_aspect: bool,
    others: &Vec<Rectangle>,
    board: &Rectangle,
) -> (out: Snap)
    requires
        rect.positive(),
    ensures
        out == snap_resized(*rect, delta, pivot, preserve_aspect, others@, *board),
        out.rect.width >= MIN_SIZE,
        out.rect.height >= MIN_SIZE,
{
    proof {
        reveal(snap_resized);
    }
    let h = resize_axis(rect, delta, pivot, preserve_aspect, others, board, Axis::Horizontal);
    let v = resize_axis(rect, delta, pivot, preserve_aspect, others, board, Axis::Vertical);
    Snap {
        rect: Rectangle {
            x: saturate(h.start),
            y: saturate(v.start),
            width: saturate(h.len),
            height: saturate(v.len),
        },
        ignored: Point { x: saturate(h.ignored), y: saturate(v.ignored) },
        snap_point: SnapPoint::of(h.guide, v.guide),
    }
}

/// No resize makes a side shorter than `MIN_SIZE`, and a resize that asks
/// for less than `MIN_SIZE` along an axis gives exactly `MIN_SIZE` there.
pub proof fn lemma_resize_floor(
    rect: Rectangle,
    delta: Point,
    pivot: Pivot,
    preserve_aspect: bool,
    axis: Axis,
)
    ensures
        resized(rect, delta, pivot, preserve_aspect).len(axis) >= MIN_SIZE,
        wanted_len(rect, delta, pivot, preserve_aspect, axis) < MIN_SIZE ==> resized(
            rect,
            delta,
            pivot,
            preserve_aspect,
        ).len(axis) == MIN_SIZE,
{
    reveal(resized);
}

/// A snapped edge never stands where the rectangle would be shorter than
/// `MIN_SIZE`, provided that it did not before the search.
pub proof fn lemma_edge_stays_admitted(
    far: bool,
    fixed: int,
    init: Snapped,
    others: Seq<Rectangle>,
    axis: Axis,
    n: nat,
)
    requires
        edge_admits(far, fixed, init.pos),
    ensures
        edge_admits(far, fixed, edge_on_siblings(far, fixed, init, others, axis, n).pos),
    decreases n,
{
    if n > 0 {
        lemma_edge_stays_admitted(far, fixed, init, others, axis, (n - 1) as nat);
    }
}

/// An edge that no guide holds stands where the search found it.
pub proof fn lemma_edge_unheld(
    far: bool,
    fixed: int,
    init: Snapped,
    others: Seq<Rectangle>,
    axis: Axis,
    n: nat,
)
    requires
        !init.guide.active() || init.guide == edge_guide(far),
    ensures
        ({
            let end = edge_on_siblings(far, fixed, init, others, axis, n);
            &&& !end.guide.active() || end.guide == edge_guide(far)
            &&& !end.guide.active() ==> end == init
        }),
    decreases n,
{
    if n > 0 {
        lemma_edge_unheld(far, fixed, init, others, axis, (n - 1) as nat);
    }
}

/// No snapping resize makes a side shorter than `MIN_SIZE`: along every
/// axis the outcome is at least that long.
pub proof fn lemma_axis_outcome_floor(
    rect: Rectangle,
    delta: Point,
    pivot: Pivot,
    preserve_aspect: bool,
    others: Seq<Rectangle>,
    board: Rectangle,
    axis: Axis,
)
    requires
        rect.positive(),
    ensures
        axis_outcome(rect, delta, pivot, preserve_aspect, others, board, axis).len >= MIN_SIZE,
{
    let s = rect.start(axis);
    let l = rect.len(axis);
    let g = fit_len(driven_len(rect, delta, pivot, axis));
    lemma_edge_stays_admitted(
        true,
        s,
        edge_on_board(true, s, s + g, board, axis),
        others,
        axis,
        others.len(),
    );
    lemma_edge_stays_admitted(
        false,
        s + l,
        edge_on_board(false, s + l, s + l - g, board, axis),
        others,
        axis,
        others.len(),
    );
}

/// No snapping resize makes a side shorter than `MIN_SIZE`.
pub proof fn lemma_snap_resize_floor(
    rect: Rectangle,
    delta: Point,
    pivot: Pivot,
    preserve_aspect: bool,
    others: Seq<Rectangle>,
    board: Rectangle,
)
    requires
        rect.positive(),
    ensures
        snap_resized(rect, delta, pivot, preserve_aspect, others, board).rect.width >= MIN_SIZE,
        snap_resized(rect, delta, pivot, preserve_aspect, others, board).rect.height >= MIN_SIZE,
{
    reveal(snap_resized);
    lemma_axis_outcome_floor(rect, delta, pivot, preserve_aspect, others, board, Axis::Horizontal);
    lemma_axis_outcome_floor(rect, delta, pivot, preserve_aspect, others, board, Axis::Vertical);
}

/// A snapping resize that ends with no guide active did what the
/// unconstrained resize does.
pub proof fn lemma_snap_resize_free(
    rect: Rectangle,
    delta: Point,
    pivot: Pivot,
    preserve_aspect: bool,
    others: Seq<Rectangle>,
    board: Rectangle,
)
    requires
        rect.positive(),
        !snap_resized(rect, delta, pivot, preserve_aspect, others, board).snap_point.engaged(),
    ensures
        snap_resized(rect, delta, pivot, preserve_aspect, others, board).rect == resized(
            rect,
            delta,
            pivot,
            preserve_aspect,
        ),
{
    reveal(snap_resized);
    reveal(resized);
    lemma_lead_free(rect, delta, pivot, others, board, Axis::Horizontal);
    lemma_lead_free(rect, delta, pivot, others, board, Axis::Vertical);
}

/// Along an axis that leads or is free, an outcome that no guide holds is
/// that of the unconstrained resize.
pub proof fn lemma_lead_free(
    rect: Rectangle,
    delta: Point,
    pivot: Pivot,
    others: Seq<Rectangle>,
    board: Rectangle,
    axis: Axis,
)
    ensures
        ({
            let out = lead_outcome(rect, delta, pivot, others, board, axis);
            let g = fit_len(driven_len(rect, delta, pivot, axis));
            !out.guide.active() ==> out.len == g && out.start == anchored_start(
                rect,
                pivot,
                axis,
                g,
            )
        }),
{
    let s = rect.start(axis);
    let l = rect.len(axis);
    let g = fit_len(driven_len(rect, delta, pivot, axis));
    lemma_edge_unheld(
        true,
        s,
        edge_on_board(true, s, s + g, board, axis),
        others,
        axis,
        others.len(),
    );
    lemma_edge_unheld(
        false,
        s + l,
        edge_on_board(false, s + l, s + l - g, board, axis),
        others,
        axis,
        others.len(),
    );
}

/// A resize that keeps the aspect ratio leaves the sides in the ratio that
/// they had, up to the rounding of the following side: that side is the
/// leading side times the old ratio, rounded down. This holds where neither
/// side is cut off at `MIN_SIZE` or at the largest coordinate.
pub proof fn lemma_aspect_kept(rect: Rectangle, delta: Point, pivot: Pivot)
    requires
        rect.positive(),
        MIN_SIZE <= wanted_len(rect, delta, pivot, true, Axis::Horizontal) <= i32::MAX,
        MIN_SIZE <= wanted_len(rect, delta, pivot, true, Axis::Vertical) <= i32::MAX,
    ensures
        ({
            let out = resized(rect, delta, pivot, true);
            let lead = leading_axis(delta, pivot, true).unwrap();
            let side = across(lead);
            0 <= out.len(lead) * rect.len(side) - out.len(side) * rect.len(lead) < rect.len(lead)
        }),
{
    reveal(resized);
    let lead = leading_axis(delta, pivot, true).unwrap();
    let side = across(lead);
    lemma_scaled_ratio(driven_len(rect, delta, pivot, lead), rect.len(side), rect.len(lead));
}

/// Whether a driven edge at `pos` that a guide holds lies exactly on an
/// edge of the board, or on an edge or the centre line of one of the first
/// `n` of `others`.
pub open spec fn edge_on_guide(
    pos: int,
    guide: Guide,
    others: Seq<Rectangle>,
    board: Rectangle,
    axis: Axis,
    n: nat,
) -> bool {
    guide.active() ==> pos == board.start(axis) || pos == board.end(axis) || exists|i: int|
        0 <= i < n && (pos == (#[trigger] others[i]).start(axis) || pos == others[i].end(axis)
            || pos == others[i].center2(axis) / 2)
}

/// The tests against the first `n` other layers leave the driven edge
/// exactly on the guide reported.
pub proof fn lemma_edge_siblings_exact(
    far: bool,
    fixed: int,
    init: Snapped,
    others: Seq<Rectangle>,
    board: Rectangle,
    axis: Axis,
    n: nat,
)
    requires
        n <= others.len(),
        edge_on_guide(init.pos, init.guide, others, board, axis, 0),
    ensures
        ({
            let end = edge_on_siblings(far, fixed, init, others, axis, n);
            edge_on_guide(end.pos, end.guide, others, board, axis, n)
        }),
    decreases n,
{
    if n > 0 {
        let before = edge_on_siblings(far, fixed, init, others, axis, (n - 1) as nat);
        let end = edge_on_siblings(far, fixed, init, others, axis, n);
        lemma_edge_siblings_exact(far, fixed, init, others, board, axis, (n - 1) as nat);
        if end == before {
            if end.guide.active() && end.pos != board.start(axis) && end.pos != board.end(axis) {
                let i = choose|i: int|
                    0 <= i < n - 1 && (end.pos == (#[trigger] others[i]).start(axis) || end.pos
                        == others[i].end(axis) || end.pos == others[i].center2(axis) / 2);
                assert(0 <= i < n && (end.pos == others[i].start(axis) || end.pos
                    == others[i].end(axis) || end.pos == others[i].center2(axis) / 2));
            }
        } else {
            let other = others[n - 1];
            assert(end.pos == other.start(axis) || end.pos == other.end(axis) || end.pos
                == other.center2(axis) / 2);
        }
    }
}

/// A snapped edge is snapped exactly. The search for a driven edge ends in
/// one of two ways. Either no guide is active, and the edge stands where
/// the pointer put it. Or a guide is active, and the edge lies exactly on an
/// edge of the board, or on an edge or the centre line of another layer.
pub proof fn lemma_edge_is_exact(
    far: bool,
    fixed: int,
    pos: int,
    others: Seq<Rectangle>,
    board: Rectangle,
    axis: Axis,
)
    ensures
        ({
            let end = edge_snapped(far, fixed, pos, others, board, axis);
            &&& edge_on_guide(end.pos, end.guide, others, board, axis, others.len())
            &&& !end.guide.active() ==> end.pos == pos
        }),
{
    let init = edge_on_board(far, fixed, pos, board, axis);
    lemma_edge_siblings_exact(far, fixed, init, others, board, axis, others.len());
    lemma_edge_unheld(far, fixed, init, others, axis, others.len());
}

/// The anchored edge stays. Along an axis that the pivot anchors at its
/// start, a snapping resize leaves the start of the rectangle where it was;
/// along an axis anchored at its end, it leaves the end where it was, as
/// long as the new origin and length are coordinates.
pub proof fn lemma_anchored_edge_stays(
    rect: Rectangle,
    delta: Point,
    pivot: Pivot,
    preserve_aspect: bool,
    others: Seq<Rectangle>,
    board: Rectangle,
    axis: Axis,
)
    requires
        rect.positive(),
    ensures
        ({
            let before = rect;
            let after = snap_resized(rect, delta, pivot, preserve_aspect, others, board).rect;
            let out = axis_outcome(rect, delta, pivot, preserve_aspect, others, board, axis);
            &&& pivot.along(axis) == Anchor::Start ==> after.start(axis) == before.start(axis)
            &&& pivot.along(axis) == Anchor::End && i32::MIN <= out.start <= i32::MAX && out.len
                <= i32::MAX ==> after.end(axis) == before.end(axis)
        }),
{
    reveal(snap_resized);
    lemma_axis_outcome_floor(rect, delta, pivot, preserve_aspect, others, board, axis);
}

} // verus!

//! Moving a rectangle, with and without snapping.
//!
//! A snapping move is worked out one axis at a time. The rectangle is first
//! put where the pointer asks. Then it is tried against the board and against
//! every other layer in turn; each guide that is closer than
//! `MOVE_SNAP_DISTANCE` pulls the rectangle exactly onto it, and the last
//! guide to do so is the one reported.
//!
//! The guide reported is `Start` where a left or top edge is on the line,
//! be it the rectangle's own or that of the layer it meets; it is `End`
//! where two right or bottom edges meet, and `Center` where two centres
//! meet. Beside the guide, the part of the rectangle that lies on the line
//! is reported, so that the line can be drawn.

use vstd::prelude::*;
use crate::geometry::{
    clamp_i32, closer_than, distance, half_floor, saturate, Axis, Guide, Held, Point, Rectangle,
    Snap, SnapPoint, MOVE_SNAP_DISTANCE,
};

verus! {

/// The start of a rectangle of length `len` after the tests against the
/// board: first its start against the board's start, then its end against
/// the board's end.
pub open spec fn slide_on_board(pos: int, len: int, board: Rectangle, axis: Axis) -> Held {
    let first = if distance(pos, board.start(axis)) < MOVE_SNAP_DISTANCE {
        Held { pos: board.start(axis), guide: Guide::Start, part: Guide::Start }
    } else {
        Held { pos, guide: Guide::Off, part: Guide::Off }
    };
    if distance(first.pos + len, board.end(axis)) < MOVE_SNAP_DISTANCE {
        Held { pos: board.end(axis) - len, guide: Guide::End, part: Guide::End }
    } else {
        first
    }
}

/// The start of the rectangle after the centre test against one other
/// layer. `center2` is twice the centre that the rectangle had when the
/// board had been tried.
pub open spec fn slide_on_center(
    len: int,
    center2: int,
    cur: Held,
    other: Rectangle,
    axis: Axis,
) -> Held {
    if distance(center2, other.center2(axis)) < 2 * MOVE_SNAP_DISTANCE {
        Held { pos: (other.center2(axis) - len) / 2, guide: Guide::Center, part: Guide::Center }
    } else {
        cur
    }
}

/// The start of the rectangle after the edge tests against one other layer.
/// The first of these that is near decides: start against the other's end,
/// start against its start, end against its start, end against its end. The
/// guide is `End` only where end meets end. Where the rectangle's end meets
/// the other's start, the guide is `Start` and runs along the rectangle's
/// end.
pub open spec fn slide_on_edges(len: int, cur: Held, other: Rectangle, axis: Axis) -> Held {
    let near = cur.pos;
    let far = cur.pos + len;
    if distance(near, other.end(axis)) < MOVE_SNAP_DISTANCE {
        Held { pos: other.end(axis), guide: Guide::Start, part: Guide::Start }
    } else if distance(near, other.start(axis)) < MOVE_SNAP_DISTANCE {
        Held { pos: other.start(axis), guide: Guide::Start, part: Guide::Start }
    } else if distance(far, other.start(axis)) < MOVE_SNAP_DISTANCE {
        Held { pos: other.start(axis) - len, guide: Guide::Start, part: Guide::End }
    } else if distance(far, other.end(axis)) < MOVE_SNAP_DISTANCE {
        Held { pos: other.end(axis) - len, guide: Guide::End, part: Guide::End }
    } else {
        cur
    }
}

/// The start of the rectangle after all tests against one other layer: the
/// centre first, then the edges.
pub open spec fn slide_on_sibling(
    len: int,
    center2: int,
    cur: Held,
    other: Rectangle,
    axis: Axis,
) -> Held {
    slide_on_edges(len, slide_on_center(len, center2, cur, other, axis), other, axis)
}

/// The start of the rectangle after the tests against the first `n` of the
/// other layers, taken in order.
pub open spec fn slide_on_siblings(
    len: int,
    center2: int,
    init: Held,
    others: Seq<Rectangle>,
    axis: Axis,
    n: nat,
) -> Held
    decreases n,
{
    if n == 0 {
        init
    } else {
        slide_on_sibling(
            len,
            center2,
            slide_on_siblings(len, center2, init, others, axis, (n - 1) as nat),
            others[n - 1],
            axis,
        )
    }
}

/// Where a rectangle of length `len` that the pointer put at `pos` ends up
/// along `axis`, the guide that holds it there, and the part of it that
/// lies on the guide line.
pub open spec fn slid(
    pos: int,
    len: int,
    others: Seq<Rectangle>,
    board: Rectangle,
    axis: Axis,
) -> Held {
    let init = slide_on_board(pos, len, board, axis);
    slide_on_siblings(len, 2 * init.pos + len, init, others, axis, others.len())
}

/// The result of a snapping move of `rect` by `delta` among the rectangles
/// `others` on the board `board`. The motion ignored is the displacement
/// asked for less the displacement made.
pub open spec fn snap_moved(
    rect: Rectangle,
    delta: Point,
    others: Seq<Rectangle>,
    board: Rectangle,
) -> Snap {
    let h = slid(rect.x + delta.x, rect.width as int, others, board, Axis::Horizontal);
    let v = slid(rect.y + delta.y, rect.height as int, others, board, Axis::Vertical);
    let x = clamp_i32(h.pos);
    let y = clamp_i32(v.pos);
    Snap {
        rect: Rectangle { x, y, width: rect.width, height: rect.height },
        ignored: Point {
            x: clamp_i32(delta.x - (x - rect.x)),
            y: clamp_i32(delta.y - (y - rect.y)),
        },
        snap_point: SnapPoint { x: h.guide, y: v.guide, x_part: h.part, y_part: v.part },
    }
}

/// Moves `rect` by `delta`, whatever is around it.
pub fn move_rect(rect: &Rectangle, delta: Point) -> (r: Rectangle)
    ensures
        r == rect.translated(delta),
{
    rect.translate(delta)
}

/// Searches the guides for a rectangle of length `len` that the pointer put
/// at `pos` along `axis`.
fn slide(pos: i64, len: i32, others: &Vec<Rectangle>, board: &Rectangle, axis: Axis) -> (r: (
    i64,
    Guide,
    Guide,
))
    requires
        -0x1_0000_0000 <= pos <= 0x1_0000_0000,
    ensures
        slid(pos as int, len as int, others@, *board, axis) == (Held {
            pos: r.0 as int,
            guide: r.1,
            part: r.2,
        }),
        -0x4_0000_0000 <= r.0 <= 0x4_0000_0000,
{
    let len = len as i64;
    let mut cur: i64 = pos;
    let mut guide = Guide::Off;
    let mut part = Guide::Off;
    if closer_than(cur, board.axis_start(axis) as i64, MOVE_SNAP_DISTANCE) {
        cur = board.axis_start(axis) as i64;
        guide = Guide::Start;
        part = Guide::Start;
    }
    if closer_than(cur + len, board.axis_end(axis), MOVE_SNAP_DISTANCE) {
        cur = board.axis_end(axis) - len;
        guide = Guide::End;
        part = Guide::End;
    }
    let ghost init = slide_on_board(pos as int, len as int, *board, axis);
    let center2: i64 = 2 * cur + len;
    let mut i: usize = 0;
    while i < others.len()
        invariant
            i <= others.len(),
            -0x8000_0000 <= len <= 0x7fff_ffff,
            -0x4_0000_0000 <= cur <= 0x4_0000_0000,
            -0x8_0000_0000 <= center2 <= 0x8_0000_0000,
            slide_on_siblings(len as int, center2 as int, init, others@, axis, i as nat) == (
            Held { pos: cur as int, guide, part }),
        decreases others.len() - i,
    {
        let other = &others[i];
        let other_start = other.axis_start(axis) as i64;
        let other_end = other.axis_end(axis);
        let other_center2 = other.axis_center2(axis);
        if closer_than(center2, other_center2, 2 * MOVE_SNAP_DISTANCE) {
            cur = half_floor(other_center2 - len);
            guide = Guide::Center;
            part = Guide::Center;
        }
        if closer_than(cur, other_end, MOVE_SNAP_DISTANCE) {
            cur = other_end;
            guide = Guide::Start;
            part = Guide::Start;
        } else if closer_than(cur, other_start, MOVE_SNAP_DISTANCE) {
            cur = other_start;
            guide = Guide::Start;
            part = Guide::Start;
        } else if closer_than(cur + len, other_start, MOVE_SNAP_DISTANCE) {
            cur = other_start - len;
            guide = Guide::Start;
            part = Guide::End;
        } else if closer_than(cur + len, other_end, MOVE_SNAP_DISTANCE) {
            cur = other_end - len;
            guide = Guide::End;
            part = Guide::End;
        }
        i += 1;
    }
    (cur, guide, part)
}

/// Moves `rect` by `delta` and lets it snap onto the edges of the board and
/// onto the edges and centres of `others`. Hands back the new rectangle, the
/// motion that the snap withheld, and the active guides.
pub fn move_with_snap(
    rect: &Rectangle,
    delta: Point,
    others: &Vec<Rectangle>,
    board: &Rectangle,
) -> (out: Snap)
    ensures
        out == snap_moved(*rect, delta, others@, *board),
        out.rect.width == rect.width,
        out.rect.height == rect.height,
{
    let (h, guide_x, part_x) = slide(
        rect.x as i64 + delta.x as i64,
        rect.width,
        others,
        board,
        Axis::Horizontal,
    );
    let (v, guide_y, part_y) = slide(
        rect.y as i64 + delta.y as i64,
        rect.height,
        others,
        board,
        Axis::Vertical,
    );
    let x = saturate(h);
    let y = saturate(v);
    Snap {
        rect: Rectangle { x, y, width: rect.width, height: rect.height },
        ignored: Point {
            x: saturate(delta.x as i64 - (x as i64 - rect.x as i64)),
            y: saturate(delta.y as i64 - (y as i64 - rect.y as i64)),
        },
        snap_point: SnapPoint { x: guide_x, y: guide_y, x_part: part_x, y_part: part_y },
    }
}

/// Whether a rectangle of length `len` at `pos` lies exactly on a guide line
/// with the part of it that `part` names: with its start or its end on an
/// edge of the board or of one of the first `n` of `others`, or with its
/// centre on the centre of one of them (as near as whole units allow).
pub open spec fn on_guide(
    pos: int,
    len: int,
    part: Guide,
    others: Seq<Rectangle>,
    board: Rectangle,
    axis: Axis,
    n: nat,
) -> bool {
    match part {
        Guide::Off => true,
        Guide::Start => pos == board.start(axis) || exists|i: int|
            0 <= i < n && (pos == (#[trigger] others[i]).start(axis) || pos == others[i].end(axis)),
        Guide::End => pos + len == board.end(axis) || exists|i: int|
            0 <= i < n && (pos + len == (#[trigger] others[i]).start(axis) || pos + len
                == others[i].end(axis)),
        Guide::Center => exists|i: int|
            0 <= i < n && pos == ((#[trigger] others[i]).center2(axis) - len) / 2,
    }
}

/// What the tests against the first `n` other layers leave: a position
/// exactly on the guide line reported, or the position the tests began with
/// if they report none. A guide is reported exactly if a part is.
pub proof fn lemma_siblings_exact(
    len: int,
    center2: int,
    init: Held,
    others: Seq<Rectangle>,
    board: Rectangle,
    axis: Axis,
    n: nat,
)
    requires
        n <= others.len(),
        on_guide(init.pos, len, init.part, others, board, axis, 0),
        init.guide.active() <==> init.part.active(),
    ensures
        ({
            let end = slide_on_siblings(len, center2, init, others, axis, n);
            &&& on_guide(end.pos, len, end.part, others, board, axis, n)
            &&& end.guide.active() <==> end.part.active()
            &&& !end.guide.active() ==> end == init
        }),
    decreases n,
{
    if n > 0 {
        let before = slide_on_siblings(len, center2, init, others, axis, (n - 1) as nat);
        let end = slide_on_siblings(len, center2, init, others, axis, n);
        lemma_siblings_exact(len, center2, init, others, board, axis, (n - 1) as nat);
        let other = others[n - 1];
        if end == before {
            match end.part {
                Guide::Off => {},
                Guide::Start => {
                    if end.pos != board.start(axis) {
                        let i = choose|i: int|
                            0 <= i < n - 1 && (end.pos == (#[trigger] others[i]).start(axis)
                                || end.pos == others[i].end(axis));
                        assert(0 <= i < n && (end.pos == others[i].start(axis) || end.pos
                            == others[i].end(axis)));
                    }
                },
                Guide::End => {
                    if end.pos + len != board.end(axis) {
                        let i = choose|i: int|
                            0 <= i < n - 1 && (end.pos + len == (#[trigger] others[i]).start(axis)
                                || end.pos + len == others[i].end(axis));
                        assert(0 <= i < n && (end.pos + len == others[i].start(axis) || end.pos
                            + len == others[i].end(axis)));
                    }
                },
                Guide::Center => {
                    let i = choose|i: int|
                        0 <= i < n - 1 && end.pos == ((#[trigger] others[i]).center2(axis) - len)
                            / 2;
                    assert(0 <= i < n && end.pos == (others[i].center2(axis) - len) / 2);
                },
            }
        } else {
            assert(other == others[n - 1]);
        }
    }
}

/// Snap clamps exactly. Along either axis a snapping move ends in one of
/// two ways. Either no guide is active, and the rectangle stands where the
/// pointer asked: nothing was withheld. Or a guide is active, and the
/// rectangle lies exactly on it, not merely near it: its start or end on an
/// edge of the board or of another layer, or its centre on another layer's
/// centre.
pub proof fn lemma_snap_is_exact(
    pos: int,
    len: int,
    others: Seq<Rectangle>,
    board: Rectangle,
    axis: Axis,
)
    ensures
        ({
            let end = slid(pos, len, others, board, axis);
            &&& on_guide(end.pos, len, end.part, others, board, axis, others.len())
            &&& end.guide.active() <==> end.part.active()
            &&& !end.guide.active() ==> end.pos == pos
        }),
{
    let init = slide_on_board(pos, len, board, axis);
    lemma_siblings_exact(len, 2 * init.pos + len, init, others, board, axis, others.len());
}

/// A snapping move never changes the size of the rectangle, and with no
/// guide active and the target within the range of coordinates it is the
/// plain move: nothing is withheld.
pub proof fn lemma_free_move_is_plain(
    rect: Rectangle,
    delta: Point,
    others: Seq<Rectangle>,
    board: Rectangle,
)
    requires
        !snap_moved(rect, delta, others, board).snap_point.engaged(),
    ensures
        snap_moved(rect, delta, others, board).rect == rect.translated(delta),
        i32::MIN <= rect.x + delta.x <= i32::MAX ==> snap_moved(
            rect,
            delta,
            others,
            board,
        ).ignored.x == 0,
        i32::MIN <= rect.y + delta.y <= i32::MAX ==> snap_moved(
            rect,
            delta,
            others,
            board,
        ).ignored.y == 0,
{
    lemma_snap_is_exact(rect.x + delta.x, rect.width as int, others, board, Axis::Horizontal);
    lemma_snap_is_exact(rect.y + delta.y, rect.height as int, others, board, Axis::Vertical);
}

/// A layer whose left edge the pointer puts closer than
/// `MOVE_SNAP_DISTANCE` to the right edge of the only other layer, which
/// itself lies against the right edge of the board, ends with its left edge
/// exactly on that right edge, and the guide is `Start`. This holds where no
/// earlier test can get in the way: the layer and the board are at least
/// five units wide, so that the board does not hold the layer, and the two
/// layers together at least ten, so that their centres are apart.
pub proof fn lemma_left_edge_meets_sibling(
    rect: Rectangle,
    delta: Point,
    sibling: Rectangle,
    board: Rectangle,
)
    requires
        sibling.right() == board.right(),
        sibling.right() <= i32::MAX,
        distance(rect.x + delta.x, sibling.right()) < MOVE_SNAP_DISTANCE,
        rect.width >= 5,
        board.width >= 5,
        rect.width + sibling.width >= 10,
    ensures
        snap_moved(rect, delta, seq![sibling], board).rect.x == sibling.right(),
        snap_moved(rect, delta, seq![sibling], board).snap_point.x == Guide::Start,
        snap_moved(rect, delta, seq![sibling], board).snap_point.x_part == Guide::Start,
        snap_moved(rect, delta, seq![sibling], board).ignored.x == delta.x - (sibling.right()
            - rect.x),
{
    let others = seq![sibling];
    let pos = rect.x + delta.x;
    let len = rect.width as int;
    let init = slide_on_board(pos, len, board, Axis::Horizontal);
    assert(init == Held { pos, guide: Guide::Off, part: Guide::Off });
    assert(others.len() == 1);
    assert(others[0] == sibling);
    reveal_with_fuel(slide_on_siblings, 2);
    let end = slide_on_siblings(len, 2 * pos + len, init, others, Axis::Horizontal, 1);
    assert(end == slide_on_sibling(len, 2 * pos + len, init, sibling, Axis::Horizontal));
    assert(sibling.end(Axis::Horizontal) == sibling.right());
    assert(end.pos == sibling.right());
}

/// A layer whose right edge the pointer puts closer than
/// `MOVE_SNAP_DISTANCE` to the left edge of the only other layer ends with
/// its right edge exactly on that left edge. The guide is `Start`, and its
/// line runs along the right edge of the layer. This holds where no earlier
/// test can get in the way: the board's edges are not near, the layer is at
/// least five units wide, so that its left edge is not near either, and the
/// two layers together are at least ten wide, so that their centres are
/// apart.
pub proof fn lemma_right_edge_meets_sibling(
    rect: Rectangle,
    delta: Point,
    sibling: Rectangle,
    board: Rectangle,
)
    requires
        distance(rect.x + delta.x + rect.width, sibling.x as int) < MOVE_SNAP_DISTANCE,
        distance(rect.x + delta.x, board.x as int) >= MOVE_SNAP_DISTANCE,
        distance(rect.x + delta.x + rect.width, board.right()) >= MOVE_SNAP_DISTANCE,
        rect.width >= 5,
        rect.width + sibling.width >= 10,
        i32::MIN <= sibling.x - rect.width,
    ensures
        snap_moved(rect, delta, seq![sibling], board).rect.x + rect.width == sibling.x,
        snap_moved(rect, delta, seq![sibling], board).snap_point.x == Guide::Start,
        snap_moved(rect, delta, seq![sibling], board).snap_point.x_part == Guide::End,
        snap_moved(rect, delta, seq![sibling], board).ignored.x == delta.x - (sibling.x
            - rect.width - rect.x),
{
    let others = seq![sibling];
    let pos = rect.x + delta.x;
    let len = rect.width as int;
    let init = slide_on_board(pos, len, board, Axis::Horizontal);
    assert(board.end(Axis::Horizontal) == board.right());
    assert(init == Held { pos, guide: Guide::Off, part: Guide::Off });
    assert(others.len() == 1);
    assert(others[0] == sibling);
    reveal_with_fuel(slide_on_siblings, 2);
    let end = slide_on_siblings(len, 2 * pos + len, init, others, Axis::Horizontal, 1);
    assert(end == slide_on_sibling(len, 2 * pos + len, init, sibling, Axis::Horizontal));
    assert(end.pos == sibling.x - len);
}

} // verus!

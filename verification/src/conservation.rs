//! No pointer motion is lost.
//!
//! While a layer is dragged with snapping, every unit of motion that the
//! pointer asks for is either applied to the layer or kept in the bank. So
//! the layer's position plus the bank grows by exactly the displacement of
//! each move, and a release with no guide active leaves the layer displaced
//! by the sum of all the displacements asked for.
//!
//! Coordinates saturate, so these statements hold wherever nothing
//! saturates: wherever every sum that a move forms is a coordinate.

use vstd::prelude::*;
use crate::geometry::{Axis, Point};
use crate::maker_canvas::CanvasState;
use crate::moving::slid;

verus! {

/// Whether `v` is a coordinate, so that a result equal to it does not
/// saturate.
pub open spec fn fits(v: int) -> bool {
    i32::MIN <= v <= i32::MAX
}

impl CanvasState {
    /// The displacement that a snapping move by `delta` asks of the layer
    /// along `axis`, before any saturation: `delta`, and with it the bank if
    /// that has grown past the threshold.
    pub open spec fn asked(self, delta: Point, axis: Axis) -> int {
        if self.bank_over() {
            delta.along(axis) + self.bank.along(axis)
        } else {
            delta.along(axis)
        }
    }

    /// Where the snap search puts the selected layer along `axis` in a
    /// snapping move by `delta`, before any saturation.
    pub open spec fn sought(self, delta: Point, axis: Axis) -> int {
        slid(
            self.selected_rect().start(axis) + self.asked(delta, axis),
            self.selected_rect().len(axis),
            self.others(self.selected.unwrap()),
            self.board(),
            axis,
        ).pos
    }

    /// The motion that the snap search withholds along `axis` in a snapping
    /// move by `delta`, before any saturation.
    pub open spec fn withheld(self, delta: Point, axis: Axis) -> int {
        self.asked(delta, axis) - (self.sought(delta, axis) - self.selected_rect().start(axis))
    }

    /// Whether a snapping move of the selected layer by `delta` saturates
    /// nowhere along `axis`: the displacement asked for, the position that
    /// the snap search gives and the motion withheld are coordinates; and so
    /// is the position with the bank applied if the layer ends `free` of
    /// guides, or else the bank with the motion withheld added.
    pub open spec fn move_fits_along(self, delta: Point, axis: Axis, free: bool) -> bool {
        &&& fits(self.asked(delta, axis))
        &&& fits(self.sought(delta, axis))
        &&& fits(self.withheld(delta, axis))
        &&& if free {
            fits(self.sought(delta, axis) + self.kept_bank().along(axis))
        } else {
            fits(self.kept_bank().along(axis) + self.withheld(delta, axis))
        }
    }

    /// Whether a snapping move of the selected layer by `delta` saturates
    /// nowhere.
    pub open spec fn move_fits(self, delta: Point) -> bool {
        let free = !self.moved(delta, true).snap_point.engaged();
        &&& self.move_fits_along(delta, Axis::Horizontal, free)
        &&& self.move_fits_along(delta, Axis::Vertical, free)
    }

    /// The canvas after a gesture of snapping moves by `deltas`, one after
    /// the other.
    pub open spec fn dragged(self, deltas: Seq<Point>) -> CanvasState
        decreases deltas.len(),
    {
        if deltas.len() == 0 {
            self
        } else {
            self.dragged(deltas.drop_last()).moved(deltas.last(), true)
        }
    }

    /// Whether none of the snapping moves of the gesture saturates.
    pub open spec fn drag_fits(self, deltas: Seq<Point>) -> bool
        decreases deltas.len(),
    {
        if deltas.len() == 0 {
            true
        } else {
            &&& self.drag_fits(deltas.drop_last())
            &&& self.dragged(deltas.drop_last()).move_fits(deltas.last())
        }
    }

    /// Whether applying the bank to the selected layer does not saturate.
    pub open spec fn bank_fits(self) -> bool {
        !self.bank.is_zero() ==> fits(self.selected_rect().x + self.bank.x) && fits(
            self.selected_rect().y + self.bank.y,
        )
    }
}

/// The sum of the displacements along `axis`.
pub open spec fn total(deltas: Seq<Point>, axis: Axis) -> int
    decreases deltas.len(),
{
    if deltas.len() == 0 {
        0
    } else {
        total(deltas.drop_last(), axis) + deltas.last().along(axis)
    }
}

/// One snapping move loses no motion: the position of the selected layer
/// plus the bank grows by exactly the displacement asked for. The move
/// keeps the selection, the number of layers and the size of the layer.
pub proof fn lemma_move_conserves(canvas: CanvasState, delta: Point)
    requires
        canvas.wf(),
        canvas.selected is Some,
        canvas.move_fits(delta),
    ensures
        ({
            let next = canvas.moved(delta, true);
            &&& next.wf()
            &&& next.selected == canvas.selected
            &&& next.layers.len() == canvas.layers.len()
            &&& next.selected_rect().width == canvas.selected_rect().width
            &&& next.selected_rect().height == canvas.selected_rect().height
            &&& next.selected_rect().x + next.bank.x == canvas.selected_rect().x + canvas.bank.x
                + delta.x
            &&& next.selected_rect().y + next.bank.y == canvas.selected_rect().y + canvas.bank.y
                + delta.y
        }),
{
    let s = canvas.selected.unwrap();
    let free = !canvas.moved(delta, true).snap_point.engaged();
    assert(canvas.move_fits_along(delta, Axis::Horizontal, free));
    assert(canvas.move_fits_along(delta, Axis::Vertical, free));
    assert(canvas.moved(delta, true).layers[s].rect.positive());
}

/// A gesture of snapping moves loses no motion: the position of the
/// selected layer plus the bank grows by exactly the sum of the
/// displacements asked for.
pub proof fn lemma_drag_conserves(canvas: CanvasState, deltas: Seq<Point>)
    requires
        canvas.wf(),
        canvas.selected is Some,
        canvas.drag_fits(deltas),
    ensures
        ({
            let end = canvas.dragged(deltas);
            &&& end.wf()
            &&& end.selected == canvas.selected
            &&& end.layers.len() == canvas.layers.len()
            &&& end.selected_rect().width == canvas.selected_rect().width
            &&& end.selected_rect().height == canvas.selected_rect().height
            &&& end.selected_rect().x + end.bank.x == canvas.selected_rect().x + canvas.bank.x
                + total(deltas, Axis::Horizontal)
            &&& end.selected_rect().y + end.bank.y == canvas.selected_rect().y + canvas.bank.y
                + total(deltas, Axis::Vertical)
        }),
    decreases deltas.len(),
{
    if deltas.len() > 0 {
        lemma_drag_conserves(canvas, deltas.drop_last());
        lemma_move_conserves(canvas.dragged(deltas.drop_last()), deltas.last());
    }
}

/// No lost motion. A gesture begins with `on_start_drag`, goes on with
/// snapping moves by `deltas` and ends with `on_left_button_released`. If no
/// guide is active at the release, the selected layer is displaced by
/// exactly the sum of the displacements asked for, its size is what it was,
/// and the bank is empty. This holds wherever nothing saturates: neither a
/// move of the gesture nor the bank applied at the release.
pub proof fn lemma_no_lost_motion(canvas: CanvasState, deltas: Seq<Point>)
    requires
        canvas.wf(),
        canvas.selected is Some,
        canvas.start_drag().drag_fits(deltas),
        canvas.start_drag().dragged(deltas).bank_fits(),
        !canvas.start_drag().dragged(deltas).snap_point.engaged(),
    ensures
        ({
            let end = canvas.start_drag().dragged(deltas).released();
            &&& end.wf()
            &&& end.selected == canvas.selected
            &&& end.bank.is_zero()
            &&& !end.snap_point.engaged()
            &&& end.selected_rect().x == canvas.selected_rect().x + total(
                deltas,
                Axis::Horizontal,
            )
            &&& end.selected_rect().y == canvas.selected_rect().y + total(deltas, Axis::Vertical)
            &&& end.selected_rect().width == canvas.selected_rect().width
            &&& end.selected_rect().height == canvas.selected_rect().height
        }),
{
    let begun = canvas.start_drag();
    lemma_drag_conserves(begun, deltas);
    let last = begun.dragged(deltas);
    let s = last.selected.unwrap();
    let end = last.released();
    assert(end.layers[s].rect.positive());
}

} // verus!

//! The pointer interaction state machine.
//!
//! It turns button presses, cursor motion and button releases into intents
//! for the canvas controller, and tells which cursor to show. It reads the
//! canvas and never changes it: the host hands each intent to
//! `MakerCanvas::dispatch`.

use vstd::prelude::*;
use crate::geometry::{
    clamp_i32, half_floor, saturate, Anchor, Axis, Guide, Pivot, Point, Rectangle, GRAB_DISTANCE,
};
use crate::layer::Layer;
use crate::maker_canvas::{CanvasState, MakerCanvas};

verus! {

/// What the pointer is doing.
#[derive(Debug, Clone, Copy, PartialEq, Eq, Structural)]
pub enum Interaction {
    /// No button is held.
    Idle,
    /// The selected layer follows the pointer, which was last seen at
    /// `position`.
    Dragging { position: Point },
    /// An edge or corner of the selected layer follows the pointer, which
    /// was last seen at `position`; `pivot` is the part that stays fixed.
    Resizing { position: Point, pivot: Pivot },
}

impl Default for Interaction {
    fn default() -> (state: Self)
        ensures
            state == Interaction::Idle,
    {
        Interaction::Idle
    }
}

/// What the pointer did.
#[derive(Debug, Clone, Copy, PartialEq, Eq, Structural)]
pub enum Event {
    /// The left button went down.
    LeftPressed,
    /// The cursor moved to `position`.
    CursorMoved { position: Point },
    /// The left button went up.
    LeftReleased,
    /// Anything else.
    Other,
}

/// What the controller is asked to do.
#[derive(Debug, Clone, Copy, PartialEq, Eq, Structural)]
pub enum Intent {
    /// A gesture begins.
    StartDrag,
    /// Select the layer at this index.
    SelectLayer(usize),
    DeselectLayers,
    /// Move the selected layer by this displacement; the flag says whether
    /// it may snap.
    MoveSelection(Point, bool),
    /// Resize the selected layer by this displacement about this pivot; the
    /// flag says whether the aspect ratio is kept.
    ResizeSelection(Point, Pivot, bool),
    /// The gesture ends.
    LeftButtonReleased,
}

/// The cursor to show.
#[derive(Debug, Clone, Copy, PartialEq, Eq, Structural)]
pub enum CursorHint {
    Normal,
    Move,
    ResizingHorizontally,
    ResizingVertically,
    ResizingDiagonallyUp,
    ResizingDiagonallyDown,
}

/// Whether the coordinate `c` is closer than `threshold` to `edge`.
pub open spec fn near_edge(c: int, edge: int, threshold: int) -> bool {
    edge - threshold < c < edge + threshold
}

/// The anchor that the pointer picks along one axis of a rectangle that
/// begins at `start` and is `len` long: near the first edge it grabs that
/// edge, so the far one stays fixed; near the far edge the first one stays
/// fixed; elsewhere it grabs nothing.
pub open spec fn grabbed(c: int, start: int, len: int, threshold: int) -> Option<Anchor> {
    if near_edge(c, start, threshold) {
        Some(Anchor::End)
    } else if near_edge(c, start + len, threshold) {
        Some(Anchor::Start)
    } else {
        None
    }
}

/// The anchor that was grabbed, or the centre.
pub open spec fn or_center(a: Option<Anchor>) -> Anchor {
    match a {
        Some(anchor) => anchor,
        None => Anchor::Center,
    }
}

/// The pivot of the resize that begins when the button goes down at
/// `cursor`: there is one as soon as an edge is grabbed along either axis,
/// and an axis along which none is grabbed is anchored at its centre.
pub open spec fn pivot_at(cursor: Point, bounds: Rectangle, threshold: int) -> Option<Pivot> {
    let gx = grabbed(cursor.x as int, bounds.x as int, bounds.width as int, threshold);
    let gy = grabbed(cursor.y as int, bounds.y as int, bounds.height as int, threshold);
    if gx is None && gy is None {
        None
    } else {
        Some(Pivot { x: or_center(gx), y: or_center(gy) })
    }
}

/// The cursor for a pivot: a corner gives a diagonal, which leans by the
/// corner; a single edge gives the horizontal or the vertical one.
pub open spec fn cursor_of_pivot(pivot: Pivot) -> CursorHint {
    if pivot.x.on_edge() && pivot.y.on_edge() {
        if pivot.x == pivot.y {
            CursorHint::ResizingDiagonallyDown
        } else {
            CursorHint::ResizingDiagonallyUp
        }
    } else if pivot.x.on_edge() {
        CursorHint::ResizingHorizontally
    } else if pivot.y.on_edge() {
        CursorHint::ResizingVertically
    } else {
        CursorHint::Normal
    }
}

/// The cursor over a rectangle: that of the pivot if there is one, else the
/// move cursor inside the rectangle and the normal one outside.
pub open spec fn cursor_for(cursor: Point, bounds: Rectangle, pivot: Option<Pivot>) -> CursorHint {
    match pivot {
        Some(p) => cursor_of_pivot(p),
        None => if bounds.holds(cursor) {
            CursorHint::Move
        } else {
            CursorHint::Normal
        },
    }
}

fn is_near(c: i32, edge: i64, threshold: i32) -> (b: bool)
    requires
        -0x1_0000_0000 <= edge <= 0x1_0000_0000,
    ensures
        b == near_edge(c as int, edge as int, threshold as int),
{
    (c as i64) > edge - threshold as i64 && (c as i64) < edge + threshold as i64
}

fn grab(c: i32, start: i32, len: i32, threshold: i32) -> (a: Option<Anchor>)
    ensures
        a == grabbed(c as int, start as int, len as int, threshold as int),
{
    if is_near(c, start as i64, threshold) {
        Some(Anchor::End)
    } else if is_near(c, start as i64 + len as i64, threshold) {
        Some(Anchor::Start)
    } else {
        None
    }
}

fn anchor_or_center(a: Option<Anchor>) -> (r: Anchor)
    ensures
        r == or_center(a),
{
    match a {
        Some(anchor) => anchor,
        None => Anchor::Center,
    }
}

/// Finds the pivot of the resize that a press at `cursor_position` begins
/// on the rectangle `bounds`, if the press grabs an edge of it.
pub fn position_to_pivot(cursor_position: Point, bounds: &Rectangle, threshold: i32) -> (r: Option<
    Pivot,
>)
    ensures
        r == pivot_at(cursor_position, *bounds, threshold as int),
{
    let gx = grab(cursor_position.x, bounds.x, bounds.width, threshold);
    let gy = grab(cursor_position.y, bounds.y, bounds.height, threshold);
    if gx.is_none() && gy.is_none() {
        None
    } else {
        Some(Pivot { x: anchor_or_center(gx), y: anchor_or_center(gy) })
    }
}

/// Picks the cursor to show at `cursor_position` over the rectangle
/// `bounds`, given the pivot that a press there would grab.
pub fn pivot_to_cursor(cursor_position: Point, bounds: &Rectangle, pivot: Option<Pivot>) -> (r:
    CursorHint)
    ensures
        r == cursor_for(cursor_position, *bounds, pivot),
{
    match pivot {
        Some(p) => {
            if p.x.is_edge() && p.y.is_edge() {
                if p.x == p.y {
                    CursorHint::ResizingDiagonallyDown
                } else {
                    CursorHint::ResizingDiagonallyUp
                }
            } else if p.x.is_edge() {
                CursorHint::ResizingHorizontally
            } else if p.y.is_edge() {
                CursorHint::ResizingVertically
            } else {
                CursorHint::Normal
            }
        },
        None => if bounds.contains(cursor_position) {
            CursorHint::Move
        } else {
            CursorHint::Normal
        },
    }
}

/// The state that the machine goes to and what it asks of the controller.
pub struct Step {
    pub state: Interaction,
    pub intent: Option<Intent>,
}

/// The index of the topmost of the first `n` layers that holds the point
/// `p`. Later layers lie on top of earlier ones.
pub open spec fn top_hit(layers: Seq<Layer>, p: Point, n: nat) -> Option<int>
    decreases n,
{
    if n == 0 {
        None
    } else if layers[n - 1].rect.holds(p) {
        Some(n - 1)
    } else {
        top_hit(layers, p, (n - 1) as nat)
    }
}

/// A position on the screen, seen from the corner of the canvas widget that
/// occupies `bounds`.
pub open spec fn local(position: Point, bounds: Rectangle) -> Point {
    position.minus(Point { x: bounds.x, y: bounds.y })
}

/// The pivot that a press at the canvas position `p` grabs on the selected
/// layer.
pub open spec fn grab_at(canvas: CanvasState, p: Point) -> Option<Pivot> {
    match canvas.selected {
        Some(s) => pivot_at(p, canvas.layers[s].rect, GRAB_DISTANCE as int),
        None => None,
    }
}

/// What a press of the left button does. Without a cursor position nothing
/// happens. A press that grabs an edge of the selected layer begins a
/// resize. Otherwise the topmost layer under the cursor decides: the
/// selected one begins a drag, another one is to be selected, and a press on
/// no layer asks to deselect.
pub open spec fn on_press(
    canvas: CanvasState,
    state: Interaction,
    bounds: Rectangle,
    cursor: Option<Point>,
) -> Step {
    match cursor {
        None => Step { state, intent: None },
        Some(position) => {
            let p = local(position, bounds);
            match grab_at(canvas, p) {
                Some(pivot) => Step {
                    state: Interaction::Resizing { position, pivot },
                    intent: Some(Intent::StartDrag),
                },
                None => match top_hit(canvas.layers, p, canvas.layers.len()) {
                    Some(i) => if canvas.selected == Some(i) {
                        Step {
                            state: Interaction::Dragging { position },
                            intent: Some(Intent::StartDrag),
                        }
                    } else {
                        Step { state, intent: Some(Intent::SelectLayer(i as usize)) }
                    },
                    None => Step { state, intent: Some(Intent::DeselectLayers) },
                },
            }
        },
    }
}

/// What a motion of the cursor to `position` does: while dragging or
/// resizing, the displacement since the cursor was last seen is handed on
/// and `position` is remembered. Holding the modifier switches snapping off
/// for a drag and keeps the aspect ratio for a resize.
pub open spec fn on_move(canvas: CanvasState, state: Interaction, position: Point) -> Step {
    match state {
        Interaction::Dragging { position: last } => Step {
            state: Interaction::Dragging { position },
            intent: Some(Intent::MoveSelection(position.minus(last), !canvas.shift_held)),
        },
        Interaction::Resizing { position: last, pivot } => Step {
            state: Interaction::Resizing { position, pivot },
            intent: Some(Intent::ResizeSelection(position.minus(last), pivot, canvas.shift_held)),
        },
        Interaction::Idle => Step { state, intent: None },
    }
}

/// What a release of the left button does: it ends the gesture, if there is
/// one.
pub open spec fn on_release(state: Interaction) -> Step {
    match state {
        Interaction::Idle => Step { state, intent: None },
        _ => Step { state: Interaction::Idle, intent: Some(Intent::LeftButtonReleased) },
    }
}

/// The transition of the interaction state machine.
pub open spec fn step(
    canvas: CanvasState,
    state: Interaction,
    event: Event,
    bounds: Rectangle,
    cursor: Option<Point>,
) -> Step {
    match event {
        Event::LeftPressed => on_press(canvas, state, bounds, cursor),
        Event::CursorMoved { position } => on_move(canvas, state, position),
        Event::LeftReleased => on_release(state),
        Event::Other => Step { state, intent: None },
    }
}

/// The cursor to show. A gesture fixes it: the move cursor while dragging,
/// the cursor of the pivot while resizing. Otherwise it tells what a press
/// would do to the selected layer, and is the normal one if nothing is
/// selected or the cursor is away.
pub open spec fn hint(
    canvas: CanvasState,
    state: Interaction,
    bounds: Rectangle,
    cursor: Option<Point>,
) -> CursorHint {
    match state {
        Interaction::Dragging { .. } => CursorHint::Move,
        Interaction::Resizing { position, pivot } => cursor_for(position, bounds, Some(pivot)),
        Interaction::Idle => match (canvas.selected, cursor) {
            (Some(s), Some(position)) => {
                let p = local(position, bounds);
                cursor_for(p, canvas.layers[s].rect, grab_at(canvas, p))
            },
            _ => CursorHint::Normal,
        },
    }
}

/// Where the guide line of one axis is drawn for a rectangle that begins at
/// `start` and is `len` long: through the part of it that `part` names.
pub open spec fn guide_at(start: int, len: int, part: Guide) -> Option<i32> {
    match part {
        Guide::Off => None,
        Guide::Start => Some(clamp_i32(start)),
        Guide::Center => Some(clamp_i32(start + len / 2)),
        Guide::End => Some(clamp_i32(start + len)),
    }
}

/// The coordinate along `axis` at which an alignment line is to be drawn:
/// there is one while the selected layer is dragged and a guide is active on
/// that axis. It passes through the part of the layer that lies on the
/// guide, which is where the alignment is.
pub open spec fn guide_line(canvas: CanvasState, state: Interaction, axis: Axis) -> Option<i32> {
    match (canvas.selected, state) {
        (Some(s), Interaction::Dragging { .. }) => guide_at(
            canvas.layers[s].rect.start(axis),
            canvas.layers[s].rect.len(axis),
            canvas.snap_point.part(axis),
        ),
        _ => None,
    }
}

/// The canvas after the controller did what `intent` asks.
pub open spec fn applied(canvas: CanvasState, intent: Intent) -> CanvasState {
    match intent {
        Intent::StartDrag => canvas.start_drag(),
        Intent::SelectLayer(index) => canvas.select(index as int),
        Intent::DeselectLayers => canvas.deselect(),
        Intent::MoveSelection(delta, snap) => canvas.moved(delta, snap),
        Intent::ResizeSelection(delta, pivot, preserve_aspect) => canvas.resized(
            delta,
            pivot,
            preserve_aspect,
        ),
        Intent::LeftButtonReleased => canvas.released(),
    }
}

/// What holds of the topmost hit: it is a layer that holds the point, and no
/// layer above it does; without a hit no layer holds the point.
pub proof fn lemma_top_hit(layers: Seq<Layer>, p: Point, n: nat)
    requires
        n <= layers.len(),
    ensures
        match top_hit(layers, p, n) {
            Some(i) => {
                &&& 0 <= i < n
                &&& layers[i].rect.holds(p)
                &&& forall|j: int| i < j < n ==> !(#[trigger] layers[j]).rect.holds(p)
            },
            None => forall|j: int| 0 <= j < n ==> !(#[trigger] layers[j]).rect.holds(p),
        },
    decreases n,
{
    if n > 0 && !layers[n - 1].rect.holds(p) {
        lemma_top_hit(layers, p, (n - 1) as nat);
    }
}

impl MakerCanvas {
    /// Finds the topmost layer under the canvas position `p`.
    pub fn hit_test(&self, p: Point) -> (r: Option<usize>)
        ensures
            match r {
                Some(i) => top_hit(self@.layers, p, self@.layers.len()) == Some(i as int),
                None => top_hit(self@.layers, p, self@.layers.len()) is None,
            },
    {
        let layers = self.layers();
        let mut n: usize = layers.len();
        while n > 0
            invariant
                n <= layers.len(),
                layers@ == self@.layers,
                top_hit(layers@, p, layers.len() as nat) == top_hit(layers@, p, n as nat),
            decreases n,
        {
            if layers[n - 1].rect.contains(p) {
                return Some(n - 1);
            }
            n -= 1;
        }
        None
    }

    fn grab(&self, p: Point) -> (r: Option<Pivot>)
        requires
            self.wf(),
        ensures
            r == grab_at(self@, p),
    {
        match self.selected_index() {
            Some(s) => position_to_pivot(p, &self.layer(s).rect, GRAB_DISTANCE),
            None => None,
        }
    }

    /// Takes one pointer event through the interaction state machine:
    /// `state` goes to its next value, and the intent to hand to the
    /// controller is returned. `bounds` is where the canvas widget lies on
    /// the screen and `cursor` where the cursor is, if it is over the
    /// window.
    pub fn update(
        &self,
        state: &mut Interaction,
        event: &Event,
        bounds: Rectangle,
        cursor: Option<Point>,
    ) -> (intent: Option<Intent>)
        requires
            self.wf(),
        ensures
            *final(state) == step(self@, *old(state), *event, bounds, cursor).state,
            intent == step(self@, *old(state), *event, bounds, cursor).intent,
            intent matches Some(Intent::SelectLayer(index)) ==> index < self@.layers.len(),
    {
        match *event {
            Event::LeftPressed => {
                let Some(position) = cursor else {
                    return None;
                };
                let p = position.sub_sat(Point { x: bounds.x, y: bounds.y });
                if let Some(pivot) = self.grab(p) {
                    *state = Interaction::Resizing { position, pivot };
                    return Some(Intent::StartDrag);
                }
                proof {
                    lemma_top_hit(self@.layers, p, self@.layers.len());
                }
                match self.hit_test(p) {
                    Some(index) => {
                        if self.selected_index() == Some(index) {
                            *state = Interaction::Dragging { position };
                            Some(Intent::StartDrag)
                        } else {
                            Some(Intent::SelectLayer(index))
                        }
                    },
                    None => Some(Intent::DeselectLayers),
                }
            },
            Event::CursorMoved { position } => {
                match *state {
                    Interaction::Dragging { position: last } => {
                        *state = Interaction::Dragging { position };
                        Some(Intent::MoveSelection(position.sub_sat(last), !self.is_shift_held()))
                    },
                    Interaction::Resizing { position: last, pivot } => {
                        *state = Interaction::Resizing { position, pivot };
                        Some(
                            Intent::ResizeSelection(
                                position.sub_sat(last),
                                pivot,
                                self.is_shift_held(),
                            ),
                        )
                    },
                    Interaction::Idle => None,
                }
            },
            Event::LeftReleased => {
                match *state {
                    Interaction::Idle => None,
                    _ => {
                        *state = Interaction::Idle;
                        Some(Intent::LeftButtonReleased)
                    },
                }
            },
            Event::Other => None,
        }
    }

    /// Picks the cursor to show; see `hint`.
    pub fn mouse_interaction(
        &self,
        state: &Interaction,
        bounds: Rectangle,
        cursor: Option<Point>,
    ) -> (r:
        CursorHint)
        requires
            self.wf(),
        ensures
            r == hint(self@, *state, bounds, cursor),
    {
        match *state {
            Interaction::Dragging { position: _ } => CursorHint::Move,
            Interaction::Resizing { position, pivot } => pivot_to_cursor(
                position,
                &bounds,
                Some(pivot),
            ),
            Interaction::Idle => {
                match (self.selected_index(), cursor) {
                    (Some(s), Some(position)) => {
                        let p = position.sub_sat(Point { x: bounds.x, y: bounds.y });
                        let rect = self.layer(s).rect;
                        let pivot = self.grab(p);
                        pivot_to_cursor(p, &rect, pivot)
                    },
                    _ => CursorHint::Normal,
                }
            },
        }
    }

    /// The coordinate along `axis` at which an alignment line is to be
    /// drawn, if any; see `guide_line`.
    pub fn get_active_snap_guide(&self, state: &Interaction, axis: Axis) -> (r: Option<i32>)
        requires
            self.wf(),
        ensures
            r == guide_line(self@, *state, axis),
    {
        match (self.selected_index(), *state) {
            (Some(s), Interaction::Dragging { position: _ }) => {
                let rect = self.layer(s).rect;
                let start = rect.axis_start(axis) as i64;
                let len = rect.axis_len(axis) as i64;
                match self.snap_point().axis_part(axis) {
                    Guide::Off => None,
                    Guide::Start => Some(saturate(start)),
                    Guide::Center => Some(saturate(start + half_floor(len))),
                    Guide::End => Some(saturate(start + len)),
                }
            },
            _ => None,
        }
    }

    /// Does what `intent` asks.
    pub fn dispatch(&mut self, intent: Intent)
        requires
            old(self).wf(),
            intent matches Intent::SelectLayer(index) ==> index < old(self)@.layers.len(),
        ensures
            final(self)@ == applied(old(self)@, intent),
            final(self).wf(),
    {
        match intent {
            Intent::StartDrag => self.on_start_drag(),
            Intent::SelectLayer(index) => self.select_layer(index),
            Intent::DeselectLayers => self.deselect_layers(),
            Intent::MoveSelection(delta, snap) => self.move_selection(delta, snap),
            Intent::ResizeSelection(delta, pivot, preserve_aspect) => self.resize_selection(
                delta,
                pivot,
                preserve_aspect,
            ),
            Intent::LeftButtonReleased => self.on_left_button_released(),
        }
    }
}

} // verus!

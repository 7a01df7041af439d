//! The canvas controller: the ordered layers, the selection, and the snap
//! state of the gesture in progress.
//!
//! Pointer motion is never dropped while a gesture lasts. Whatever a snap
//! withholds goes into the bank, and the bank is applied to the selected
//! layer as soon as no guide holds it. Only the end of a gesture on a guide
//! gives up what the bank still holds.

use vstd::prelude::*;
use crate::geometry::{distance, Pivot, Point, Rectangle, SnapPoint, RELEASE_THRESHOLD};
use crate::id::{Id, IdGenerator};
use crate::layer::Layer;
use crate::moving::snap_moved;
use crate::resizing::{resized, snap_resized};

verus! {

/// What the controller holds, as plain mathematical values.
pub struct CanvasState {
    /// The layers in paint order: later ones are drawn on top.
    pub layers: Seq<Layer>,
    /// The index of the selected layer.
    pub selected: Option<int>,
    pub width: i32,
    pub height: i32,
    /// Whether the modifier that switches snapping off is held.
    pub shift_held: bool,
    /// Pointer motion that was asked for and not applied yet.
    pub bank: Point,
    /// The guides that the last snapping move or resize left active.
    pub snap_point: SnapPoint,
    /// The number of the next identifier to issue.
    pub next_id: nat,
}

impl CanvasState {
    /// What holds of every canvas: each layer has positive sides; the
    /// selection, if any, is the index of a layer; a layer carries the
    /// selection flag exactly if it is the selected one; and the layers
    /// carry identifiers that grow with their position and were all issued
    /// already.
    pub open spec fn wf(self) -> bool {
        &&& forall|i: int| 0 <= i < self.layers.len() ==> (#[trigger] self.layers[i]).wf()
        &&& self.selected matches Some(s) ==> 0 <= s < self.layers.len()
        &&& forall|i: int|
            0 <= i < self.layers.len() ==> ((#[trigger] self.layers[i]).is_selected
                <==> self.selected == Some(i))
        &&& forall|i: int, j: int|
            0 <= i < j < self.layers.len() ==> (#[trigger] self.layers[i]).id@ < (
            #[trigger] self.layers[j]).id@
        &&& forall|i: int|
            0 <= i < self.layers.len() ==> (#[trigger] self.layers[i]).id@ < self.next_id
    }

    /// A canvas without layers on a board of the given size.
    pub open spec fn empty(width: i32, height: i32) -> CanvasState {
        CanvasState {
            layers: Seq::empty(),
            selected: None,
            width,
            height,
            shift_held: false,
            bank: Point::origin(),
            snap_point: SnapPoint::none(),
            next_id: 0,
        }
    }

    /// The board: a rectangle at the origin.
    pub open spec fn board(self) -> Rectangle {
        Rectangle { x: 0, y: 0, width: self.width, height: self.height }
    }

    /// The rectangles of all layers but the one at `skip`, in paint order.
    pub open spec fn others(self, skip: int) -> Seq<Rectangle> {
        Seq::new(
            (self.layers.len() - 1) as nat,
            |k: int|
                if k < skip {
                    self.layers[k].rect
                } else {
                    self.layers[k + 1].rect
                },
        )
    }

    /// The canvas with the layer at `index` given another rectangle.
    pub open spec fn with_rect(self, index: int, rect: Rectangle) -> CanvasState {
        CanvasState {
            layers: self.layers.update(index, self.layers[index].with_rect(rect)),
            ..self
        }
    }

    /// The layers with none of them flagged as selected.
    pub open spec fn unflagged(self) -> Seq<Layer> {
        match self.selected {
            Some(s) => self.layers.update(s, self.layers[s].with_selected(false)),
            None => self.layers,
        }
    }

    /// The canvas after the layer at `index` was selected: the layer that
    /// was selected before is not any more.
    pub open spec fn select(self, index: int) -> CanvasState {
        CanvasState {
            layers: self.unflagged().update(index, self.unflagged()[index].with_selected(true)),
            selected: Some(index),
            ..self
        }
    }

    /// The canvas with nothing selected.
    pub open spec fn deselect(self) -> CanvasState {
        CanvasState { layers: self.unflagged(), selected: None, ..self }
    }

    /// The canvas with `layer` put on top and one more identifier issued.
    pub open spec fn added(self, layer: Layer) -> CanvasState {
        CanvasState { layers: self.layers.push(layer), next_id: self.next_id + 1, ..self }
    }

    /// The canvas without the layer at `index`. The selection stays with the
    /// layer that had it, and is gone if that layer is the one removed.
    pub open spec fn removed_at(self, index: int) -> CanvasState {
        CanvasState {
            layers: self.layers.remove(index),
            selected: match self.selected {
                Some(s) => if s == index {
                    None
                } else if s > index {
                    Some(s - 1)
                } else {
                    Some(s)
                },
                None => None,
            },
            ..self
        }
    }

    /// The rectangle of the selected layer.
    pub open spec fn selected_rect(self) -> Rectangle {
        self.layers[self.selected.unwrap()].rect
    }

    /// The canvas with the selected layer given another rectangle.
    pub open spec fn with_selected_rect(self, rect: Rectangle) -> CanvasState {
        self.with_rect(self.selected.unwrap(), rect)
    }

    /// The canvas at the start of a gesture: the bank is empty.
    pub open spec fn start_drag(self) -> CanvasState {
        CanvasState { bank: Point::origin(), ..self }
    }

    /// The canvas with the bank applied to the selected layer and emptied.
    /// Nothing changes without a selection or with an empty bank.
    pub open spec fn flushed(self) -> CanvasState {
        if self.selected is Some && !self.bank.is_zero() {
            CanvasState {
                bank: Point::origin(),
                ..self.with_selected_rect(self.selected_rect().translated(self.bank))
            }
        } else {
            self
        }
    }

    /// Whether the bank has grown past the threshold at which the layer is
    /// pulled free of its guides.
    pub open spec fn bank_over(self) -> bool {
        distance(self.bank.x as int, 0) > RELEASE_THRESHOLD || distance(self.bank.y as int, 0)
            > RELEASE_THRESHOLD
    }

    /// The displacement handed to the snap search: the one asked for, and
    /// with it the bank if that has grown past the threshold.
    pub open spec fn effective_delta(self, delta: Point) -> Point {
        if self.bank_over() {
            delta.plus(self.bank)
        } else {
            delta
        }
    }

    /// What is left in the bank when the snap search begins.
    pub open spec fn kept_bank(self) -> Point {
        if self.bank_over() {
            Point::origin()
        } else {
            self.bank
        }
    }

    /// The canvas after the pointer moved the selected layer by `delta`.
    ///
    /// Without a selection nothing happens. Without snapping the layer moves
    /// by `delta` and by the bank, which is emptied. With snapping the layer
    /// moves as `snap_moved` says; if no guide holds it afterwards, what was
    /// kept in the bank is applied too; the motion that the snap withheld
    /// goes into the bank, and the guides are recorded.
    pub open spec fn moved(self, delta: Point, snap: bool) -> CanvasState {
        if self.selected is None {
            self
        } else if !snap {
            CanvasState {
                bank: Point::origin(),
                ..self.with_selected_rect(self.selected_rect().translated(delta.plus(self.bank)))
            }
        } else {
            let out = snap_moved(
                self.selected_rect(),
                self.effective_delta(delta),
                self.others(self.selected.unwrap()),
                self.board(),
            );
            if out.snap_point.engaged() {
                CanvasState {
                    bank: self.kept_bank().plus(out.ignored),
                    snap_point: out.snap_point,
                    ..self.with_selected_rect(out.rect)
                }
            } else {
                CanvasState {
                    bank: out.ignored,
                    snap_point: out.snap_point,
                    ..self.with_selected_rect(out.rect.translated(self.kept_bank()))
                }
            }
        }
    }

    /// The canvas after the pointer resized the selected layer.
    ///
    /// Without a selection nothing happens. Otherwise the layer is resized
    /// as `snap_resized` says; if no guide holds it afterwards, it is resized
    /// once more by what was kept in the bank; the motion that was withheld
    /// goes into the bank, and the guides are recorded.
    pub open spec fn resized(
        self,
        delta: Point,
        pivot: Pivot,
        preserve_aspect: bool,
    ) -> CanvasState {
        if self.selected is None {
            self
        } else {
            let out = snap_resized(
                self.selected_rect(),
                self.effective_delta(delta),
                pivot,
                preserve_aspect,
                self.others(self.selected.unwrap()),
                self.board(),
            );
            if out.snap_point.engaged() {
                CanvasState {
                    bank: self.kept_bank().plus(out.ignored),
                    snap_point: out.snap_point,
                    ..self.with_selected_rect(out.rect)
                }
            } else {
                CanvasState {
                    bank: out.ignored,
                    snap_point: out.snap_point,
                    ..self.with_selected_rect(
                        resized(out.rect, self.kept_bank(), pivot, preserve_aspect),
                    )
                }
            }
        }
    }

    /// The canvas after the modifier that switches snapping off was pressed
    /// or let go: the bank is applied at once.
    pub open spec fn with_shift(self, held: bool) -> CanvasState {
        CanvasState { shift_held: held, ..self }.flushed()
    }

    /// The canvas after the button was let go: the gesture is over. With a
    /// layer selected and no guide active, what the bank holds is applied to
    /// the layer first. Then the bank is emptied and the guides are cleared:
    /// motion that a guide withheld to the end is given up, and the layer
    /// stays on the guide.
    pub open spec fn released(self) -> CanvasState {
        let settled = if self.snap_point.engaged() {
            self
        } else {
            self.flushed()
        };
        CanvasState { bank: Point::origin(), snap_point: SnapPoint::none(), ..settled }
    }

    /// Whether a layer carries the identifier `id`.
    pub open spec fn has_id(self, id: Id) -> bool {
        exists|i: int| 0 <= i < self.layers.len() && (#[trigger] self.layers[i]).id == id
    }
}

pub struct MakerCanvas {
    layers: Vec<Layer>,
    id_generator: IdGenerator,
    selected_layer: Option<usize>,
    width: i32,
    height: i32,
    shift_held: bool,
    ignored_delta_bank: Point,
    snap_point: SnapPoint,
}

impl View for MakerCanvas {
    type V = CanvasState;

    closed spec fn view(&self) -> CanvasState {
        CanvasState {
            layers: self.layers@,
            selected: match self.selected_layer {
                Some(s) => Some(s as int),
                None => None,
            },
            width: self.width,
            height: self.height,
            shift_held: self.shift_held,
            bank: self.ignored_delta_bank,
            snap_point: self.snap_point,
            next_id: self.id_generator.next(),
        }
    }
}

impl MakerCanvas {
    /// The invariant of the controller; see `CanvasState::wf`.
    pub open spec fn wf(&self) -> bool {
        self@.wf()
    }

    /// An empty canvas on a board of the given size.
    pub fn new(width: i32, height: i32) -> (canvas: Self)
        ensures
            canvas@ == CanvasState::empty(width, height),
            canvas.wf(),
    {
        Self {
            layers: Vec::new(),
            id_generator: IdGenerator::new(),
            selected_layer: None,
            width,
            height,
            shift_held: false,
            ignored_delta_bank: Point::zero(),
            snap_point: SnapPoint::off(),
        }
    }

    /// Selects the layer at `index` and takes the selection from the layer
    /// that had it.
    pub fn select_layer(&mut self, index: usize)
        requires
            old(self).wf(),
            index < old(self)@.layers.len(),
        ensures
            final(self)@ == old(self)@.select(index as int),
            final(self).wf(),
    {
        if let Some(selected_layer) = self.selected_layer {
            self.layers[selected_layer].on_deselect();
        }
        self.selected_layer = Some(index);
        self.layers[index].on_select();
    }

    /// Takes the selection from the layer that has it.
    pub fn deselect_layers(&mut self)
        requires
            old(self).wf(),
        ensures
            final(self)@ == old(self)@.deselect(),
            final(self).wf(),
    {
        if let Some(selected_layer) = self.selected_layer {
            self.layers[selected_layer].on_deselect();
        }
        self.selected_layer = None;
    }

    /// Forgets what the bank holds. Called once when a gesture begins.
    pub fn on_start_drag(&mut self)
        requires
            old(self).wf(),
        ensures
            final(self)@ == old(self)@.start_drag(),
            final(self).wf(),
    {
        self.ignored_delta_bank = Point::zero();
    }

    /// The board as a rectangle.
    pub fn bounds(&self) -> (r: Rectangle)
        ensures
            r == self@.board(),
    {
        Rectangle { x: 0, y: 0, width: self.width, height: self.height }
    }

    /// The rectangles of all layers but the one at `skip`, in paint order.
    pub fn sibling_rects(&self, skip: usize) -> (v: Vec<Rectangle>)
        requires
            skip < self@.layers.len(),
        ensures
            v@ == self@.others(skip as int),
    {
        let mut v: Vec<Rectangle> = Vec::new();
        let mut i: usize = 0;
        while i < self.layers.len()
            invariant
                i <= self.layers.len(),
                skip < self.layers.len(),
                v.len() == (if i <= skip {
                    i as int
                } else {
                    i - 1
                }),
                forall|k: int|
                    0 <= k < v.len() ==> v[k] == (if k < skip {
                        self.layers[k].rect
                    } else {
                        self.layers[k + 1].rect
                    }),
            decreases self.layers.len() - i,
        {
            if i != skip {
                v.push(self.layers[i].get_rect());
            }
            i += 1;
        }
        assert(v@ =~= self@.others(skip as int));
        v
    }

    fn bank_is_over(&self) -> (b: bool)
        ensures
            b == self@.bank_over(),
    {
        let bank = self.ignored_delta_bank;
        bank.x > RELEASE_THRESHOLD || bank.x < -RELEASE_THRESHOLD || bank.y > RELEASE_THRESHOLD
            || bank.y < -RELEASE_THRESHOLD
    }

    /// Applies the bank to the selected layer and empties it.
    fn flush_bank(&mut self)
        requires
            old(self).wf(),
        ensures
            final(self)@ == old(self)@.flushed(),
            final(self).wf(),
    {
        if let Some(selected_layer) = self.selected_layer {
            let bank = self.ignored_delta_bank;
            if !bank.is_origin() {
                self.layers[selected_layer].move_by(bank);
                self.ignored_delta_bank = Point::zero();
            }
        }
    }

    /// Moves the selected layer by the pointer displacement `delta`, with or
    /// without snapping. Does nothing if no layer is selected.
    pub fn move_selection(&mut self, delta: Point, snap: bool)
        requires
            old(self).wf(),
        ensures
            final(self)@ == old(self)@.moved(delta, snap),
            final(self).wf(),
    {
        let Some(selected_layer) = self.selected_layer else {
            return ;
        };
        let mut bank = self.ignored_delta_bank;
        if !snap {
            self.layers[selected_layer].move_by(delta.add_sat(bank));
            self.ignored_delta_bank = Point::zero();
        } else {
            let bounds = self.bounds();
            let mut wanted = delta;
            if self.bank_is_over() {
                wanted = delta.add_sat(bank);
                bank = Point::zero();
            }
            let others = self.sibling_rects(selected_layer);
            let (ignored_delta, snap_point) = self.layers[selected_layer].move_by_snap(
                wanted,
                &others,
                &bounds,
            );
            if !snap_point.is_engaged() {
                self.layers[selected_layer].move_by(bank);
                bank = Point::zero();
            }
            self.snap_point = snap_point;
            self.ignored_delta_bank = bank.add_sat(ignored_delta);
        }
        assert(self@.layers =~= old(self)@.moved(delta, snap).layers);
    }

    /// Resizes the selected layer about `pivot` by the pointer displacement
    /// `delta`, snapping its driven edges. Does nothing if no layer is
    /// selected.
    pub fn resize_selection(&mut self, delta: Point, pivot: Pivot, preserve_aspect: bool)
        requires
            old(self).wf(),
        ensures
            final(self)@ == old(self)@.resized(delta, pivot, preserve_aspect),
            final(self).wf(),
    {
        let Some(selected_layer) = self.selected_layer else {
            return ;
        };
        let mut bank = self.ignored_delta_bank;
        let mut wanted = delta;
        let bounds = self.bounds();
        if self.bank_is_over() {
            wanted = delta.add_sat(bank);
            bank = Point::zero();
        }
        let others = self.sibling_rects(selected_layer);
        let (ignored_delta, snap_point) = self.layers[selected_layer].resize_by_snap(
            wanted,
            pivot,
            preserve_aspect,
            &others,
            &bounds,
        );
        if !snap_point.is_engaged() {
            self.layers[selected_layer].resize_by(bank, pivot, preserve_aspect);
            bank = Point::zero();
        }
        self.snap_point = snap_point;
        self.ignored_delta_bank = bank.add_sat(ignored_delta);
        assert(self@.layers =~= old(self)@.resized(delta, pivot, preserve_aspect).layers);
    }

    /// Records whether the modifier that switches snapping off is held, and
    /// applies the bank at once, so that changing the mode loses no motion.
    pub fn set_shift_state(&mut self, held: bool)
        requires
            old(self).wf(),
        ensures
            final(self)@ == old(self)@.with_shift(held),
            final(self).wf(),
    {
        self.shift_held = held;
        self.flush_bank();
    }

    /// Ends the gesture. With a layer selected and no guide active, the bank
    /// is applied to the layer. The bank is emptied and the guides are
    /// cleared in any case.
    pub fn on_left_button_released(&mut self)
        requires
            old(self).wf(),
        ensures
            final(self)@ == old(self)@.released(),
            final(self).wf(),
    {
        if !self.snap_point.is_engaged() {
            self.flush_bank();
        }
        self.ignored_delta_bank = Point::zero();
        self.snap_point = SnapPoint::off();
    }

    /// Whether another layer can be added: identifiers are left.
    pub fn can_add(&self) -> (b: bool)
        ensures
            b == (self@.next_id < u32::MAX),
    {
        !self.id_generator.is_exhausted()
    }

    /// Puts a new layer with the rectangle `rect` on top of the others and
    /// returns its identifier. The selection does not change.
    pub fn add_layer(&mut self, name: String, rect: Rectangle) -> (id: Id)
        requires
            old(self).wf(),
            rect.positive(),
            old(self)@.next_id < u32::MAX,
        ensures
            id@ == old(self)@.next_id,
            final(self)@ == old(self)@.added(Layer { id, name, rect, is_selected: false }),
            final(self).wf(),
    {
        let id = self.id_generator.generate();
        self.layers.push(Layer::new(id, name, rect));
        id
    }

    /// Puts a layer for an imported image on top of the others: a rectangle
    /// at the origin with the image's own width and height. Without a name
    /// the layer is called `default_name`. Returns the new identifier, or
    /// `None` and changes nothing if a side of the image is zero or too long
    /// for a coordinate, or if no identifier is left.
    pub fn add_image_layer(&mut self, name: Option<String>, width: u32, height: u32) -> (id: Option<
        Id,
    >)
        requires
            old(self).wf(),
        ensures
            id is Some <==> (1 <= width <= i32::MAX && 1 <= height <= i32::MAX && old(self)@.next_id
                < u32::MAX),
            id is None ==> final(self)@ == old(self)@,
            id matches Some(i) ==> {
                &&& i@ == old(self)@.next_id
                &&& final(self)@.layers.len() == old(self)@.layers.len() + 1
                &&& final(self)@ == old(self)@.added(final(self)@.layers.last())
                &&& final(self)@.layers.last().id == i
                &&& final(self)@.layers.last().rect == (Rectangle {
                    x: 0,
                    y: 0,
                    width: width as i32,
                    height: height as i32,
                })
                &&& !final(self)@.layers.last().is_selected
                &&& match name {
                    Some(n) => final(self)@.layers.last().name == n,
                    None => final(self)@.layers.last().name@ == "default_name"@,
                }
            },
            final(self).wf(),
    {
        if width == 0 || width > i32::MAX as u32 || height == 0 || height > i32::MAX as u32
            || !self.can_add() {
            return None;
        }
        let name = match name {
            Some(n) => n,
            None => "default_name".to_owned(),
        };
        let rect = Rectangle { x: 0, y: 0, width: width as i32, height: height as i32 };
        let id = self.add_layer(name, rect);
        assert(self@.layers.last() == (Layer { id, name, rect, is_selected: false }));
        Some(id)
    }

    /// The position of the layer that carries `id`.
    pub fn position(&self, id: Id) -> (r: Option<usize>)
        requires
            self.wf(),
        ensures
            r matches Some(i) ==> i < self@.layers.len() && self@.layers[i as int].id == id,
            r is None <==> !self@.has_id(id),
    {
        let mut i: usize = 0;
        while i < self.layers.len()
            invariant
                i <= self.layers.len(),
                forall|k: int| 0 <= k < i ==> (#[trigger] self.layers[k]).id != id,
            decreases self.layers.len() - i,
        {
            if self.layers[i].id == id {
                return Some(i);
            }
            i += 1;
        }
        None
    }

    /// Removes the layer that carries `id`, if there is one. The selection
    /// stays with the layer that had it, and is gone with that layer.
    pub fn remove_layer(&mut self, id: Id)
        requires
            old(self).wf(),
        ensures
            !old(self)@.has_id(id) ==> final(self)@ == old(self)@,
            forall|i: int|
                0 <= i < old(self)@.layers.len() && (#[trigger] old(self)@.layers[i]).id == id
                    ==> final(self)@ == old(self)@.removed_at(i),
            !final(self)@.has_id(id),
            final(self).wf(),
    {
        if let Some(index) = self.position(id) {
            proof {
                assert forall|i: int|
                    0 <= i < self@.layers.len() && (#[trigger] self@.layers[i]).id == id implies i
                    == index by {
                    if i < index {
                        assert(self@.layers[i].id@ < self@.layers[index as int].id@);
                    } else if i > index {
                        assert(self@.layers[index as int].id@ < self@.layers[i].id@);
                    }
                }
            }
            self.layers.remove(index);
            self.selected_layer =
            match self.selected_layer {
                Some(s) => if s == index {
                    None
                } else if s > index {
                    Some(s - 1)
                } else {
                    Some(s)
                },
                None => None,
            };
            assert(self@ == old(self)@.removed_at(index as int));
            assert forall|k: int| 0 <= k < self@.layers.len() implies (
            #[trigger] self@.layers[k]).id != id by {
                if k < index {
                    assert(self@.layers[k] == old(self)@.layers[k]);
                } else {
                    assert(self@.layers[k] == old(self)@.layers[k + 1]);
                }
            }
        }
    }

    /// The identifier of the selected layer.
    pub fn get_selection(&self) -> (r: Option<Id>)
        requires
            self.wf(),
        ensures
            r == match self@.selected {
                Some(s) => Some(self@.layers[s].id),
                None => None,
            },
    {
        match self.selected_layer {
            Some(s) => Some(self.layers[s].id),
            None => None,
        }
    }

    /// The index of the selected layer.
    pub fn selected_index(&self) -> (r: Option<usize>)
        ensures
            match r {
                Some(s) => self@.selected == Some(s as int),
                None => self@.selected is None,
            },
    {
        self.selected_layer
    }

    /// The number of layers.
    pub fn layer_count(&self) -> (n: usize)
        ensures
            n == self@.layers.len(),
    {
        self.layers.len()
    }

    /// The layer at `index` in paint order.
    pub fn layer(&self, index: usize) -> (l: &Layer)
        requires
            index < self@.layers.len(),
        ensures
            *l == self@.layers[index as int],
    {
        &self.layers[index]
    }

    /// All layers in paint order.
    pub fn layers(&self) -> (v: &Vec<Layer>)
        ensures
            v@ == self@.layers,
    {
        &self.layers
    }

    pub fn width(&self) -> (w: i32)
        ensures
            w == self@.width,
    {
        self.width
    }

    pub fn height(&self) -> (h: i32)
        ensures
            h == self@.height,
    {
        self.height
    }

    pub fn is_shift_held(&self) -> (b: bool)
        ensures
            b == self@.shift_held,
    {
        self.shift_held
    }

    /// The pointer motion that was asked for and not applied yet.
    pub fn ignored_delta_bank(&self) -> (p: Point)
        ensures
            p == self@.bank,
    {
        self.ignored_delta_bank
    }

    /// The guides that the last snapping move or resize left active.
    pub fn snap_point(&self) -> (s: SnapPoint)
        ensures
            s == self@.snap_point,
    {
        self.snap_point
    }
}

/// A call that changes the selection.
pub enum SelectionCall {
    /// `select_layer` with this index.
    Select(usize),
    /// `deselect_layers`.
    Deselect,
}

impl CanvasState {
    /// The canvas after one call that changes the selection.
    pub open spec fn after_call(self, call: SelectionCall) -> CanvasState {
        match call {
            SelectionCall::Select(index) => self.select(index as int),
            SelectionCall::Deselect => self.deselect(),
        }
    }

    /// The canvas after a sequence of calls that change the selection.
    pub open spec fn after_calls(self, calls: Seq<SelectionCall>) -> CanvasState
        decreases calls.len(),
    {
        if calls.len() == 0 {
            self
        } else {
            self.after_calls(calls.drop_last()).after_call(calls.last())
        }
    }

    /// Whether every call of the sequence names a layer that exists.
    pub open spec fn calls_allowed(self, calls: Seq<SelectionCall>) -> bool {
        forall|k: int|
            0 <= k < calls.len() ==> ((#[trigger] calls[k]) matches SelectionCall::Select(index)
                ==> index < self.layers.len())
    }

    /// Selecting a layer keeps the invariant of the canvas.
    pub proof fn lemma_select_keeps_wf(self, index: int)
        requires
            self.wf(),
            0 <= index < self.layers.len(),
        ensures
            self.select(index).wf(),
            self.select(index).layers.len() == self.layers.len(),
    {
    }

    /// Deselecting keeps the invariant of the canvas.
    pub proof fn lemma_deselect_keeps_wf(self)
        requires
            self.wf(),
        ensures
            self.deselect().wf(),
            self.deselect().layers.len() == self.layers.len(),
    {
    }

    /// Selection is exclusive: after any sequence of `select_layer` and
    /// `deselect_layers` calls the canvas is well formed, so the selected
    /// layer, and no other, carries the selection flag, and no two layers
    /// carry it.
    pub proof fn lemma_selection_exclusive(self, calls: Seq<SelectionCall>)
        requires
            self.wf(),
            self.calls_allowed(calls),
        ensures
            self.after_calls(calls).wf(),
            self.after_calls(calls).layers.len() == self.layers.len(),
            forall|i: int, j: int|
                0 <= i < self.layers.len() && 0 <= j < self.layers.len() && (
                #[trigger] self.after_calls(calls).layers[i]).is_selected && (
                #[trigger] self.after_calls(calls).layers[j]).is_selected ==> i == j,
        decreases calls.len(),
    {
        if calls.len() > 0 {
            let before = self.after_calls(calls.drop_last());
            assert forall|k: int| 0 <= k < calls.drop_last().len() implies ((
            #[trigger] calls.drop_last()[k]) matches SelectionCall::Select(index) ==> index
                < self.layers.len()) by {
                assert(calls.drop_last()[k] == calls[k]);
            }
            self.lemma_selection_exclusive(calls.drop_last());
            match calls.last() {
                SelectionCall::Select(index) => {
                    assert(calls[calls.len() - 1] == calls.last());
                    before.lemma_select_keeps_wf(index as int);
                },
                SelectionCall::Deselect => {
                    before.lemma_deselect_keeps_wf();
                },
            }
        }
    }
}

} // verus!

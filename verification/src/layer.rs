//! A layer: a named rectangle on the board that can be selected, moved and
//! resized.

use vstd::prelude::*;
use crate::geometry::{Pivot, Point, Rectangle, SnapPoint, MIN_SIZE};
use crate::id::Id;
use crate::moving::{move_rect, move_with_snap, snap_moved};
use crate::resizing::{resize, resize_with_snap, resized, snap_resized};

verus! {

pub struct Layer {
    pub id: Id,
    pub name: String,
    pub rect: Rectangle,
    pub is_selected: bool,
}

impl Layer {
    /// A layer always has a positive width and a positive height.
    pub open spec fn wf(&self) -> bool {
        self.rect.positive()
    }

    /// This layer with another rectangle.
    pub open spec fn with_rect(self, rect: Rectangle) -> Layer {
        Layer { rect, ..self }
    }

    /// This layer with another selection flag.
    pub open spec fn with_selected(self, is_selected: bool) -> Layer {
        Layer { is_selected, ..self }
    }

    /// A new layer, not selected.
    pub fn new(id: Id, name: String, rect: Rectangle) -> (layer: Layer)
        requires
            rect.positive(),
        ensures
            layer == (Layer { id, name, rect, is_selected: false }),
            layer.wf(),
    {
        Layer { id, name, rect, is_selected: false }
    }

    pub fn get_name(&self) -> (name: &String)
        ensures
            *name == self.name,
    {
        &self.name
    }

    pub fn get_rect(&self) -> (rect: Rectangle)
        ensures
            rect == self.rect,
    {
        self.rect
    }

    /// Moves the layer by `delta`, whatever is around it.
    pub fn move_by(&mut self, delta: Point)
        requires
            old(self).wf(),
        ensures
            *final(self) == old(self).with_rect(old(self).rect.translated(delta)),
            final(self).wf(),
    {
        self.rect = move_rect(&self.rect, delta);
    }

    /// Moves the layer by `delta` and lets it snap onto the board `bounds` and
    /// onto the rectangles `layers` of the other layers. Returns the motion
    /// that the snap withheld and the guides that are active.
    pub fn move_by_snap(
        &mut self,
        delta: Point,
        layers: &Vec<Rectangle>,
        bounds: &Rectangle,
    ) -> (out:
        (Point, SnapPoint))
        requires
            old(self).wf(),
        ensures
            *final(self) == old(self).with_rect(
                snap_moved(old(self).rect, delta, layers@, *bounds).rect,
            ),
            out.0 == snap_moved(old(self).rect, delta, layers@, *bounds).ignored,
            out.1 == snap_moved(old(self).rect, delta, layers@, *bounds).snap_point,
            final(self).wf(),
    {
        let snap = move_with_snap(&self.rect, delta, layers, bounds);
        self.rect = snap.rect;
        (snap.ignored, snap.snap_point)
    }

    pub fn on_select(&mut self)
        ensures
            *final(self) == old(self).with_selected(true),
    {
        self.is_selected = true;
    }

    pub fn on_deselect(&mut self)
        ensures
            *final(self) == old(self).with_selected(false),
    {
        self.is_selected = false;
    }

    /// Resizes the layer about `pivot` by the pointer displacement `delta`.
    /// Neither side ends up shorter than `MIN_SIZE`.
    pub fn resize_by(&mut self, delta: Point, pivot: Pivot, preserve_aspect: bool)
        requires
            old(self).wf(),
        ensures
            *final(self) == old(self).with_rect(
                resized(old(self).rect, delta, pivot, preserve_aspect),
            ),
            final(self).rect.width >= MIN_SIZE,
            final(self).rect.height >= MIN_SIZE,
            final(self).wf(),
    {
        self.rect = resize(&self.rect, delta, pivot, preserve_aspect);
    }

    /// Resizes the layer about `pivot` and lets each driven edge snap onto
    /// the board `bounds` and onto the edges and centre lines of the
    /// rectangles `layers` of the other layers. Returns the motion that was
    /// withheld and the guides that are active. Neither side ends up shorter
    /// than `MIN_SIZE`.
    pub fn resize_by_snap(
        &mut self,
        delta: Point,
        pivot: Pivot,
        preserve_aspect: bool,
        layers: &Vec<Rectangle>,
        bounds: &Rectangle,
    ) -> (out: (Point, SnapPoint))
        requires
            old(self).wf(),
        ensures
            *final(self) == old(self).with_rect(
                snap_resized(old(self).rect, delta, pivot, preserve_aspect, layers@, *bounds).rect,
            ),
            out.0 == snap_resized(
                old(self).rect,
                delta,
                pivot,
                preserve_aspect,
                layers@,
                *bounds,
            ).ignored,
            out.1 == snap_resized(
                old(self).rect,
                delta,
                pivot,
                preserve_aspect,
                layers@,
                *bounds,
            ).snap_point,
            final(self).rect.width >= MIN_SIZE,
            final(self).rect.height >= MIN_SIZE,
            final(self).wf(),
    {
        let snap = resize_with_snap(&self.rect, delta, pivot, preserve_aspect, layers, bounds);
        self.rect = snap.rect;
        (snap.ignored, snap.snap_point)
    }
}

} // verus!

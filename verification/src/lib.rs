//! Transform and snapping engine of a 2D compositing canvas.
//!
//! Rectangular layers live on a fixed-size board. A pointer drags and
//! resizes the selected layer; while it does, the layer's edges and centre
//! snap to the board and to the other layers. Motion that a snap withholds
//! is banked and handed back once the pointer pulls free, so that no pointer
//! motion is ever dropped.
//!
//! All coordinates are whole canvas units held in `i32`. Arithmetic is done
//! in wider integers and results saturate at the bounds of `i32`.

pub mod conservation;
pub mod geometry;
pub mod id;
pub mod interaction;
pub mod layer;
pub mod maker_canvas;
pub mod moving;
pub mod resizing;

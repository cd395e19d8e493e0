//! A retained-mode GUI layer: a constraint-based box layout engine, a widget
//! tree that emits draw primitives, and the per-frame batches that collect
//! them for a GPU backend.
//!
//! All sizes and positions are whole pixels.

pub mod arrange;
pub mod context;
pub mod layer;
pub mod layout;
pub mod pipeline;
pub mod widget;
pub mod window;

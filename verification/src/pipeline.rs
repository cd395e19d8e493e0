//! The records that the drawing pipelines consume, one module per kind of
//! primitive. Positions and sizes are in pixels.

pub mod circle;
pub mod image;
pub mod rect;
pub mod triangle;

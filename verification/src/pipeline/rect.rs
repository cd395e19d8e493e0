//! Rectangles with optional rounded corners.

use crate::widget::Color;
use vstd::prelude::*;

verus! {

/// One rectangle to draw: its top-left corner, its size, the thickness of its
/// outline, one corner radius per corner, and the colours of its interior and
/// of its outline.
#[derive(Debug, Clone, Copy)]
pub struct RectInstance {
    pub start: [usize; 2],
    pub size: [usize; 2],
    pub thickness: u32,
    pub radius: [u32; 4],
    pub fill_color: Color,
    pub line_color: Color,
}

impl RectInstance {
    pub fn new(
        start: [usize; 2],
        size: [usize; 2],
        thickness: u32,
        radius: [u32; 4],
        fill_color: Color,
        line_color: Color,
    ) -> (instance: Self)
        ensures
            instance == (RectInstance { start, size, thickness, radius, fill_color, line_color }),
    {
        Self { start, size, thickness, radius, fill_color, line_color }
    }

    /// The rectangle filled with `color` all over.
    pub open spec fn filled(
        start: [usize; 2],
        size: [usize; 2],
        radius: [u32; 4],
        color: Color,
    ) -> RectInstance {
        RectInstance { start, size, thickness: 1, radius, fill_color: color, line_color: color }
    }

    /// A rectangle of one colour: the outline is one pixel of the fill colour.
    pub fn fill(start: [usize; 2], size: [usize; 2], radius: [u32; 4], color: Color) -> (instance:
        Self)
        ensures
            instance == RectInstance::filled(start, size, radius, color),
    {
        Self { start, size, thickness: 1, radius, fill_color: color, line_color: color }
    }

    /// An outline of `thickness` pixels around a transparent interior.
    pub fn outline(
        start: [usize; 2],
        size: [usize; 2],
        thickness: u32,
        radius: [u32; 4],
        color: Color,
    ) -> (instance: Self)
        requires
            thickness > 0,
        ensures
            instance == (RectInstance {
                start,
                size,
                thickness,
                radius,
                fill_color: Color::of(0, 0, 0, 0),
                line_color: color,
            }),
    {
        Self { start, size, thickness, radius, fill_color: Color::new(0, 0, 0, 0), line_color: color }
    }
}

} // verus!

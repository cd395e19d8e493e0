//! Circles.

use crate::widget::Color;
use vstd::prelude::*;

verus! {

/// One circle to draw: its centre, its radius, the thickness of its outline,
/// and the colours of its interior and of its outline.
#[derive(Debug, Clone, Copy)]
pub struct CircleInstance {
    pub center: [usize; 2],
    pub radius: usize,
    pub thickness: u32,
    pub fill_color: Color,
    pub line_color: Color,
}

impl CircleInstance {
    pub fn new(
        center: [usize; 2],
        radius: usize,
        thickness: u32,
        fill_color: Color,
        line_color: Color,
    ) -> (instance: Self)
        ensures
            instance == (CircleInstance { center, radius, thickness, fill_color, line_color }),
    {
        Self { center, radius, thickness, fill_color, line_color }
    }

    /// A disc of one colour: the outline is one pixel of the fill colour.
    pub fn fill(center: [usize; 2], radius: usize, color: Color) -> (instance: Self)
        ensures
            instance == (CircleInstance {
                center,
                radius,
                thickness: 1,
                fill_color: color,
                line_color: color,
            }),
    {
        Self { center, radius, thickness: 1, fill_color: color, line_color: color }
    }

    /// A ring of `thickness` pixels around a transparent interior.
    pub fn outline(center: [usize; 2], radius: usize, thickness: u32, color: Color) -> (instance:
        Self)
        requires
            thickness > 0,
        ensures
            instance == (CircleInstance {
                center,
                radius,
                thickness,
                fill_color: Color::of(0, 0, 0, 0),
                line_color: color,
            }),
    {
        Self { center, radius, thickness, fill_color: Color::new(0, 0, 0, 0), line_color: color }
    }
}

} // verus!

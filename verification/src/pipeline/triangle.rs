//! Triangles.

use crate::widget::Color;
use vstd::prelude::*;

verus! {

/// One triangle to draw: its three corners, the thickness of its outline, and
/// the colours of its interior and of its outline.
#[derive(Debug, Clone, Copy)]
pub struct TriangleInstance {
    pub point1: [usize; 2],
    pub point2: [usize; 2],
    pub point3: [usize; 2],
    pub thickness: u32,
    pub fill_color: Color,
    pub line_color: Color,
}

impl TriangleInstance {
    pub fn new(
        point1: [usize; 2],
        point2: [usize; 2],
        point3: [usize; 2],
        thickness: u32,
        fill_color: Color,
        line_color: Color,
    ) -> (instance: Self)
        ensures
            instance == (TriangleInstance {
                point1,
                point2,
                point3,
                thickness,
                fill_color,
                line_color,
            }),
    {
        Self { point1, point2, point3, thickness, fill_color, line_color }
    }

    /// A triangle of one colour: the outline is one pixel of the fill colour.
    pub fn fill(point1: [usize; 2], point2: [usize; 2], point3: [usize; 2], color: Color) -> (instance:
        Self)
        ensures
            instance == (TriangleInstance {
                point1,
                point2,
                point3,
                thickness: 1,
                fill_color: color,
                line_color: color,
            }),
    {
        Self { point1, point2, point3, thickness: 1, fill_color: color, line_color: color }
    }

    /// An outline of `thickness` pixels around a transparent interior.
    pub fn outline(
        point1: [usize; 2],
        point2: [usize; 2],
        point3: [usize; 2],
        thickness: u32,
        color: Color,
    ) -> (instance: Self)
        requires
            thickness > 0,
        ensures
            instance == (TriangleInstance {
                point1,
                point2,
                point3,
                thickness,
                fill_color: Color::of(0, 0, 0, 0),
                line_color: color,
            }),
    {
        Self {
            point1,
            point2,
            point3,
            thickness,
            fill_color: Color::new(0, 0, 0, 0),
            line_color: color,
        }
    }
}

} // verus!

//! A layer: the primitives that are drawn together, grouped by kind and kept
//! in the order in which they were pushed within each kind.

use crate::pipeline::circle::CircleInstance;
use crate::pipeline::image::ImageResource;
use crate::pipeline::rect::RectInstance;
use crate::pipeline::triangle::TriangleInstance;
use vstd::prelude::*;

verus! {

#[derive(Debug)]
pub struct Layer {
    pub circles: Vec<CircleInstance>,
    pub rects: Vec<RectInstance>,
    pub triangles: Vec<TriangleInstance>,
    pub images: Vec<ImageResource>,
}

/// What a layer holds, kind by kind.
pub struct LayerView {
    pub circles: Seq<CircleInstance>,
    pub rects: Seq<RectInstance>,
    pub triangles: Seq<TriangleInstance>,
    pub images: Seq<ImageResource>,
}

impl LayerView {
    /// The layer that holds nothing.
    pub open spec fn empty() -> LayerView {
        LayerView {
            circles: Seq::empty(),
            rects: Seq::empty(),
            triangles: Seq::empty(),
            images: Seq::empty(),
        }
    }

    /// The layer that holds one rectangle and nothing else.
    pub open spec fn of_rect(instance: RectInstance) -> LayerView {
        LayerView { rects: seq![instance], ..LayerView::empty() }
    }
}

impl View for Layer {
    type V = LayerView;

    open spec fn view(&self) -> LayerView {
        LayerView {
            circles: self.circles@,
            rects: self.rects@,
            triangles: self.triangles@,
            images: self.images@,
        }
    }
}

impl Default for Layer {
    fn default() -> (layer: Self)
        ensures
            layer@ == LayerView::empty(),
    {
        Self { circles: Vec::new(), rects: Vec::new(), triangles: Vec::new(), images: Vec::new() }
    }
}

impl Layer {
    /// Adds a circle after the circles already there.
    pub fn push_circle(&mut self, instance: CircleInstance)
        ensures
            final(self)@ == (LayerView { circles: old(self)@.circles.push(instance), ..old(self)@ }),
    {
        self.circles.push(instance);
    }

    /// Adds a rectangle after the rectangles already there.
    pub fn push_rect(&mut self, instance: RectInstance)
        ensures
            final(self)@ == (LayerView { rects: old(self)@.rects.push(instance), ..old(self)@ }),
    {
        self.rects.push(instance);
    }

    /// Adds a triangle after the triangles already there.
    pub fn push_triangle(&mut self, instance: TriangleInstance)
        ensures
            final(self)@ == (LayerView {
                triangles: old(self)@.triangles.push(instance),
                ..old(self)@
            }),
    {
        self.triangles.push(instance);
    }

    /// Adds an image after the images already there.
    pub fn push_image(&mut self, instance: ImageResource)
        ensures
            final(self)@ == (LayerView { images: old(self)@.images.push(instance), ..old(self)@ }),
    {
        self.images.push(instance);
    }
}

} // verus!

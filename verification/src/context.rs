//! The frame context: the layers that one render pass has emitted so far.
//!
//! A frame starts with no layers, the render traversal appends to it, and the
//! backend draws the layers in the order in which they were pushed, so that a
//! later layer lies on top of an earlier one.

use crate::layer::{Layer, LayerView};
use vstd::prelude::*;

verus! {

#[derive(Debug)]
pub struct Context {
    layers: Vec<Layer>,
}

/// The views of `layers`, in order.
pub open spec fn layer_views(layers: Seq<Layer>) -> Seq<LayerView> {
    Seq::new(layers.len(), |i: int| layers[i]@)
}

impl View for Context {
    type V = Seq<LayerView>;

    closed spec fn view(&self) -> Seq<LayerView> {
        layer_views(self.layers@)
    }
}

impl Context {
    /// A frame with no layers.
    pub fn new() -> (context: Self)
        ensures
            context@ == Seq::<LayerView>::empty(),
    {
        let context = Self { layers: Vec::new() };
        assert(context@ =~= Seq::<LayerView>::empty());
        context
    }

    /// Appends `layer` on top of the layers already there.
    pub fn push_layers(&mut self, layer: Layer)
        ensures
            final(self)@ == old(self)@.push(layer@),
    {
        self.layers.push(layer);
        assert(self@ =~= old(self)@.push(layer@));
    }

    /// Drops all layers.
    pub fn clear_layers(&mut self)
        ensures
            final(self)@ == Seq::<LayerView>::empty(),
    {
        self.layers.clear();
        assert(self@ =~= Seq::<LayerView>::empty());
    }

    /// The layers of the frame, bottom first.
    pub fn layers(&self) -> (layers: &Vec<Layer>)
        ensures
            layer_views(layers@) == self@,
    {
        &self.layers
    }
}

} // verus!

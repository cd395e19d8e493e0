//! How a window is opened, and the frame that a widget tree draws in it.
//!
//! Each frame the tree is laid out over the whole surface and then rendered
//! into an empty frame context. The frame that results is settled by the tree
//! and by the size of the surface alone.

use crate::context::Context;
use crate::layout::Rect;
use crate::widget::{laid_out, Widget};
use vstd::prelude::*;

verus! {

/// How a window is opened: with or without a frame around it, its size, and
/// the bounds within which it may be resized, each as width and height.
pub struct WindowDecoration {
    pub frame: bool,
    pub size: (u32, u32),
    pub min_size: (u32, u32),
    pub max_size: (u32, u32),
}

impl WindowDecoration {
    pub fn set_frame(self, frame: bool) -> (decoration: Self)
        ensures
            decoration == (WindowDecoration { frame, ..self }),
    {
        let mut decoration = self;
        decoration.frame = frame;
        decoration
    }

    pub fn set_size(self, size: (u32, u32)) -> (decoration: Self)
        ensures
            decoration == (WindowDecoration { size, ..self }),
    {
        let mut decoration = self;
        decoration.size = size;
        decoration
    }

    pub fn set_window_size_limit(self, max: (u32, u32), min: (u32, u32)) -> (decoration: Self)
        ensures
            decoration == (WindowDecoration { min_size: min, max_size: max, ..self }),
    {
        let mut decoration = self;
        decoration.min_size = min;
        decoration.max_size = max;
        decoration
    }
}

impl Default for WindowDecoration {
    fn default() -> (decoration: Self)
        ensures
            decoration == (WindowDecoration {
                frame: true,
                size: (800, 600),
                min_size: (200, 150),
                max_size: (100000, 50000),
            }),
    {
        Self { frame: true, size: (800, 600), min_size: (200, 150), max_size: (100000, 50000) }
    }
}

/// The rectangle of a surface of `width` by `height` pixels.
pub open spec fn surface(width: u32, height: u32) -> Rect {
    Rect { left: 0, top: 0, width: width as usize, height: height as usize }
}

/// Draws one frame of the tree under `root` for a surface of `width` by
/// `height` pixels: clears the frame, lays the tree out over the whole
/// surface, and renders it. The frame then holds what the tree draws in that
/// rectangle and nothing else, whatever it held before and however the tree
/// was laid out before.
pub fn render_frame<W: Widget + ?Sized>(
    root: &mut W,
    context: &mut Context,
    width: u32,
    height: u32,
)
    ensures
        final(context)@ == old(root).drawn_in(Some(surface(width, height))),
        laid_out(old(root), final(root), Some(surface(width, height))),
{
    context.clear_layers();
    root.layout(Some(Rect::new(0, 0, width as usize, height as usize)));
    root.render(context);
    assert(context@ =~= root.drawn());
}

} // verus!

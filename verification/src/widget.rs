//! Widgets: what a node of the tree must offer, and the values that style it.

use crate::arrange::Request;
use crate::context::Context;
use crate::layer::LayerView;
use crate::layout::{Alignment, Constraint, Rect};
use vstd::prelude::*;

pub mod container;

verus! {

/// A node of the widget tree.
///
/// A widget is laid out with the rectangle that its parent found for it, or
/// with `None` where it did not fit, and then rendered into the frame. What
/// it draws is settled by its description and by that rectangle alone:
/// `drawn_in` names the result, `layout` brings it about, and `render` emits
/// it. Laying a widget out changes neither what it asks of its parent nor
/// what it would draw in any rectangle.
pub trait Widget {
    /// What the widget asks of its parent.
    spec fn request(&self) -> Request;

    /// The layers that the widget renders as it stands, bottom first.
    spec fn drawn(&self) -> Seq<LayerView>;

    /// The layers that the widget renders once it has been laid out with
    /// `rect`.
    spec fn drawn_in(&self, rect: Option<Rect>) -> Seq<LayerView>;

    fn constraint(&self) -> (constraint: Constraint)
        ensures
            constraint == self.request().constraint,
    ;

    fn alignment(&self) -> (alignment: Alignment)
        ensures
            alignment == self.request().alignment,
    ;

    /// Places the widget at `rect`, or collapses it where `rect` is `None`.
    /// A collapsed widget draws nothing.
    fn layout(&mut self, rect: Option<Rect>)
        requires
            rect is Some ==> rect.unwrap().wf(),
        ensures
            final(self).request() == old(self).request(),
            final(self).drawn() == old(self).drawn_in(rect),
            forall|r: Option<Rect>| #[trigger] final(self).drawn_in(r) == old(self).drawn_in(r),
            rect is None ==> final(self).drawn() == Seq::<LayerView>::empty(),
    ;

    /// Appends what the widget draws to the frame, on top of what is there.
    fn render(&self, context: &mut Context)
        ensures
            final(context)@ == old(context)@ + self.drawn(),
    ;
}

/// Where the input focus is, as seen from a widget.
pub enum Focus {
    Focused,
    ChildFocused,
    Unfocused,
}

/// A colour with 8-bit red, green, blue and alpha channels.
#[derive(Debug, Clone, Copy, PartialEq, Eq, Structural)]
pub struct Color {
    r: u8,
    g: u8,
    b: u8,
    a: u8,
}

impl Color {
    /// The colour with the given channels.
    pub closed spec fn of(r: u8, g: u8, b: u8, a: u8) -> Color {
        Color { r, g, b, a }
    }

    /// The channels in the order red, green, blue, alpha.
    pub closed spec fn channels(&self) -> (u8, u8, u8, u8) {
        (self.r, self.g, self.b, self.a)
    }

    /// A colour is made of its channels and of nothing else.
    pub proof fn lemma_channels(r: u8, g: u8, b: u8, a: u8)
        ensures
            Color::of(r, g, b, a).channels() == (r, g, b, a),
    {
    }

    #[verifier::when_used_as_spec(of)]
    pub fn new(r: u8, g: u8, b: u8, a: u8) -> (color: Self)
        ensures
            color == Color::of(r, g, b, a),
            color.channels() == (r, g, b, a),
    {
        Self { r, g, b, a }
    }

    /// The four channels in the order red, green, blue, alpha.
    pub fn rgba(&self) -> (channels: [u8; 4])
        ensures
            self.channels() == (channels[0], channels[1], channels[2], channels[3]),
            *self == Color::of(channels[0], channels[1], channels[2], channels[3]),
    {
        [self.r, self.g, self.b, self.a]
    }
}

/// `after` is `before` once it has been laid out with `rect`: what `layout`
/// promises of every widget.
pub open spec fn laid_out<W: Widget + ?Sized>(before: &W, after: &W, rect: Option<Rect>) -> bool {
    &&& after.request() == before.request()
    &&& after.drawn() == before.drawn_in(rect)
    &&& forall|r: Option<Rect>| #[trigger] after.drawn_in(r) == before.drawn_in(r)
    &&& rect is None ==> after.drawn() == Seq::<LayerView>::empty()
}

/// What a widget draws after a layout is settled by the widget and the
/// rectangle alone: two widgets that would draw the same in every rectangle
/// draw the same once both have been laid out with the same rectangle,
/// however each was laid out before.
pub proof fn lemma_layout_determined<W: Widget + ?Sized>(
    one: &W,
    one_after: &W,
    other: &W,
    other_after: &W,
    rect: Option<Rect>,
)
    requires
        forall|r: Option<Rect>| #[trigger] one.drawn_in(r) == other.drawn_in(r),
        laid_out(one, one_after, rect),
        laid_out(other, other_after, rect),
    ensures
        one_after.drawn() == other_after.drawn(),
{
}

/// Laying a widget out again with the same rectangle changes nothing of what
/// it draws, whatever it was laid out with in between.
pub proof fn lemma_layout_repeatable<W: Widget + ?Sized>(
    before: &W,
    first: &W,
    between: &W,
    second: &W,
    rect: Option<Rect>,
    detour: Option<Rect>,
)
    requires
        laid_out(before, first, rect),
        laid_out(first, between, detour),
        laid_out(between, second, rect),
    ensures
        second.drawn() == first.drawn(),
{
}

/// A widget that was laid out with `None` adds nothing to a frame, whatever
/// it holds.
pub proof fn lemma_collapsed_draws_nothing<W: Widget + ?Sized>(
    before: &W,
    after: &W,
    frame: Seq<LayerView>,
)
    requires
        laid_out(before, after, None),
    ensures
        frame + after.drawn() == frame,
{
    assert(frame + Seq::<LayerView>::empty() =~= frame);
}

} // verus!

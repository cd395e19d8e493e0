//! Containers: widgets that line their children up along one axis and draw a
//! background behind them.

use crate::arrange::{
    after_pixels, child_rect, lemma_pass_shrinks, pass, place, primary_extent, primary_start,
    Axis, Request, Track,
};
use crate::context::Context;
use crate::layer::{Layer, LayerView};
use crate::layout::{Alignment, Constraint, Padding, Rect};
use crate::pipeline::rect::RectInstance;
use crate::widget::{Color, Widget};
use vstd::prelude::*;

verus! {

/// What the children ask of their parent, in declaration order.
pub open spec fn requests_of(children: Seq<Box<dyn Widget>>) -> Seq<Request> {
    Seq::new(children.len(), |i: int| children[i].request())
}

/// The layers that the first `n` children render as they stand, in
/// declaration order.
pub open spec fn drawn_by(children: Seq<Box<dyn Widget>>, n: nat) -> Seq<LayerView>
    decreases n,
{
    if n == 0 {
        Seq::empty()
    } else {
        drawn_by(children, (n - 1) as nat) + children[n - 1].drawn()
    }
}

/// The layers that the first `n` children render once the container has laid
/// them out inside `inner`, in declaration order.
pub open spec fn drawn_by_in(children: Seq<Box<dyn Widget>>, axis: Axis, inner: Rect, n: nat)
    -> Seq<LayerView>
    decreases n,
{
    if n == 0 {
        Seq::empty()
    } else {
        drawn_by_in(children, axis, inner, (n - 1) as nat) + children[n - 1].drawn_in(
            child_rect(axis, inner, requests_of(children), n - 1),
        )
    }
}

/// Child `i` of `after` is child `i` of `before` laid out with `rect`: it asks
/// for the same, draws what that child draws in `rect`, and would still draw
/// the same in any rectangle.
pub open spec fn settled(
    before: Seq<Box<dyn Widget>>,
    after: Seq<Box<dyn Widget>>,
    i: int,
    rect: Option<Rect>,
) -> bool {
    &&& after[i].request() == before[i].request()
    &&& after[i].drawn() == before[i].drawn_in(rect)
    &&& forall|r: Option<Rect>| #[trigger] after[i].drawn_in(r) == before[i].drawn_in(r)
}

/// The layer of a container's background: one filled rectangle over `rect`.
pub open spec fn background(rect: Rect, radius: [u32; 4], color: Color) -> LayerView {
    LayerView::of_rect(
        RectInstance::filled([rect.left, rect.top], [rect.width, rect.height], radius, color),
    )
}

/// What a container is made of.
pub struct ContainerView {
    pub request: Request,
    pub padding: Padding,
    pub radius: [u32; 4],
    pub background: Color,
    /// Where the container was last placed; `None` while it has not been
    /// laid out or is collapsed.
    pub rect: Option<Rect>,
    pub children: Seq<Box<dyn Widget>>,
}

impl ContainerView {
    /// The layers that the container renders as it stands: nothing while it
    /// is collapsed, else its background and then its children's layers.
    pub open spec fn drawn(self) -> Seq<LayerView> {
        match self.rect {
            None => Seq::empty(),
            Some(rect) => seq![background(rect, self.radius, self.background)] + drawn_by(
                self.children,
                self.children.len(),
            ),
        }
    }

    /// The layers that the container renders once it has been laid out with
    /// `rect` along `axis`: nothing for `None`, else its background over
    /// `rect` and then what each child draws in the rectangle it receives
    /// inside the padding.
    pub open spec fn drawn_in(self, axis: Axis, rect: Option<Rect>) -> Seq<LayerView> {
        match rect {
            None => Seq::empty(),
            Some(rect) => seq![background(rect, self.radius, self.background)] + drawn_by_in(
                self.children,
                axis,
                rect.padded(self.padding),
                self.children.len(),
            ),
        }
    }
}

/// Children that were laid out one by one draw together what they were to
/// draw in their rectangles.
pub proof fn lemma_drawn_by_settled(
    before: Seq<Box<dyn Widget>>,
    after: Seq<Box<dyn Widget>>,
    axis: Axis,
    inner: Rect,
    n: nat,
)
    requires
        before.len() == after.len(),
        n <= before.len(),
        forall|i: int|
            #![trigger before[i]]
            0 <= i < n ==> settled(
                before,
                after,
                i,
                child_rect(axis, inner, requests_of(before), i),
            ),
    ensures
        drawn_by(after, n) == drawn_by_in(before, axis, inner, n),
    decreases n,
{
    if n > 0 {
        lemma_drawn_by_settled(before, after, axis, inner, (n - 1) as nat);
        assert(settled(
            before,
            after,
            n - 1,
            child_rect(axis, inner, requests_of(before), n - 1),
        ));
    }
}

/// Children with the same requests that draw the same in every rectangle draw
/// the same together.
pub proof fn lemma_drawn_by_in_same(
    before: Seq<Box<dyn Widget>>,
    after: Seq<Box<dyn Widget>>,
    axis: Axis,
    inner: Rect,
    n: nat,
)
    requires
        before.len() == after.len(),
        n <= before.len(),
        forall|i: int| 0 <= i < before.len() ==> (#[trigger] after[i]).request() == before[i].request(),
        forall|i: int, r: Option<Rect>|
            0 <= i < before.len() ==> #[trigger] after[i].drawn_in(r) == before[i].drawn_in(r),
    ensures
        drawn_by_in(after, axis, inner, n) == drawn_by_in(before, axis, inner, n),
    decreases n,
{
    assert(requests_of(after) =~= requests_of(before));
    if n > 0 {
        lemma_drawn_by_in_same(before, after, axis, inner, (n - 1) as nat);
    }
}

/// Lays the children out inside `inner` along `axis`, in two passes: first
/// those that ask for pixels, then those that ask for a share of what is
/// left. Each child is laid out once, with the rectangle that
/// [`child_rect`] names, or with `None` where it is granted nothing.
pub fn layout_children(axis: Axis, children: &mut Vec<Box<dyn Widget>>, inner: Rect)
    requires
        inner.wf(),
    ensures
        final(children)@.len() == old(children)@.len(),
        forall|i: int|
            #![trigger old(children)@[i]]
            0 <= i < old(children)@.len() ==> settled(
                old(children)@,
                final(children)@,
                i,
                child_rect(axis, inner, requests_of(old(children)@), i),
            ),
{
    let n: usize = children.len();
    let extent: usize = match axis {
        Axis::Horizontal => inner.width(),
        Axis::Vertical => inner.height(),
    };
    let mut start: usize = match axis {
        Axis::Horizontal => inner.left(),
        Axis::Vertical => inner.top(),
    };
    let mut space: usize = extent;
    let ghost requests = requests_of(old(children)@);
    let ghost whole = Track { cursor: start as int, space: extent as int };

    let mut i: usize = 0;
    while i < n
        invariant
            i <= n,
            n == children@.len(),
            n == old(children)@.len(),
            inner.wf(),
            requests == requests_of(old(children)@),
            whole.cursor == primary_start(axis, inner),
            whole.space == primary_extent(axis, inner),
            extent == whole.space,
            (Track { cursor: start as int, space: space as int }) == pass(
                requests,
                false,
                whole.space,
                whole,
                i as nat,
            ),
            start + space <= whole.cursor + whole.space,
            forall|j: int|
                #![trigger children@[j]]
                0 <= j < n && (j >= i || !requests[j].in_pass(false)) ==> children@[j] == old(
                    children,
                )@[j],
            forall|j: int|
                #![trigger old(children)@[j]]
                0 <= j < i && requests[j].in_pass(false) ==> settled(
                    old(children)@,
                    children@,
                    j,
                    child_rect(axis, inner, requests, j),
                ),
        decreases n - i,
    {
        let constraint: Constraint = children[i].constraint();
        if constraint.has_pixel() {
            let alignment: Alignment = children[i].alignment();
            proof {
                lemma_pass_shrinks(requests, false, whole.space, whole, i as nat);
            }
            let slot = place(constraint, alignment, extent, &mut start, &mut space);
            lay_child(axis, children, i, inner, slot);
        }
        i += 1;
    }

    let percent_parent: usize = space;
    let ghost rest = after_pixels(requests, whole.cursor, whole.space);
    i = 0;
    while i < n
        invariant
            i <= n,
            n == children@.len(),
            n == old(children)@.len(),
            inner.wf(),
            requests == requests_of(old(children)@),
            whole.cursor == primary_start(axis, inner),
            whole.space == primary_extent(axis, inner),
            rest == after_pixels(requests, whole.cursor, whole.space),
            percent_parent == rest.space,
            0 <= rest.space,
            rest.cursor + rest.space <= whole.cursor + whole.space,
            (Track { cursor: start as int, space: space as int }) == pass(
                requests,
                true,
                rest.space,
                rest,
                i as nat,
            ),
            start + space <= whole.cursor + whole.space,
            forall|j: int|
                #![trigger children@[j]]
                0 <= j < n && j >= i && requests[j].in_pass(true) ==> children@[j] == old(
                    children,
                )@[j],
            forall|j: int|
                #![trigger old(children)@[j]]
                0 <= j < n && (j < i || requests[j].in_pass(false)) ==> settled(
                    old(children)@,
                    children@,
                    j,
                    child_rect(axis, inner, requests, j),
                ),
        decreases n - i,
    {
        // Laid out in the first pass or not touched yet, child `i` still asks
        // for what it asked at the start.
        assert(settled(
            old(children)@,
            children@,
            i as int,
            child_rect(axis, inner, requests, i as int),
        ) || children@[i as int] == old(children)@[i as int]);
        let constraint: Constraint = children[i].constraint();
        if constraint.has_percent() {
            let alignment: Alignment = children[i].alignment();
            proof {
                lemma_pass_shrinks(requests, true, rest.space, rest, i as nat);
            }
            let slot = place(constraint, alignment, percent_parent, &mut start, &mut space);
            lay_child(axis, children, i, inner, slot);
        }
        i += 1;
    }
}

/// Lays child `i` out with the rectangle that its slot makes inside `inner`,
/// or collapses it where it has none.
fn lay_child(
    axis: Axis,
    children: &mut Vec<Box<dyn Widget>>,
    i: usize,
    inner: Rect,
    slot: Option<(usize, usize)>,
)
    requires
        i < old(children)@.len(),
        inner.wf(),
        match slot {
            Some((offset, size)) => offset + size <= primary_start(axis, inner) + primary_extent(
                axis,
                inner,
            ),
            None => true,
        },
    ensures
        final(children)@.len() == old(children)@.len(),
        forall|j: int|
            #![trigger final(children)@[j]]
            0 <= j < old(children)@.len() && j != i ==> final(children)@[j] == old(children)@[j],
        settled(
            old(children)@,
            final(children)@,
            i as int,
            match slot {
                Some((offset, size)) => Some(
                    match axis {
                        Axis::Horizontal => Rect {
                            left: offset,
                            width: size,
                            top: inner.top,
                            height: inner.height,
                        },
                        Axis::Vertical => Rect {
                            top: offset,
                            height: size,
                            left: inner.left,
                            width: inner.width,
                        },
                    },
                ),
                None => None,
            },
        ),
{
    match slot {
        Some((offset, size)) => {
            let mut child_rect: Rect = inner;
            match axis {
                Axis::Horizontal => {
                    child_rect.left = offset;
                    child_rect.width = size;
                },
                Axis::Vertical => {
                    child_rect.top = offset;
                    child_rect.height = size;
                },
            }
            children[i].layout(Some(child_rect));
        },
        None => {
            children[i].layout(None);
        },
    }
}

/// Appends to the frame what the children draw as they stand, in declaration
/// order, so that a later child lies on top of an earlier one.
pub fn render_children(children: &Vec<Box<dyn Widget>>, context: &mut Context)
    ensures
        final(context)@ == old(context)@ + drawn_by(children@, children@.len()),
{
    let n: usize = children.len();
    let mut i: usize = 0;
    while i < n
        invariant
            i <= n,
            n == children@.len(),
            context@ == old(context)@ + drawn_by(children@, i as nat),
        decreases n - i,
    {
        children[i].render(context);
        i += 1;
    }
}

/// How a horizontal container is drawn.
pub struct HorizontalDecoration {
    border_radius: [u32; 4],
    background_color: Color,
}

impl HorizontalDecoration {
    /// The corner radii in the order left-top, left-bottom, right-bottom,
    /// right-top.
    pub closed spec fn radius(&self) -> [u32; 4] {
        self.border_radius
    }

    /// The colour of the background.
    pub closed spec fn background(&self) -> Color {
        self.background_color
    }

    pub fn set_border_radius(self, lt: u32, lb: u32, rb: u32, rt: u32) -> (decoration: Self)
        ensures
            decoration.radius() == [lt, lb, rb, rt],
            decoration.background() == self.background(),
    {
        let mut decoration = self;
        decoration.border_radius = [lt, lb, rb, rt];
        decoration
    }

    pub fn set_background_color(self, color: Color) -> (decoration: Self)
        ensures
            decoration.radius() == self.radius(),
            decoration.background() == color,
    {
        let mut decoration = self;
        decoration.background_color = color;
        decoration
    }
}

impl Default for HorizontalDecoration {
    /// Square corners and a transparent background.
    fn default() -> (decoration: Self)
        ensures
            decoration.radius() == [0u32, 0u32, 0u32, 0u32],
            decoration.background() == Color::of(0, 0, 0, 0),
    {
        Self { border_radius: [0, 0, 0, 0], background_color: Color::new(0, 0, 0, 0) }
    }
}

/// A container that lines its children up from left to right. Each child is
/// as high as the container is inside its padding.
pub struct Horizontal {
    constraint: Constraint,
    alignment: Alignment,
    padding: Padding,
    decoration: HorizontalDecoration,
    rect: Option<Rect>,
    children: Vec<Box<dyn Widget>>,
}

impl View for Horizontal {
    type V = ContainerView;

    closed spec fn view(&self) -> ContainerView {
        ContainerView {
            request: Request { constraint: self.constraint, alignment: self.alignment },
            padding: self.padding,
            radius: self.decoration.border_radius,
            background: self.decoration.background_color,
            rect: self.rect,
            children: self.children@,
        }
    }
}

impl Horizontal {
    /// An empty container without padding, with square corners and a
    /// transparent background. It has no placement, and so draws nothing,
    /// until it is laid out with a rectangle.
    pub fn new(constraint: Constraint, alignment: Alignment) -> (container: Self)
        ensures
            container@.request == (Request { constraint, alignment }),
            container@.padding.is_zero(),
            container@.radius == [0u32, 0u32, 0u32, 0u32],
            container@.background == Color::of(0, 0, 0, 0),
            container@.rect is None,
            container@.drawn() == Seq::<LayerView>::empty(),
            container@.children == Seq::<Box<dyn Widget>>::empty(),
    {
        Self {
            constraint,
            alignment,
            padding: Padding::default(),
            decoration: HorizontalDecoration::default(),
            rect: None,
            children: Vec::new(),
        }
    }

    pub fn set_padding(self, padding: Padding) -> (container: Self)
        ensures
            container@ == (ContainerView { padding, ..self@ }),
    {
        let mut container = self;
        container.padding = padding;
        container
    }

    pub fn set_children(self, widgets: Vec<Box<dyn Widget>>) -> (container: Self)
        ensures
            container@ == (ContainerView { children: widgets@, ..self@ }),
    {
        let mut container = self;
        container.children = widgets;
        container
    }

    pub fn set_decoration(self, decoration: HorizontalDecoration) -> (container: Self)
        ensures
            container@ == (ContainerView {
                radius: decoration.radius(),
                background: decoration.background(),
                ..self@
            }),
    {
        let mut container = self;
        container.decoration = decoration;
        container
    }
}

impl Widget for Horizontal {
    open spec fn request(&self) -> Request {
        self@.request
    }

    open spec fn drawn(&self) -> Seq<LayerView> {
        self@.drawn()
    }

    open spec fn drawn_in(&self, rect: Option<Rect>) -> Seq<LayerView> {
        self@.drawn_in(Axis::Horizontal, rect)
    }

    fn constraint(&self) -> (constraint: Constraint) {
        self.constraint
    }

    fn alignment(&self) -> (alignment: Alignment) {
        self.alignment
    }

    fn layout(&mut self, rect: Option<Rect>)
        ensures
            final(self)@.rect == rect,
            final(self)@.request == old(self)@.request,
            final(self)@.padding == old(self)@.padding,
            final(self)@.radius == old(self)@.radius,
            final(self)@.background == old(self)@.background,
            final(self)@.children.len() == old(self)@.children.len(),
            rect is None ==> final(self)@.children == old(self)@.children,
            rect is Some ==> forall|i: int|
                #![trigger old(self)@.children[i]]
                0 <= i < old(self)@.children.len() ==> settled(
                    old(self)@.children,
                    final(self)@.children,
                    i,
                    child_rect(
                        Axis::Horizontal,
                        rect.unwrap().padded(old(self)@.padding),
                        requests_of(old(self)@.children),
                        i,
                    ),
                ),
    {
        self.rect = rect;
        if rect.is_none() {
            return ;
        }
        let inner_rect: Rect = rect.unwrap().subtract_padding(self.padding);
        layout_children(Axis::Horizontal, &mut self.children, inner_rect);
        proof {
            let n = self.children@.len();
            lemma_drawn_by_settled(
                old(self).children@,
                self.children@,
                Axis::Horizontal,
                inner_rect,
                n,
            );
            assert forall|r: Option<Rect>| #[trigger]
                self.drawn_in(r) == old(self).drawn_in(r) by {
                if let Some(at) = r {
                    lemma_drawn_by_in_same(
                        old(self).children@,
                        self.children@,
                        Axis::Horizontal,
                        at.padded(self.padding),
                        n,
                    );
                }
            }
        }
    }

    fn render(&self, context: &mut Context) {
        if self.rect.is_none() {
            return ;
        }
        let rect: Rect = self.rect.unwrap();
        let mut layer = Layer::default();
        layer.push_rect(
            RectInstance::fill(
                [rect.left(), rect.top()],
                [rect.width(), rect.height()],
                self.decoration.border_radius,
                self.decoration.background_color,
            ),
        );
        context.push_layers(layer);
        render_children(&self.children, context);
    }
}

/// How a vertical container is drawn.
pub struct VerticalDecoration {
    border_radius: [u32; 4],
    background_color: Color,
}

impl VerticalDecoration {
    /// The corner radii in the order left-top, left-bottom, right-bottom,
    /// right-top.
    pub closed spec fn radius(&self) -> [u32; 4] {
        self.border_radius
    }

    /// The colour of the background.
    pub closed spec fn background(&self) -> Color {
        self.background_color
    }

    pub fn set_border_radius(self, lt: u32, lb: u32, rb: u32, rt: u32) -> (decoration: Self)
        ensures
            decoration.radius() == [lt, lb, rb, rt],
            decoration.background() == self.background(),
    {
        let mut decoration = self;
        decoration.border_radius = [lt, lb, rb, rt];
        decoration
    }

    pub fn set_background_color(self, color: Color) -> (decoration: Self)
        ensures
            decoration.radius() == self.radius(),
            decoration.background() == color,
    {
        let mut decoration = self;
        decoration.background_color = color;
        decoration
    }
}

impl Default for VerticalDecoration {
    /// Square corners and a transparent background.
    fn default() -> (decoration: Self)
        ensures
            decoration.radius() == [0u32, 0u32, 0u32, 0u32],
            decoration.background() == Color::of(0, 0, 0, 0),
    {
        Self { border_radius: [0, 0, 0, 0], background_color: Color::new(0, 0, 0, 0) }
    }
}

/// A container that lines its children up from top to bottom. Each child is
/// as wide as the container is inside its padding.
pub struct Vertical {
    constraint: Constraint,
    alignment: Alignment,
    padding: Padding,
    decoration: VerticalDecoration,
    rect: Option<Rect>,
    children: Vec<Box<dyn Widget>>,
}

impl View for Vertical {
    type V = ContainerView;

    closed spec fn view(&self) -> ContainerView {
        ContainerView {
            request: Request { constraint: self.constraint, alignment: self.alignment },
            padding: self.padding,
            radius: self.decoration.border_radius,
            background: self.decoration.background_color,
            rect: self.rect,
            children: self.children@,
        }
    }
}

impl Vertical {
    /// An empty container without padding, with square corners and a
    /// transparent background. It has no placement, and so draws nothing,
    /// until it is laid out with a rectangle.
    pub fn new(constraint: Constraint, alignment: Alignment) -> (container: Self)
        ensures
            container@.request == (Request { constraint, alignment }),
            container@.padding.is_zero(),
            container@.radius == [0u32, 0u32, 0u32, 0u32],
            container@.background == Color::of(0, 0, 0, 0),
            container@.rect is None,
            container@.drawn() == Seq::<LayerView>::empty(),
            container@.children == Seq::<Box<dyn Widget>>::empty(),
    {
        Self {
            constraint,
            alignment,
            padding: Padding::default(),
            decoration: VerticalDecoration::default(),
            rect: None,
            children: Vec::new(),
        }
    }

    pub fn set_padding(self, padding: Padding) -> (container: Self)
        ensures
            container@ == (ContainerView { padding, ..self@ }),
    {
        let mut container = self;
        container.padding = padding;
        container
    }

    pub fn set_children(self, widgets: Vec<Box<dyn Widget>>) -> (container: Self)
        ensures
            container@ == (ContainerView { children: widgets@, ..self@ }),
    {
        let mut container = self;
        container.children = widgets;
        container
    }

    pub fn set_decoration(self, decoration: VerticalDecoration) -> (container: Self)
        ensures
            container@ == (ContainerView {
                radius: decoration.radius(),
                background: decoration.background(),
                ..self@
            }),
    {
        let mut container = self;
        container.decoration = decoration;
        container
    }
}

impl Widget for Vertical {
    open spec fn request(&self) -> Request {
        self@.request
    }

    open spec fn drawn(&self) -> Seq<LayerView> {
        self@.drawn()
    }

    open spec fn drawn_in(&self, rect: Option<Rect>) -> Seq<LayerView> {
        self@.drawn_in(Axis::Vertical, rect)
    }

    fn constraint(&self) -> (constraint: Constraint) {
        self.constraint
    }

    fn alignment(&self) -> (alignment: Alignment) {
        self.alignment
    }

    fn layout(&mut self, rect: Option<Rect>)
        ensures
            final(self)@.rect == rect,
            final(self)@.request == old(self)@.request,
            final(self)@.padding == old(self)@.padding,
            final(self)@.radius == old(self)@.radius,
            final(self)@.background == old(self)@.background,
            final(self)@.children.len() == old(self)@.children.len(),
            rect is None ==> final(self)@.children == old(self)@.children,
            rect is Some ==> forall|i: int|
                #![trigger old(self)@.children[i]]
                0 <= i < old(self)@.children.len() ==> settled(
                    old(self)@.children,
                    final(self)@.children,
                    i,
                    child_rect(
                        Axis::Vertical,
                        rect.unwrap().padded(old(self)@.padding),
                        requests_of(old(self)@.children),
                        i,
                    ),
                ),
    {
        self.rect = rect;
        if rect.is_none() {
            return ;
        }
        let inner_rect: Rect = rect.unwrap().subtract_padding(self.padding);
        layout_children(Axis::Vertical, &mut self.children, inner_rect);
        proof {
            let n = self.children@.len();
            lemma_drawn_by_settled(
                old(self).children@,
                self.children@,
                Axis::Vertical,
                inner_rect,
                n,
            );
            assert forall|r: Option<Rect>| #[trigger]
                self.drawn_in(r) == old(self).drawn_in(r) by {
                if let Some(at) = r {
                    lemma_drawn_by_in_same(
                        old(self).children@,
                        self.children@,
                        Axis::Vertical,
                        at.padded(self.padding),
                        n,
                    );
                }
            }
        }
    }

    fn render(&self, context: &mut Context) {
        if self.rect.is_none() {
            return ;
        }
        let rect: Rect = self.rect.unwrap();
        let mut layer = Layer::default();
        layer.push_rect(
            RectInstance::fill(
                [rect.left(), rect.top()],
                [rect.width(), rect.height()],
                self.decoration.border_radius,
                self.decoration.background_color,
            ),
        );
        context.push_layers(layer);
        render_children(&self.children, context);
    }
}

} // verus!

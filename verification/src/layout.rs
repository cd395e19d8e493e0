//! Geometry of the layout engine: rectangles, sizing constraints, padding and
//! alignment.
//!
//! A widget asks for space along one axis with a [`Constraint`]. The parent
//! resolves it with [`Constraint::calculate`] against the space it still has;
//! a result of zero means that the widget does not fit and is collapsed.

use vstd::prelude::*;

verus! {

/// An axis-aligned box in pixels.
#[derive(Debug, Clone, Copy, PartialEq, Eq, Structural)]
pub struct Rect {
    pub left: usize,
    pub top: usize,
    pub width: usize,
    pub height: usize,
}

/// Start and extent of a span once `lead` and `trail` pixels have been taken
/// off its two ends. A span that cannot hold both insets collapses to a point
/// at its midline.
pub open spec fn inset_start(start: int, extent: int, lead: int, trail: int) -> int {
    if lead + trail < extent {
        start + lead
    } else {
        start + extent / 2
    }
}

/// Extent that goes with [`inset_start`].
pub open spec fn inset_extent(extent: int, lead: int, trail: int) -> int {
    if lead + trail < extent {
        extent - lead - trail
    } else {
        0
    }
}

impl Rect {
    /// The far edges are representable: `right()` and `bottom()` do not
    /// overflow.
    pub open spec fn wf(&self) -> bool {
        &&& self.left + self.width <= usize::MAX
        &&& self.top + self.height <= usize::MAX
    }

    /// `inner` lies inside `self`.
    pub open spec fn contains(&self, inner: Rect) -> bool {
        &&& self.left <= inner.left
        &&& inner.left + inner.width <= self.left + self.width
        &&& self.top <= inner.top
        &&& inner.top + inner.height <= self.top + self.height
    }

    /// The rectangle left once `padding` has been taken off the four sides.
    /// Left and right insets are resolved against the width, top and bottom
    /// insets against the height, each as if it had the whole side to itself.
    pub open spec fn padded(&self, padding: Padding) -> Rect {
        let left = padding.left.resolve(self.width as int, self.width as int);
        let right = padding.right.resolve(self.width as int, self.width as int);
        let top = padding.top.resolve(self.height as int, self.height as int);
        let bottom = padding.bottom.resolve(self.height as int, self.height as int);
        Rect {
            left: inset_start(self.left as int, self.width as int, left, right) as usize,
            top: inset_start(self.top as int, self.height as int, top, bottom) as usize,
            width: inset_extent(self.width as int, left, right) as usize,
            height: inset_extent(self.height as int, top, bottom) as usize,
        }
    }

    pub fn new(left: usize, top: usize, width: usize, height: usize) -> (rect: Self)
        ensures
            rect == (Rect { left, top, width, height }),
    {
        Self { left, top, width, height }
    }

    pub fn left(&self) -> (x: usize)
        ensures
            x == self.left,
    {
        self.left
    }

    pub fn right(&self) -> (x: usize)
        requires
            self.left + self.width <= usize::MAX,
        ensures
            x == self.left + self.width,
    {
        self.left + self.width
    }

    pub fn top(&self) -> (y: usize)
        ensures
            y == self.top,
    {
        self.top
    }

    pub fn bottom(&self) -> (y: usize)
        requires
            self.top + self.height <= usize::MAX,
        ensures
            y == self.top + self.height,
    {
        self.top + self.height
    }

    pub fn width(&self) -> (w: usize)
        ensures
            w == self.width,
    {
        self.width
    }

    pub fn height(&self) -> (h: usize)
        ensures
            h == self.height,
    {
        self.height
    }

    /// Takes `padding` off the four sides. Where the two insets of an axis
    /// leave nothing, the rectangle collapses on that axis to zero size at
    /// its midline.
    pub fn subtract_padding(&self, padding: Padding) -> (inner: Rect)
        requires
            self.wf(),
        ensures
            inner == self.padded(padding),
            inner.left == inset_start(
                self.left as int,
                self.width as int,
                padding.left.resolve(self.width as int, self.width as int),
                padding.right.resolve(self.width as int, self.width as int),
            ),
            inner.width == inset_extent(
                self.width as int,
                padding.left.resolve(self.width as int, self.width as int),
                padding.right.resolve(self.width as int, self.width as int),
            ),
            inner.top == inset_start(
                self.top as int,
                self.height as int,
                padding.top.resolve(self.height as int, self.height as int),
                padding.bottom.resolve(self.height as int, self.height as int),
            ),
            inner.height == inset_extent(
                self.height as int,
                padding.top.resolve(self.height as int, self.height as int),
                padding.bottom.resolve(self.height as int, self.height as int),
            ),
            self.contains(inner),
            inner.wf(),
    {
        let left: usize = padding.left.calculate(self.width, self.width);
        let right: usize = padding.right.calculate(self.width, self.width);
        let top: usize = padding.top.calculate(self.height, self.height);
        let bottom: usize = padding.bottom.calculate(self.height, self.height);
        proof {
            padding.left.lemma_resolve_bounds(self.width as int, self.width as int);
            padding.right.lemma_resolve_bounds(self.width as int, self.width as int);
            padding.top.lemma_resolve_bounds(self.height as int, self.height as int);
            padding.bottom.lemma_resolve_bounds(self.height as int, self.height as int);
        }
        let mut rect = *self;
        if left < self.width - right {
            rect.left = self.left + left;
            rect.width = self.width - left - right;
        } else {
            rect.left = self.left + self.width / 2;
            rect.width = 0;
        }
        if top < self.height - bottom {
            rect.top = self.top + top;
            rect.height = self.height - top - bottom;
        } else {
            rect.top = self.top + self.height / 2;
            rect.height = 0;
        }
        rect
    }
}

impl Default for Rect {
    fn default() -> (rect: Self)
        ensures
            rect == (Rect { left: 0, top: 0, width: 0, height: 0 }),
    {
        Self { left: 0, top: 0, width: 0, height: 0 }
    }
}

/// A size request: so many pixels, or so many hundredths of the parent.
#[derive(Debug, Clone, Copy, PartialEq, Eq, Structural)]
pub enum Unit {
    Pixel(usize),
    Percent(usize),
}

/// A widget's size request along one axis together with its bounds.
///
/// `min <= max` is expected and not enforced.
#[derive(Debug, Clone, Copy, PartialEq, Eq, Structural)]
pub struct Constraint {
    size: Unit,
    max: usize,
    min: usize,
}

/// `size` held between `min` and `max`; the upper bound is tested first.
pub open spec fn clamped(size: int, min: int, max: int) -> int {
    if size > max {
        max
    } else if size < min {
        min
    } else {
        size
    }
}

/// What a widget that wants `wanted` pixels and accepts no fewer than `min`
/// receives out of `space`: its wish if that fits, else all of `space` if that
/// is at least `min`, else nothing.
pub open spec fn fitted(wanted: int, min: int, space: int) -> int {
    if wanted <= space {
        wanted
    } else if min <= space {
        space
    } else {
        0
    }
}

impl Constraint {
    /// The requested size.
    pub closed spec fn size(&self) -> Unit {
        self.size
    }

    /// The upper bound of a proportional request.
    pub closed spec fn max(&self) -> usize {
        self.max
    }

    /// The least size the widget accepts.
    pub closed spec fn min(&self) -> usize {
        self.min
    }

    /// The constraint is what `pixel(size, min)` builds.
    pub open spec fn is_pixel_of(&self, size: usize, min: usize) -> bool {
        &&& self.size() == Unit::Pixel(size)
        &&& self.max() == size
        &&& self.min() == min
    }

    /// The constraint is what `percent(percent, max, min)` builds.
    pub open spec fn is_percent_of(&self, percent: usize, max: usize, min: usize) -> bool {
        &&& self.size() == Unit::Percent(percent)
        &&& self.max() == max
        &&& self.min() == min
    }

    /// The size wished for under a parent of `parent` pixels, before the
    /// space at hand is looked at. The division truncates.
    pub open spec fn wanted(&self, parent: int) -> int {
        match self.size() {
            Unit::Pixel(pixel) => pixel as int,
            Unit::Percent(percent) => clamped(
                parent * percent / 100,
                self.min() as int,
                self.max() as int,
            ),
        }
    }

    /// The size granted under a parent of `parent` pixels when `space` pixels
    /// are left. Zero means that the widget is collapsed.
    pub open spec fn resolve(&self, parent: int, space: int) -> int {
        fitted(self.wanted(parent), self.min() as int, space)
    }

    /// A grant never exceeds the space at hand.
    pub proof fn lemma_resolve_bounds(&self, parent: int, space: int)
        requires
            0 <= space,
        ensures
            0 <= self.resolve(parent, space) <= space,
    {
    }

    /// A fixed request of `size` pixels that may shrink down to `min`. The
    /// size is its own upper bound.
    pub fn pixel(size: usize, min: usize) -> (constraint: Self)
        ensures
            constraint.is_pixel_of(size, min),
    {
        Self { size: Unit::Pixel(size), max: size, min }
    }

    /// A request of `percent` hundredths of the parent, held between `min`
    /// and `max`.
    pub fn percent(percent: usize, max: usize, min: usize) -> (constraint: Self)
        ensures
            constraint.is_percent_of(percent, max, min),
    {
        Self { size: Unit::Percent(percent), max, min }
    }

    /// Resolves the request against a parent of `parent` pixels with `space`
    /// pixels left.
    pub fn calculate(&self, parent: usize, space: usize) -> (granted: usize)
        ensures
            granted == self.resolve(parent as int, space as int),
            granted <= space,
    {
        match self.size {
            Unit::Pixel(pixel) => {
                if pixel <= space {
                    pixel
                } else if self.min <= space {
                    space
                } else {
                    0
                }
            },
            Unit::Percent(percent) => {
                assert(parent * percent <= u128::MAX) by (nonlinear_arith)
                    requires
                        parent <= u64::MAX,
                        percent <= u64::MAX,
                ;
                let share: u128 = (parent as u128) * (percent as u128) / 100;
                let size: usize = if share > self.max as u128 {
                    self.max
                } else if share < self.min as u128 {
                    self.min
                } else {
                    share as usize
                };
                if size <= space {
                    size
                } else if self.min <= space {
                    space
                } else {
                    0
                }
            },
        }
    }

    /// Whether the request is in pixels.
    pub fn has_pixel(&self) -> (yes: bool)
        ensures
            yes == (self.size() is Pixel),
    {
        match self.size {
            Unit::Pixel(_) => true,
            _ => false,
        }
    }

    /// Whether the request is proportional.
    pub fn has_percent(&self) -> (yes: bool)
        ensures
            yes == (self.size() is Percent),
    {
        match self.size {
            Unit::Percent(_) => true,
            _ => false,
        }
    }
}

/// The edge of the remaining space at which a child is placed.
#[derive(Debug, Clone, Copy, PartialEq, Eq, Structural)]
pub enum Alignment {
    Start,
    End,
}

/// Insets on the four sides of a container.
#[derive(Debug, Clone, Copy, PartialEq, Eq, Structural)]
pub struct Padding {
    pub left: Constraint,
    pub right: Constraint,
    pub top: Constraint,
    pub bottom: Constraint,
}

impl Padding {
    /// No inset on any side.
    pub open spec fn is_zero(&self) -> bool {
        &&& self.left.is_pixel_of(0, 0)
        &&& self.right.is_pixel_of(0, 0)
        &&& self.top.is_pixel_of(0, 0)
        &&& self.bottom.is_pixel_of(0, 0)
    }
}

impl Default for Padding {
    fn default() -> (padding: Self)
        ensures
            padding.is_zero(),
    {
        Self {
            left: Constraint::pixel(0, 0),
            right: Constraint::pixel(0, 0),
            top: Constraint::pixel(0, 0),
            bottom: Constraint::pixel(0, 0),
        }
    }
}

} // verus!

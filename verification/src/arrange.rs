//! How a container shares its primary axis among its children.
//!
//! The children are served in two passes, each in declaration order: first
//! those that ask for pixels, then those that ask for a share. The share is
//! taken of what the first pass left over, so that fixed children reserve
//! their room before anything is divided. A [`Track`] is the room that is
//! still free; a child that is granted nothing is collapsed and leaves the
//! track as it was.

use crate::layout::{Alignment, Constraint, Rect};
use vstd::prelude::*;

verus! {

/// The axis along which a container lines up its children.
#[derive(Debug, Clone, Copy, PartialEq, Eq, Structural)]
pub enum Axis {
    Horizontal,
    Vertical,
}

/// What a child asks of its parent.
pub struct Request {
    pub constraint: Constraint,
    pub alignment: Alignment,
}

/// The free stretch of the primary axis: it begins at `cursor` and is `space`
/// pixels long.
pub struct Track {
    pub cursor: int,
    pub space: int,
}

/// The stretch given to one child.
pub struct Slot {
    pub offset: int,
    pub size: int,
}

impl Request {
    /// Whether the request is served in the proportional pass (`true`) or in
    /// the pixel pass (`false`).
    pub open spec fn in_pass(self, percent: bool) -> bool {
        (self.constraint.size() is Percent) == percent
    }
}

impl Track {
    /// The size granted to `request` from this track.
    pub open spec fn grant(self, request: Request, parent: int) -> int {
        request.constraint.resolve(parent, self.space)
    }

    /// The stretch that `request` receives, or `None` where it is granted
    /// nothing. A child aligned to the start sits at the cursor; one aligned
    /// to the end takes the last pixels of the free stretch.
    pub open spec fn slot(self, request: Request, parent: int) -> Option<Slot> {
        let size = self.grant(request, parent);
        if size > 0 {
            Some(
                Slot {
                    offset: match request.alignment {
                        Alignment::Start => self.cursor,
                        Alignment::End => self.cursor + self.space - size,
                    },
                    size,
                },
            )
        } else {
            None
        }
    }

    /// The track once `request` has been served. The free stretch shrinks by
    /// the grant; the cursor moves on only past a child aligned to the start.
    pub open spec fn after(self, request: Request, parent: int) -> Track {
        let size = self.grant(request, parent);
        Track {
            cursor: match request.alignment {
                Alignment::Start => self.cursor + size,
                Alignment::End => self.cursor,
            },
            space: self.space - size,
        }
    }
}

/// The track once the first `n` requests have been looked at in one pass,
/// starting from `from`. Requests of the other pass are stepped over.
pub open spec fn pass(requests: Seq<Request>, percent: bool, parent: int, from: Track, n: nat)
    -> Track
    decreases n,
{
    if n == 0 {
        from
    } else {
        let before = pass(requests, percent, parent, from, (n - 1) as nat);
        if requests[n - 1].in_pass(percent) {
            before.after(requests[n - 1], parent)
        } else {
            before
        }
    }
}

/// The track that the pixel pass leaves to the proportional pass.
pub open spec fn after_pixels(requests: Seq<Request>, start: int, extent: int) -> Track {
    pass(requests, false, extent, Track { cursor: start, space: extent }, requests.len())
}

/// The size of which child `i` takes its share: the whole extent for a pixel
/// request, what the pixel pass left over for a proportional one.
pub open spec fn parent_of(requests: Seq<Request>, start: int, extent: int, i: int) -> int {
    if requests[i].in_pass(false) {
        extent
    } else {
        after_pixels(requests, start, extent).space
    }
}

/// The track from which child `i` is served.
pub open spec fn track_of(requests: Seq<Request>, start: int, extent: int, i: int) -> Track {
    if requests[i].in_pass(false) {
        pass(requests, false, extent, Track { cursor: start, space: extent }, i as nat)
    } else {
        let rest = after_pixels(requests, start, extent);
        pass(requests, true, rest.space, rest, i as nat)
    }
}

/// The stretch of the axis `[start, start + extent)` that child `i` receives,
/// or `None` where it is collapsed.
pub open spec fn placement(requests: Seq<Request>, start: int, extent: int, i: int) -> Option<
    Slot,
> {
    track_of(requests, start, extent, i).slot(
        requests[i],
        parent_of(requests, start, extent, i),
    )
}

/// The pixels given to child `i`; zero where it is collapsed.
pub open spec fn granted(requests: Seq<Request>, start: int, extent: int, i: int) -> int {
    match placement(requests, start, extent, i) {
        Some(slot) => slot.size,
        None => 0,
    }
}

/// The pixels given to those of the first `n` children that are served in the
/// given pass.
pub open spec fn granted_in_pass(
    requests: Seq<Request>,
    start: int,
    extent: int,
    percent: bool,
    n: nat,
) -> int
    decreases n,
{
    if n == 0 {
        0
    } else {
        granted_in_pass(requests, start, extent, percent, (n - 1) as nat) + if requests[n
            - 1].in_pass(percent) {
            granted(requests, start, extent, n - 1)
        } else {
            0
        }
    }
}

/// The rectangle of a child that received `slot` inside `inner`: the slot
/// along the primary axis, all of `inner` across it.
pub open spec fn slot_rect(axis: Axis, inner: Rect, slot: Slot) -> Rect {
    match axis {
        Axis::Horizontal => Rect {
            left: slot.offset as usize,
            width: slot.size as usize,
            top: inner.top,
            height: inner.height,
        },
        Axis::Vertical => Rect {
            top: slot.offset as usize,
            height: slot.size as usize,
            left: inner.left,
            width: inner.width,
        },
    }
}

/// Where the primary axis of `inner` begins.
pub open spec fn primary_start(axis: Axis, inner: Rect) -> int {
    match axis {
        Axis::Horizontal => inner.left as int,
        Axis::Vertical => inner.top as int,
    }
}

/// How long the primary axis of `inner` is.
pub open spec fn primary_extent(axis: Axis, inner: Rect) -> int {
    match axis {
        Axis::Horizontal => inner.width as int,
        Axis::Vertical => inner.height as int,
    }
}

/// The rectangle that child `i` is laid out with inside `inner`, or `None`
/// where it is collapsed.
pub open spec fn child_rect(axis: Axis, inner: Rect, requests: Seq<Request>, i: int) -> Option<
    Rect,
> {
    match placement(requests, primary_start(axis, inner), primary_extent(axis, inner), i) {
        Some(slot) => Some(slot_rect(axis, inner, slot)),
        None => None,
    }
}

/// A pass only ever takes from the free stretch: the stretch stays inside
/// the one it started from, and what is gone from it is what the pass gave
/// out.
pub proof fn lemma_pass_shrinks(
    requests: Seq<Request>,
    percent: bool,
    parent: int,
    from: Track,
    n: nat,
)
    requires
        0 <= from.space,
    ensures
        ({
            let to = pass(requests, percent, parent, from, n);
            &&& 0 <= to.space <= from.space
            &&& from.cursor <= to.cursor
            &&& to.cursor + to.space <= from.cursor + from.space
        }),
    decreases n,
{
    if n > 0 {
        lemma_pass_shrinks(requests, percent, parent, from, (n - 1) as nat);
        let before = pass(requests, percent, parent, from, (n - 1) as nat);
        requests[n - 1].constraint.lemma_resolve_bounds(parent, before.space);
    }
}

/// Every child that is placed lies inside the axis, and is not empty.
pub proof fn lemma_placement_inside(requests: Seq<Request>, start: int, extent: int, i: int)
    requires
        0 <= extent,
        0 <= i < requests.len(),
    ensures
        match placement(requests, start, extent, i) {
            Some(slot) => start <= slot.offset && 0 < slot.size && slot.offset + slot.size <= start
                + extent,
            None => true,
        },
{
    let whole = Track { cursor: start, space: extent };
    lemma_pass_shrinks(requests, false, extent, whole, requests.len());
    let rest = after_pixels(requests, start, extent);
    lemma_pass_shrinks(requests, false, extent, whole, i as nat);
    lemma_pass_shrinks(requests, true, rest.space, rest, i as nat);
    let track = track_of(requests, start, extent, i);
    requests[i].constraint.lemma_resolve_bounds(parent_of(requests, start, extent, i), track.space);
}

/// Every child that is placed lies inside the rectangle that the container
/// shares out, and fills it across the primary axis.
pub proof fn lemma_child_rect_inside(axis: Axis, inner: Rect, requests: Seq<Request>, i: int)
    requires
        inner.wf(),
        0 <= i < requests.len(),
    ensures
        match child_rect(axis, inner, requests, i) {
            Some(rect) => {
                &&& inner.contains(rect)
                &&& rect.wf()
                &&& match axis {
                    Axis::Horizontal => rect.top == inner.top && rect.height == inner.height
                        && rect.width > 0,
                    Axis::Vertical => rect.left == inner.left && rect.width == inner.width
                        && rect.height > 0,
                }
            },
            None => true,
        },
{
    lemma_placement_inside(requests, primary_start(axis, inner), primary_extent(axis, inner), i);
}

/// The further a pass has come, the less is free: the stretch after `n`
/// requests lies inside the stretch after the first `m` of them.
proof fn lemma_pass_nested(
    requests: Seq<Request>,
    percent: bool,
    parent: int,
    from: Track,
    m: nat,
    n: nat,
)
    requires
        0 <= from.space,
        m <= n,
    ensures
        ({
            let earlier = pass(requests, percent, parent, from, m);
            let later = pass(requests, percent, parent, from, n);
            &&& 0 <= later.space
            &&& earlier.cursor <= later.cursor
            &&& later.cursor + later.space <= earlier.cursor + earlier.space
        }),
    decreases n,
{
    if m < n {
        lemma_pass_nested(requests, percent, parent, from, m, (n - 1) as nat);
        let before = pass(requests, percent, parent, from, (n - 1) as nat);
        requests[n - 1].constraint.lemma_resolve_bounds(parent, before.space);
    } else {
        lemma_pass_shrinks(requests, percent, parent, from, m);
    }
}

/// Whether child `i` is served before child `j`: in the earlier pass, or
/// earlier in the same pass.
spec fn served_before(requests: Seq<Request>, i: int, j: int) -> bool {
    if requests[i].in_pass(false) == requests[j].in_pass(false) {
        i < j
    } else {
        requests[i].in_pass(false)
    }
}

/// A child that is served later lies in what the earlier child left free.
proof fn lemma_later_apart(requests: Seq<Request>, start: int, extent: int, i: int, j: int)
    requires
        0 <= extent,
        0 <= i < requests.len(),
        0 <= j < requests.len(),
        served_before(requests, i, j),
    ensures
        match (placement(requests, start, extent, i), placement(requests, start, extent, j)) {
            (Some(a), Some(b)) => a.offset + a.size <= b.offset || b.offset + b.size <= a.offset,
            _ => true,
        },
{
    let whole = Track { cursor: start, space: extent };
    let rest = after_pixels(requests, start, extent);
    let n = requests.len();
    let parent = parent_of(requests, start, extent, i);
    let track = track_of(requests, start, extent, i);
    let later = track_of(requests, start, extent, j);
    lemma_pass_shrinks(requests, false, extent, whole, n);
    if requests[i].in_pass(false) {
        lemma_pass_shrinks(requests, false, extent, whole, i as nat);
        if requests[j].in_pass(false) {
            lemma_pass_nested(requests, false, extent, whole, (i + 1) as nat, j as nat);
        } else {
            lemma_pass_nested(requests, false, extent, whole, (i + 1) as nat, n);
            lemma_pass_shrinks(requests, true, rest.space, rest, j as nat);
        }
    } else {
        lemma_pass_shrinks(requests, true, rest.space, rest, i as nat);
        lemma_pass_nested(requests, true, rest.space, rest, (i + 1) as nat, j as nat);
    }
    requests[i].constraint.lemma_resolve_bounds(parent, track.space);
    requests[j].constraint.lemma_resolve_bounds(
        parent_of(requests, start, extent, j),
        later.space,
    );
}

/// No two children overlap: of any two that are placed, one ends where the
/// other begins or before.
pub proof fn lemma_placements_apart(requests: Seq<Request>, start: int, extent: int, i: int, j: int)
    requires
        0 <= extent,
        0 <= i < requests.len(),
        0 <= j < requests.len(),
        i != j,
    ensures
        match (placement(requests, start, extent, i), placement(requests, start, extent, j)) {
            (Some(a), Some(b)) => a.offset + a.size <= b.offset || b.offset + b.size <= a.offset,
            _ => true,
        },
{
    if served_before(requests, i, j) {
        lemma_later_apart(requests, start, extent, i, j);
    } else {
        lemma_later_apart(requests, start, extent, j, i);
    }
}

/// What one pass gives to the first `n` children is what is gone from the
/// free stretch after them.
proof fn lemma_pass_accounts(requests: Seq<Request>, start: int, extent: int, percent: bool, n: nat)
    requires
        n <= requests.len(),
    ensures
        ({
            let whole = Track { cursor: start, space: extent };
            let rest = after_pixels(requests, start, extent);
            if percent {
                pass(requests, true, rest.space, rest, n).space == rest.space - granted_in_pass(
                    requests,
                    start,
                    extent,
                    true,
                    n,
                )
            } else {
                pass(requests, false, extent, whole, n).space == extent - granted_in_pass(
                    requests,
                    start,
                    extent,
                    false,
                    n,
                )
            }
        }),
    decreases n,
{
    if n > 0 {
        lemma_pass_accounts(requests, start, extent, percent, (n - 1) as nat);
    }
}

/// The pixels given to the children of the pixel pass and to those of the
/// proportional pass together never exceed the extent of the axis.
pub proof fn lemma_space_conserved(requests: Seq<Request>, start: int, extent: int)
    requires
        0 <= extent,
    ensures
        0 <= granted_in_pass(requests, start, extent, false, requests.len()),
        0 <= granted_in_pass(requests, start, extent, true, requests.len()),
        granted_in_pass(requests, start, extent, false, requests.len()) + granted_in_pass(
            requests,
            start,
            extent,
            true,
            requests.len(),
        ) <= extent,
{
    let whole = Track { cursor: start, space: extent };
    let rest = after_pixels(requests, start, extent);
    lemma_pass_accounts(requests, start, extent, false, requests.len());
    lemma_pass_accounts(requests, start, extent, true, requests.len());
    lemma_pass_shrinks(requests, false, extent, whole, requests.len());
    lemma_pass_shrinks(requests, true, rest.space, rest, requests.len());
}

/// Serves one child from the free stretch `[*start, *start + *space)` and
/// returns the offset and size of its slot, or `None` where it is collapsed.
pub fn place(
    constraint: Constraint,
    alignment: Alignment,
    parent: usize,
    start: &mut usize,
    space: &mut usize,
) -> (slot: Option<(usize, usize)>)
    requires
        *old(start) + *old(space) <= usize::MAX,
    ensures
        ({
            let request = Request { constraint, alignment };
            let track = Track { cursor: *old(start) as int, space: *old(space) as int };
            &&& (Track { cursor: *final(start) as int, space: *final(space) as int })
                == track.after(request, parent as int)
            &&& match track.slot(request, parent as int) {
                Some(s) => slot == Some((s.offset as usize, s.size as usize)) && s.offset
                    + s.size <= *old(start) + *old(space),
                None => slot is None,
            }
        }),
{
    let size: usize = constraint.calculate(parent, *space);
    if size > 0 {
        let offset: usize = match alignment {
            Alignment::Start => {
                let at: usize = *start;
                *start = *start + size;
                at
            },
            Alignment::End => *start + *space - size,
        };
        *space = *space - size;
        Some((offset, size))
    } else {
        None
    }
}

} // verus!

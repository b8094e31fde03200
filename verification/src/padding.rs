use vstd::prelude::*;

use crate::attribs::AttributeStorage;
use crate::attribs::WidgetId;
use crate::constraints::clamp;
use crate::constraints::sat_add;
use crate::constraints::Constraints;
use crate::geometry::Size;

verus! {

/// Cell counts taken off each edge of the child's space.
#[derive(Debug, Default, Clone, Copy, PartialEq, Eq, Structural)]
pub struct PaddingValues {
    pub top: u16,
    pub right: u16,
    pub bottom: u16,
    pub left: u16,
}

impl PaddingValues {
    /// The total padding on each axis, as a size.
    pub fn size(&self) -> (s: Size)
        ensures
            s.width == self.left + self.right,
            s.height == self.top + self.bottom,
    {
        Size {
            width: self.left as usize + self.right as usize,
            height: self.top as usize + self.bottom as usize,
        }
    }
}

/// A widget that takes its padding off the envelope it hands its child, adds
/// it back onto the child's size, and clamps the result into the envelope it
/// received.
#[derive(Debug, Default)]
pub struct Padding(pub PaddingValues);

/// The attribute under `key` as a `u16` edge width, or `default` when it is
/// missing or out of range.
pub open spec fn spec_edge_attr(
    storage: AttributeStorage,
    id: WidgetId,
    key: Seq<char>,
    default: u16,
) -> u16 {
    match storage.attr_int(id, key) {
        Some(n) => if 0 <= n <= u16::MAX {
            n as u16
        } else {
            default
        },
        None => default,
    }
}

/// The four resolved padding values: each specific side overrides the
/// general `padding` value, which defaults to zero.
pub open spec fn spec_padding_values(storage: AttributeStorage, id: WidgetId) -> PaddingValues {
    let general = spec_edge_attr(storage, id, "padding"@, 0);
    PaddingValues {
        top: spec_edge_attr(storage, id, "padding-top"@, general),
        right: spec_edge_attr(storage, id, "padding-right"@, general),
        bottom: spec_edge_attr(storage, id, "padding-bottom"@, general),
        left: spec_edge_attr(storage, id, "padding-left"@, general),
    }
}

/// The padded size: the child's size (zero without a child) plus the total
/// padding, clamped into the received envelope.
pub open spec fn spec_padding_reduce(child: Option<Size>, v: PaddingValues, c: Constraints) -> Size {
    let base = match child {
        Some(s) => Size {
            width: vstd::math::min(s.width + v.left + v.right, usize::MAX as int) as usize,
            height: vstd::math::min(s.height + v.top + v.bottom, usize::MAX as int) as usize,
        },
        None => Size { width: 0, height: 0 },
    };
    Size {
        width: clamp(base.width as int, c.min_width as int, c.max_width as int) as usize,
        height: clamp(base.height as int, c.min_height as int, c.max_height as int) as usize,
    }
}

impl Padding {
    /// Resolve the four padding attributes.
    pub fn read_values(&mut self, storage: &AttributeStorage, id: WidgetId)
        ensures
            final(self).0 == spec_padding_values(*storage, id),
    {
        let general = edge_attr(storage, id, "padding", 0);
        self.0 = PaddingValues {
            top: edge_attr(storage, id, "padding-top", general),
            right: edge_attr(storage, id, "padding-right", general),
            bottom: edge_attr(storage, id, "padding-bottom", general),
            left: edge_attr(storage, id, "padding-left", general),
        };
    }

    /// The envelope the child gets: the received one with the total padding
    /// taken off the maxima, floored at the minima.
    pub fn child_constraints(&self, constraints: Constraints) -> (c: Constraints)
        requires
            constraints.wf(),
        ensures
            c.wf(),
            c.within(constraints),
            c.max_width == vstd::math::max(
                constraints.min_width as int,
                constraints.max_width - (self.0.left + self.0.right),
            ),
            c.max_height == vstd::math::max(
                constraints.min_height as int,
                constraints.max_height - (self.0.top + self.0.bottom),
            ),
            c.min_width == constraints.min_width,
            c.min_height == constraints.min_height,
    {
        let pad = self.0.size();
        let mut c = constraints;
        c.sub_max_width(pad.width);
        c.sub_max_height(pad.height);
        c
    }

    /// Add the padding back onto the child's size and clamp into the
    /// received envelope.
    pub fn reduce(&self, child: Option<Size>, constraints: Constraints) -> (s: Size)
        requires
            constraints.wf(),
        ensures
            s == spec_padding_reduce(child, self.0, constraints),
            constraints.spec_contains(s),
    {
        let pad = self.0.size();
        let base = match child {
            Some(inner) => Size {
                width: sat_add(inner.width, pad.width),
                height: sat_add(inner.height, pad.height),
            },
            None => Size { width: 0, height: 0 },
        };
        Size {
            width: crate::constraints::clamp_usize(
                base.width,
                constraints.min_width,
                constraints.max_width,
            ),
            height: crate::constraints::clamp_usize(
                base.height,
                constraints.min_height,
                constraints.max_height,
            ),
        }
    }
}

/// Padding is additive: when the padded size fits the envelope, a child of
/// size `(w, h)` under padding `(top, right, bottom, left)` yields exactly
/// `(w + left + right, h + top + bottom)`.
pub proof fn lemma_padding_additive(child: Size, v: PaddingValues, c: Constraints)
    requires
        c.wf(),
        c.min_width <= child.width + v.left + v.right <= c.max_width,
        c.min_height <= child.height + v.top + v.bottom <= c.max_height,
    ensures
        spec_padding_reduce(Some(child), v, c) == (Size {
            width: (child.width + v.left + v.right) as usize,
            height: (child.height + v.top + v.bottom) as usize,
        }),
{
}

/// Resolve one edge attribute, falling back to `default` when it is missing
/// or out of the `u16` range.
fn edge_attr(storage: &AttributeStorage, id: WidgetId, key: &str, default: u16) -> (r: u16)
    ensures
        r == spec_edge_attr(*storage, id, key@, default),
{
    match storage.get_int(id, key) {
        Some(n) => if 0 <= n && n <= u16::MAX as i64 {
            n as u16
        } else {
            default
        },
        None => default,
    }
}

/// The global position a padding widget hands its child: its own position
/// pushed right by the left padding and down by the top padding, capped at
/// the `i32` range.
pub open spec fn spec_padding_child_pos(pos: crate::geometry::Pos, v: PaddingValues) -> crate::geometry::Pos {
    crate::geometry::Pos {
        x: vstd::math::min(pos.x + v.left, i32::MAX as int) as i32,
        y: vstd::math::min(pos.y + v.top, i32::MAX as int) as i32,
    }
}

impl Padding {
    /// Where the child goes during the position pass.
    pub fn child_pos(&self, pos: crate::geometry::Pos) -> (r: crate::geometry::Pos)
        ensures
            r == spec_padding_child_pos(pos, self.0),
    {
        crate::geometry::Pos {
            x: crate::position::offset_coord(pos.x, self.0.left as u32),
            y: crate::position::offset_coord(pos.y, self.0.top as u32),
        }
    }
}

/// Within the `i32` range, a padded child sits exactly `(left, top)` below
/// and to the right of the padding widget's own position.
pub proof fn lemma_padding_offsets(pos: crate::geometry::Pos, v: PaddingValues)
    requires
        pos.x + v.left <= i32::MAX,
        pos.y + v.top <= i32::MAX,
    ensures
        spec_padding_child_pos(pos, v) == (crate::geometry::Pos {
            x: (pos.x + v.left) as i32,
            y: (pos.y + v.top) as i32,
        }),
{
}

} // verus!

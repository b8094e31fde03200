use vstd::prelude::*;

use crate::attribs::AttributeStorage;
use crate::attribs::CommonVal;
use crate::attribs::WidgetId;
use crate::constraints::sat_add;
use crate::constraints::sat_sub;
use crate::constraints::Constraints;
use crate::geometry::Pos;
use crate::geometry::Size;

verus! {

/// Which horizontal edge the child is pinned to, with its offset.
#[derive(Debug, Copy, Clone, PartialEq, Eq, Structural)]
pub enum HorzEdge {
    Left(u32),
    Right(u32),
}

/// Which vertical edge the child is pinned to, with its offset.
#[derive(Debug, Copy, Clone, PartialEq, Eq, Structural)]
pub enum VertEdge {
    Top(u32),
    Bottom(u32),
}

/// Whether offsets apply to the inherited position or to the viewport
/// origin.
#[derive(Debug, Default, Copy, Clone, PartialEq, Eq, Structural)]
pub enum Placement {
    /// The widget is positioned relative to its parent.
    #[default]
    Relative,
    /// The widget is positioned against the viewport.
    Absolute,
}

impl Placement {
    /// Read a placement from an attribute value: the strings `relative` and
    /// `absolute` and nothing else.
    pub fn try_from(value: &CommonVal) -> (r: Result<Placement, ()>)
        ensures
            match r {
                Ok(p) => (value matches CommonVal::Str(s) && (s@ == "relative"@ || s@
                    == "absolute"@)) && (p == Placement::Absolute <==> (
                value matches CommonVal::Str(s) && s@ == "absolute"@)),
                Err(_) => !(value matches CommonVal::Str(s) && (s@ == "relative"@ || s@
                    == "absolute"@)),
            },
    {
        proof {
            reveal_strlit("relative");
            reveal_strlit("absolute");
            assert("relative"@.len() == 8);
            assert("absolute"@.len() == 8);
            assert("relative"@[0] == 'r');
            assert("absolute"@[0] == 'a');
            assert("relative"@ != "absolute"@);
        }
        match value {
            CommonVal::Str(s) => {
                if crate::attribs::str_eq(s.as_str(), "relative") {
                    Ok(Placement::Relative)
                } else if crate::attribs::str_eq(s.as_str(), "absolute") {
                    Ok(Placement::Absolute)
                } else {
                    Err(())
                }
            },
            _ => Err(()),
        }
    }
}

/// A floating widget: its child is laid out against the inherited envelope
/// (or the whole viewport under absolute placement) and then positioned
/// against a chosen edge, escaping the normal flow.
#[derive(Debug, Clone, Copy, PartialEq, Eq, Structural)]
pub struct Position {
    pub horz_edge: HorzEdge,
    pub vert_edge: VertEdge,
    pub placement: Placement,
}

impl Default for Position {
    /// Pinned to the top-left corner with no offset, relative placement.
    fn default() -> (r: Position)
        ensures
            r.horz_edge == HorzEdge::Left(0),
            r.vert_edge == VertEdge::Top(0),
            r.placement == Placement::Relative,
    {
        Position {
            horz_edge: HorzEdge::Left(0),
            vert_edge: VertEdge::Top(0),
            placement: Placement::Relative,
        }
    }
}

/// The resolved placement attribute: absolute exactly when the `placement`
/// attribute holds the string `absolute`; anything else falls back to
/// relative.
pub open spec fn spec_placement(storage: AttributeStorage, id: WidgetId) -> Placement {
    if storage.attr_str(id, "placement"@) == Some("absolute"@) {
        Placement::Absolute
    } else {
        Placement::Relative
    }
}

/// The resolved horizontal edge: `left` wins over `right`, a missing or
/// negative or oversized offset falls back to `Left(0)`.
pub open spec fn spec_horz_edge(storage: AttributeStorage, id: WidgetId) -> HorzEdge {
    match storage.attr_int(id, "left"@) {
        Some(n) => if 0 <= n <= u32::MAX {
            HorzEdge::Left(n as u32)
        } else {
            HorzEdge::Left(0)
        },
        None => match storage.attr_int(id, "right"@) {
            Some(n) => if 0 <= n <= u32::MAX {
                HorzEdge::Right(n as u32)
            } else {
                HorzEdge::Left(0)
            },
            None => HorzEdge::Left(0),
        },
    }
}

/// The resolved vertical edge: `top` wins over `bottom`, with the same
/// fallback to `Top(0)`.
pub open spec fn spec_vert_edge(storage: AttributeStorage, id: WidgetId) -> VertEdge {
    match storage.attr_int(id, "top"@) {
        Some(n) => if 0 <= n <= u32::MAX {
            VertEdge::Top(n as u32)
        } else {
            VertEdge::Top(0)
        },
        None => match storage.attr_int(id, "bottom"@) {
            Some(n) => if 0 <= n <= u32::MAX {
                VertEdge::Bottom(n as u32)
            } else {
                VertEdge::Top(0)
            },
            None => VertEdge::Top(0),
        },
    }
}

/// The size a position widget reports: the child's size pushed out by the
/// offset on a pinned near edge, or the envelope's extent minus the offset
/// on a pinned far edge; sums and differences saturate at the `usize` range.
pub open spec fn spec_position_reduce(p: Position, child: Size, used: Constraints) -> Size {
    Size {
        width: match p.horz_edge {
            HorzEdge::Left(l) => vstd::math::min(child.width + l, usize::MAX as int) as usize,
            HorzEdge::Right(r) => vstd::math::max(used.max_width - r, 0) as usize,
        },
        height: match p.vert_edge {
            VertEdge::Top(t) => vstd::math::min(child.height + t, usize::MAX as int) as usize,
            VertEdge::Bottom(b) => vstd::math::max(used.max_height - b, 0) as usize,
        },
    }
}

/// The global position a position widget gives its child. Under absolute
/// placement the inherited position is discarded and offsets apply from the
/// viewport origin; offsets saturate at the `i32` range.
pub open spec fn spec_position_child_pos(
    p: Position,
    inherited: Pos,
    inner_size: Size,
    child_size: Size,
) -> Pos {
    let base = if p.placement == Placement::Absolute {
        Pos { x: 0, y: 0 }
    } else {
        inherited
    };
    Pos {
        x: match p.horz_edge {
            HorzEdge::Left(l) => vstd::math::min(base.x + l, i32::MAX as int) as i32,
            HorzEdge::Right(r) => vstd::math::min(
                vstd::math::max(inner_size.width - child_size.width - r, 0),
                i32::MAX as int,
            ) as i32,
        },
        y: match p.vert_edge {
            VertEdge::Top(t) => vstd::math::min(base.y + t, i32::MAX as int) as i32,
            VertEdge::Bottom(b) => vstd::math::min(
                vstd::math::max(inner_size.height - child_size.height - b, 0),
                i32::MAX as int,
            ) as i32,
        },
    }
}

impl Position {
    /// Position widgets float: the paint pass defers them to a later layer.
    pub fn floats(&self) -> (r: bool)
        ensures
            r,
    {
        true
    }

    /// Resolve placement and both edges from the widget's attributes.
    pub fn read_attrs(&mut self, storage: &AttributeStorage, id: WidgetId)
        ensures
            final(self).placement == spec_placement(*storage, id),
            final(self).horz_edge == spec_horz_edge(*storage, id),
            final(self).vert_edge == spec_vert_edge(*storage, id),
    {
        self.placement = match storage.get_str(id, "placement") {
            Some(s) => {
                if crate::attribs::str_eq(s.as_str(), "absolute") {
                    Placement::Absolute
                } else {
                    Placement::Relative
                }
            },
            None => Placement::Relative,
        };
        self.horz_edge = match storage.get_int(id, "left") {
            Some(left) => {
                if 0 <= left && left <= u32::MAX as i64 {
                    HorzEdge::Left(left as u32)
                } else {
                    HorzEdge::Left(0)
                }
            },
            None => match storage.get_int(id, "right") {
                Some(right) => {
                    if 0 <= right && right <= u32::MAX as i64 {
                        HorzEdge::Right(right as u32)
                    } else {
                        HorzEdge::Left(0)
                    }
                },
                None => HorzEdge::Left(0),
            },
        };
        self.vert_edge = match storage.get_int(id, "top") {
            Some(top) => {
                if 0 <= top && top <= u32::MAX as i64 {
                    VertEdge::Top(top as u32)
                } else {
                    VertEdge::Top(0)
                }
            },
            None => match storage.get_int(id, "bottom") {
                Some(bottom) => {
                    if 0 <= bottom && bottom <= u32::MAX as i64 {
                        VertEdge::Bottom(bottom as u32)
                    } else {
                        VertEdge::Top(0)
                    }
                },
                None => VertEdge::Top(0),
            },
        };
    }

    /// The envelope the child is laid out against: the inherited one, or the
    /// whole viewport under absolute placement.
    pub fn child_constraints(&self, constraints: Constraints, viewport: Constraints) -> (c:
        Constraints)
        ensures
            c == if self.placement == Placement::Absolute {
                viewport
            } else {
                constraints
            },
    {
        match self.placement {
            Placement::Absolute => viewport,
            Placement::Relative => constraints,
        }
    }

    /// The size this widget reports for the child it laid out.
    pub fn reduce(&self, child: Size, used: Constraints) -> (s: Size)
        ensures
            s == spec_position_reduce(*self, child, used),
    {
        Size {
            width: match self.horz_edge {
                HorzEdge::Left(l) => sat_add(child.width, u32_as_usize(l)),
                HorzEdge::Right(r) => sat_sub(used.max_width, u32_as_usize(r)),
            },
            height: match self.vert_edge {
                VertEdge::Top(t) => sat_add(child.height, u32_as_usize(t)),
                VertEdge::Bottom(b) => sat_sub(used.max_height, u32_as_usize(b)),
            },
        }
    }

    /// The global position handed to the child during the position pass.
    pub fn child_pos(&self, inherited: Pos, inner_size: Size, child_size: Size) -> (r: Pos)
        ensures
            r == spec_position_child_pos(*self, inherited, inner_size, child_size),
    {
        let base = match self.placement {
            Placement::Absolute => Pos { x: 0, y: 0 },
            Placement::Relative => inherited,
        };
        Pos {
            x: match self.horz_edge {
                HorzEdge::Left(l) => offset_coord(base.x, l),
                HorzEdge::Right(r) => far_edge_coord(inner_size.width, child_size.width, r),
            },
            y: match self.vert_edge {
                VertEdge::Top(t) => offset_coord(base.y, t),
                VertEdge::Bottom(b) => far_edge_coord(inner_size.height, child_size.height, b),
            },
        }
    }
}

/// Absolute positioning ignores ancestors: under absolute placement the
/// child's position is the same whatever position the widget inherited.
pub proof fn lemma_absolute_ignores_ancestors(
    p: Position,
    inherited_a: Pos,
    inherited_b: Pos,
    inner_size: Size,
    child_size: Size,
)
    requires
        p.placement == Placement::Absolute,
    ensures
        spec_position_child_pos(p, inherited_a, inner_size, child_size) == spec_position_child_pos(
            p,
            inherited_b,
            inner_size,
            child_size,
        ),
{
}

/// Under absolute placement with offsets `left` and `top`, the child sits at
/// exactly `(left, top)` from the viewport origin.
pub proof fn lemma_absolute_offsets(
    p: Position,
    inherited: Pos,
    inner_size: Size,
    child_size: Size,
    l: u32,
    t: u32,
)
    requires
        p.placement == Placement::Absolute,
        p.horz_edge == HorzEdge::Left(l),
        p.vert_edge == VertEdge::Top(t),
        l <= i32::MAX,
        t <= i32::MAX,
    ensures
        spec_position_child_pos(p, inherited, inner_size, child_size) == (Pos {
            x: l as i32,
            y: t as i32,
        }),
{
}

/// `base + off`, capped at `i32::MAX`.
pub fn offset_coord(base: i32, off: u32) -> (r: i32)
    ensures
        r == vstd::math::min(base + off, i32::MAX as int),
{
    let wide: i64 = base as i64 + off as i64;
    if wide > i32::MAX as i64 {
        i32::MAX
    } else {
        wide as i32
    }
}

/// `inner - child - off`, floored at zero and capped at `i32::MAX`.
fn far_edge_coord(inner: usize, child: usize, off: u32) -> (r: i32)
    ensures
        r == vstd::math::min(vstd::math::max(inner - child - off, 0), i32::MAX as int),
{
    let extent = sat_sub(sat_sub(inner, child), u32_as_usize(off));
    if extent > i32::MAX as usize {
        i32::MAX
    } else {
        extent as i32
    }
}

/// A `u32` as a `usize`.
fn u32_as_usize(v: u32) -> (r: usize)
    ensures
        r == v,
{
    v as usize
}

} // verus!

use vstd::prelude::*;

use crate::attribs::AttributeStorage;
use crate::attribs::WidgetId;
use crate::constraints::clamp;
use crate::constraints::Constraints;
use crate::geometry::Size;

verus! {

/// A widget that narrows the envelope by its `width`, `height`, `min-*` and
/// `max-*` attributes, hands it to its single child, and reports the child's
/// size floored by its own minimum.
#[derive(Debug, Default)]
pub struct Container;

/// The attribute under `key`, when it holds a non-negative integer.
pub open spec fn spec_dim_attr(storage: AttributeStorage, id: WidgetId, key: Seq<char>) -> Option<
    int,
> {
    match storage.attr_int(id, key) {
        Some(n) => if n >= 0 {
            Some(n as int)
        } else {
            None
        },
        None => None,
    }
}

/// Fix one axis: clamp the maximum to `v` and raise the minimum to meet it.
pub open spec fn spec_tighten(lo: int, hi: int, v: int) -> (int, int) {
    let m = clamp(v, lo, hi);
    (m, m)
}

/// Raise one axis's minimum to `v`, capped at the maximum.
pub open spec fn spec_raise_min(lo: int, hi: int, v: int) -> (int, int) {
    (clamp(v, lo, hi), hi)
}

/// Lower one axis's maximum to `v`, floored at the minimum.
pub open spec fn spec_lower_max(lo: int, hi: int, v: int) -> (int, int) {
    (lo, clamp(v, lo, hi))
}

/// One axis of the container's narrowing policy: a tight value first, then a
/// raised minimum, then a lowered maximum, each only when its attribute
/// holds a non-negative integer.
pub open spec fn spec_container_axis(
    lo: int,
    hi: int,
    tight: Option<int>,
    raise: Option<int>,
    lower: Option<int>,
) -> (int, int) {
    let a = match tight {
        Some(v) => spec_tighten(lo, hi, v),
        None => (lo, hi),
    };
    let b = match raise {
        Some(v) => spec_raise_min(a.0, a.1, v),
        None => a,
    };
    match lower {
        Some(v) => spec_lower_max(b.0, b.1, v),
        None => b,
    }
}

/// The envelope a container hands its child.
pub open spec fn spec_container_child_constraints(
    storage: AttributeStorage,
    id: WidgetId,
    c: Constraints,
) -> Constraints {
    let w = spec_container_axis(
        c.min_width as int,
        c.max_width as int,
        spec_dim_attr(storage, id, "width"@),
        spec_dim_attr(storage, id, "min-width"@),
        spec_dim_attr(storage, id, "max-width"@),
    );
    let h = spec_container_axis(
        c.min_height as int,
        c.max_height as int,
        spec_dim_attr(storage, id, "height"@),
        spec_dim_attr(storage, id, "min-height"@),
        spec_dim_attr(storage, id, "max-height"@),
    );
    Constraints {
        min_width: w.0 as usize,
        max_width: w.1 as usize,
        min_height: h.0 as usize,
        max_height: h.1 as usize,
    }
}

/// The container's size: the child's size (zero without a child), floored by
/// the narrowed minimum.
pub open spec fn spec_container_reduce(child: Option<Size>, narrowed: Constraints) -> Size {
    let base = match child {
        Some(s) => s,
        None => Size { width: 0, height: 0 },
    };
    Size {
        width: if base.width >= narrowed.min_width {
            base.width
        } else {
            narrowed.min_width
        },
        height: if base.height >= narrowed.min_height {
            base.height
        } else {
            narrowed.min_height
        },
    }
}

impl Container {
    /// Narrow the received envelope by this widget's attributes.
    pub fn child_constraints(
        storage: &AttributeStorage,
        id: WidgetId,
        constraints: Constraints,
    ) -> (c: Constraints)
        requires
            constraints.wf(),
        ensures
            c == spec_container_child_constraints(*storage, id, constraints),
            c.wf(),
            c.within(constraints),
    {
        let mut c = constraints;
        if let Some(width) = storage.get_int(id, "width") {
            if width >= 0 {
                c.make_width_tight(usize_of_i64(width));
            }
        }
        if let Some(height) = storage.get_int(id, "height") {
            if height >= 0 {
                c.make_height_tight(usize_of_i64(height));
            }
        }
        if let Some(width) = storage.get_int(id, "min-width") {
            if width >= 0 {
                c.set_min_width(usize_of_i64(width));
            }
        }
        if let Some(height) = storage.get_int(id, "min-height") {
            if height >= 0 {
                c.set_min_height(usize_of_i64(height));
            }
        }
        if let Some(width) = storage.get_int(id, "max-width") {
            if width >= 0 {
                c.set_max_width(usize_of_i64(width));
            }
        }
        if let Some(height) = storage.get_int(id, "max-height") {
            if height >= 0 {
                c.set_max_height(usize_of_i64(height));
            }
        }
        c
    }

    /// Floor the child's size by the narrowed minimum.
    pub fn reduce(child: Option<Size>, narrowed: Constraints) -> (s: Size)
        ensures
            s == spec_container_reduce(child, narrowed),
    {
        let base = match child {
            Some(s) => s,
            None => Size { width: 0, height: 0 },
        };
        Size {
            width: if base.width >= narrowed.min_width {
                base.width
            } else {
                narrowed.min_width
            },
            height: if base.height >= narrowed.min_height {
                base.height
            } else {
                narrowed.min_height
            },
        }
    }
}

/// A non-negative `i64` as a `usize`, capped at `usize::MAX`.
pub fn usize_of_i64(v: i64) -> (r: usize)
    requires
        0 <= v,
    ensures
        r == vstd::math::min(v as int, usize::MAX as int),
{
    let u = v as u64;
    if u > usize::MAX as u64 {
        usize::MAX
    } else {
        u as usize
    }
}

} // verus!

use vstd::prelude::*;
use vstd::math::max;
use vstd::math::min;

use crate::geometry::Size;

verus! {

/// The size envelope a widget must lay itself out in: the returned size has
/// to satisfy `min_width <= width <= max_width` and the same on the vertical
/// axis. `min <= max` holds on both axes after every mutation.
#[derive(Debug, Clone, Copy, PartialEq, Eq, Structural)]
pub struct Constraints {
    pub min_width: usize,
    pub min_height: usize,
    pub max_width: usize,
    pub max_height: usize,
}

impl Constraints {
    /// `min <= max` on both axes.
    pub open spec fn wf(self) -> bool {
        self.min_width <= self.max_width && self.min_height <= self.max_height
    }

    /// Whether a size lies inside the envelope, both bounds inclusive.
    pub open spec fn spec_contains(self, size: Size) -> bool {
        &&& self.min_width <= size.width <= self.max_width
        &&& self.min_height <= size.height <= self.max_height
    }

    /// Whether this envelope lies inside `outer`: any size this envelope
    /// admits, `outer` admits too.
    pub open spec fn within(self, outer: Constraints) -> bool {
        &&& outer.min_width <= self.min_width
        &&& outer.min_height <= self.min_height
        &&& self.max_width <= outer.max_width
        &&& self.max_height <= outer.max_height
    }

    /// An envelope with no lower bound and the given upper bounds.
    pub fn new(max_width: usize, max_height: usize) -> (c: Constraints)
        ensures
            c == (Constraints {
                min_width: 0,
                min_height: 0,
                max_width: max_width,
                max_height: max_height,
            }),
            c.wf(),
    {
        Constraints { min_width: 0, min_height: 0, max_width, max_height }
    }

    pub fn max_width(&self) -> (w: usize)
        ensures
            w == self.max_width,
    {
        self.max_width
    }

    pub fn max_height(&self) -> (h: usize)
        ensures
            h == self.max_height,
    {
        self.max_height
    }

    /// The largest size the envelope admits.
    pub fn max_size(&self) -> (s: Size)
        ensures
            s.width == self.max_width,
            s.height == self.max_height,
    {
        Size { width: self.max_width, height: self.max_height }
    }

    /// The smallest size the envelope admits.
    pub fn min_size(&self) -> (s: Size)
        ensures
            s.width == self.min_width,
            s.height == self.min_height,
    {
        Size { width: self.min_width, height: self.min_height }
    }

    /// Clamp the maximum width to `width` and raise the minimum to meet it,
    /// so the horizontal extent is fixed. The new envelope stays within the
    /// old one: `width` is clamped into `[min_width, max_width]` first.
    pub fn make_width_tight(&mut self, width: usize)
        requires
            old(self).wf(),
        ensures
            final(self).wf(),
            final(self).within(*old(self)),
            final(self).max_width == clamp(width as int, old(self).min_width as int, old(self).max_width as int),
            final(self).min_width == final(self).max_width,
            final(self).min_height == old(self).min_height,
            final(self).max_height == old(self).max_height,
    {
        let w = clamp_usize(width, self.min_width, self.max_width);
        self.max_width = w;
        self.min_width = w;
    }

    /// The vertical counterpart of `make_width_tight`.
    pub fn make_height_tight(&mut self, height: usize)
        requires
            old(self).wf(),
        ensures
            final(self).wf(),
            final(self).within(*old(self)),
            final(self).max_height == clamp(height as int, old(self).min_height as int, old(self).max_height as int),
            final(self).min_height == final(self).max_height,
            final(self).min_width == old(self).min_width,
            final(self).max_width == old(self).max_width,
    {
        let h = clamp_usize(height, self.min_height, self.max_height);
        self.max_height = h;
        self.min_height = h;
    }

    /// Lower the maximum width to `width`, floored at the current minimum.
    pub fn set_max_width(&mut self, width: usize)
        requires
            old(self).wf(),
        ensures
            final(self).wf(),
            final(self).within(*old(self)),
            final(self).max_width == clamp(width as int, old(self).min_width as int, old(self).max_width as int),
            final(self).min_width == old(self).min_width,
            final(self).min_height == old(self).min_height,
            final(self).max_height == old(self).max_height,
    {
        self.max_width = clamp_usize(width, self.min_width, self.max_width);
    }

    /// Lower the maximum height to `height`, floored at the current minimum.
    pub fn set_max_height(&mut self, height: usize)
        requires
            old(self).wf(),
        ensures
            final(self).wf(),
            final(self).within(*old(self)),
            final(self).max_height == clamp(height as int, old(self).min_height as int, old(self).max_height as int),
            final(self).min_width == old(self).min_width,
            final(self).max_width == old(self).max_width,
            final(self).min_height == old(self).min_height,
    {
        self.max_height = clamp_usize(height, self.min_height, self.max_height);
    }

    /// Raise the minimum width to `width`, capped at the current maximum.
    pub fn set_min_width(&mut self, width: usize)
        requires
            old(self).wf(),
        ensures
            final(self).wf(),
            final(self).within(*old(self)),
            final(self).min_width == clamp(width as int, old(self).min_width as int, old(self).max_width as int),
            final(self).max_width == old(self).max_width,
            final(self).min_height == old(self).min_height,
            final(self).max_height == old(self).max_height,
    {
        self.min_width = clamp_usize(width, self.min_width, self.max_width);
    }

    /// Raise the minimum height to `height`, capped at the current maximum.
    pub fn set_min_height(&mut self, height: usize)
        requires
            old(self).wf(),
        ensures
            final(self).wf(),
            final(self).within(*old(self)),
            final(self).min_height == clamp(height as int, old(self).min_height as int, old(self).max_height as int),
            final(self).max_height == old(self).max_height,
            final(self).min_width == old(self).min_width,
            final(self).max_width == old(self).max_width,
    {
        self.min_height = clamp_usize(height, self.min_height, self.max_height);
    }

    /// Subtract `amount` from the maximum width, floored at the current
    /// minimum.
    pub fn sub_max_width(&mut self, amount: usize)
        requires
            old(self).wf(),
        ensures
            final(self).wf(),
            final(self).within(*old(self)),
            final(self).max_width == max(old(self).min_width as int, old(self).max_width - amount),
            final(self).min_width == old(self).min_width,
            final(self).min_height == old(self).min_height,
            final(self).max_height == old(self).max_height,
    {
        let lowered = if amount <= self.max_width {
            self.max_width - amount
        } else {
            0
        };
        self.max_width = if lowered >= self.min_width {
            lowered
        } else {
            self.min_width
        };
    }

    /// The vertical counterpart of `sub_max_width`.
    pub fn sub_max_height(&mut self, amount: usize)
        requires
            old(self).wf(),
        ensures
            final(self).wf(),
            final(self).within(*old(self)),
            final(self).max_height == max(old(self).min_height as int, old(self).max_height - amount),
            final(self).min_height == old(self).min_height,
            final(self).min_width == old(self).min_width,
            final(self).max_width == old(self).max_width,
    {
        let lowered = if amount <= self.max_height {
            self.max_height - amount
        } else {
            0
        };
        self.max_height = if lowered >= self.min_height {
            lowered
        } else {
            self.min_height
        };
    }

    /// Whether a size lies inside the envelope.
    pub fn contains(&self, size: Size) -> (b: bool)
        ensures
            b == self.spec_contains(size),
    {
        self.min_width <= size.width && size.width <= self.max_width && self.min_height
            <= size.height && size.height <= self.max_height
    }
}

pub open spec fn clamp(v: int, lo: int, hi: int) -> int
    recommends
        lo <= hi,
{
    if v < lo {
        lo
    } else if v > hi {
        hi
    } else {
        v
    }
}

/// Clamp `v` into `[lo, hi]`.
pub fn clamp_usize(v: usize, lo: usize, hi: usize) -> (r: usize)
    requires
        lo <= hi,
    ensures
        r == clamp(v as int, lo as int, hi as int),
{
    if v < lo {
        lo
    } else if v > hi {
        hi
    } else {
        v
    }
}

/// `a + b`, capped at `usize::MAX` instead of overflowing.
pub fn sat_add(a: usize, b: usize) -> (r: usize)
    ensures
        r == min(a + b, usize::MAX as int),
{
    if a <= usize::MAX - b {
        a + b
    } else {
        usize::MAX
    }
}

/// `a - b`, floored at zero instead of overflowing.
pub fn sat_sub(a: usize, b: usize) -> (r: usize)
    ensures
        r == max(a - b, 0),
{
    if b <= a {
        a - b
    } else {
        0
    }
}

} // verus!

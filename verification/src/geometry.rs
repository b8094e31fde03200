use vstd::prelude::*;

verus! {

/// The dimensions of a widget or surface, in character cells.
#[derive(Debug, Clone, Copy, PartialEq, Eq, Structural)]
pub struct Size {
    pub width: usize,
    pub height: usize,
}

impl Size {
    pub fn new(width: usize, height: usize) -> (s: Size)
        ensures
            s.width == width,
            s.height == height,
    {
        Size { width, height }
    }

    pub fn zero() -> (s: Size)
        ensures
            s.width == 0,
            s.height == 0,
    {
        Size { width: 0, height: 0 }
    }
}

/// A position in global (screen) coordinates; the origin is the top-left
/// corner of the surface and both axes may go negative while a widget is
/// partly off screen.
#[derive(Debug, Clone, Copy, PartialEq, Eq, Structural)]
pub struct Pos {
    pub x: i32,
    pub y: i32,
}

impl Pos {
    pub fn new(x: i32, y: i32) -> (p: Pos)
        ensures
            p.x == x,
            p.y == y,
    {
        Pos { x, y }
    }

    pub fn zero() -> (p: Pos)
        ensures
            p.x == 0,
            p.y == 0,
    {
        Pos { x: 0, y: 0 }
    }

    /// Offset this global position by a local one.
    pub fn add_local(self, local: LocalPos) -> (p: Pos)
        requires
            self.x + local.x <= i32::MAX,
            self.y + local.y <= i32::MAX,
        ensures
            p.x == self.x + local.x,
            p.y == self.y + local.y,
    {
        Pos { x: self.x + local.x as i32, y: self.y + local.y as i32 }
    }
}

/// A position in the local coordinate space of a single widget; `(0, 0)` is
/// the widget's own top-left cell.
#[derive(Debug, Clone, Copy, PartialEq, Eq, Structural)]
pub struct LocalPos {
    pub x: u16,
    pub y: u16,
}

impl LocalPos {
    pub fn new(x: u16, y: u16) -> (p: LocalPos)
        ensures
            p.x == x,
            p.y == y,
    {
        LocalPos { x, y }
    }

    /// The row-major index of this position in a grid of the given width.
    pub open spec fn spec_index_in(self, width: int) -> int {
        self.y * width + self.x
    }

    /// Row-major index into a dense grid of `width * height` cells.
    pub fn index_in(self, width: usize) -> (i: usize)
        requires
            self.y * width + self.x <= usize::MAX,
        ensures
            i == self.spec_index_in(width as int),
    {
        (self.y as usize) * width + (self.x as usize)
    }

    /// Whether the position lies inside a grid of the given size.
    pub open spec fn spec_in_bounds(self, size: Size) -> bool {
        self.x < size.width && self.y < size.height
    }

    pub fn in_bounds(self, size: Size) -> (b: bool)
        ensures
            b == self.spec_in_bounds(size),
    {
        (self.x as usize) < size.width && (self.y as usize) < size.height
    }
}

/// A closed rectangle in global coordinates: both `from` and `to` are inside
/// the region.
#[derive(Debug, Clone, Copy, PartialEq, Eq, Structural)]
pub struct Region {
    pub from: Pos,
    pub to: Pos,
}

impl Region {
    pub fn new(from: Pos, to: Pos) -> (r: Region)
        ensures
            r.from == from,
            r.to == to,
    {
        Region { from, to }
    }

    /// Whether a global position lies inside the region; all four edges are
    /// inclusive.
    pub open spec fn spec_contains(self, pos: Pos) -> bool {
        &&& self.from.x <= pos.x <= self.to.x
        &&& self.from.y <= pos.y <= self.to.y
    }

    pub fn contains(&self, pos: Pos) -> (b: bool)
        ensures
            b == self.spec_contains(pos),
    {
        self.from.x <= pos.x && pos.x <= self.to.x && self.from.y <= pos.y && pos.y <= self.to.y
    }

    /// The intersection of two regions: the largest rectangle contained in
    /// both. A position is inside the result exactly when it is inside both
    /// inputs.
    pub open spec fn spec_intersection(self, other: Region) -> Region {
        Region {
            from: Pos {
                x: if other.from.x > self.from.x { other.from.x } else { self.from.x },
                y: if other.from.y > self.from.y { other.from.y } else { self.from.y },
            },
            to: Pos {
                x: if other.to.x < self.to.x { other.to.x } else { self.to.x },
                y: if other.to.y < self.to.y { other.to.y } else { self.to.y },
            },
        }
    }

    /// Shrink this region to its intersection with `other`.
    pub fn intersect_with(&mut self, other: &Region)
        ensures
            *final(self) == old(self).spec_intersection(*other),
            forall|p: Pos|
                final(self).spec_contains(p) <==> old(self).spec_contains(p)
                    && other.spec_contains(p),
    {
        if other.from.x > self.from.x {
            self.from.x = other.from.x;
        }
        if other.from.y > self.from.y {
            self.from.y = other.from.y;
        }
        if other.to.x < self.to.x {
            self.to.x = other.to.x;
        }
        if other.to.y < self.to.y {
            self.to.y = other.to.y;
        }
    }

    /// Constrain this region to lie within `other`; the same operation as
    /// `intersect_with`.
    pub fn constrain(&mut self, other: &Region)
        ensures
            *final(self) == old(self).spec_intersection(*other),
    {
        self.intersect_with(other)
    }
}

} // verus!

use vstd::prelude::*;

use crate::attribs::CanvasAttribs;
use crate::geometry::LocalPos;
use crate::geometry::Pos;
use crate::geometry::Size;
use crate::slab::Slab;

verus! {

/// One occupied cell of a canvas: a glyph with its attributes at a local
/// position.
#[derive(Debug)]
pub struct Cell {
    pub pos: LocalPos,
    pub glyph: char,
    pub attribs: CanvasAttribs,
}

/// What a grid index holds: nothing, or the id of the slot storing its cell.
#[derive(Debug, Clone, Copy)]
pub enum Entry {
    Vacant,
    Occupied(usize),
}

/// A sparse character buffer: a dense `width * height` index of positions
/// over a slot-reclaiming pool of occupied cells.
#[derive(Debug)]
pub struct Buffer {
    pub cells: Slab<Cell>,
    pub positions: Vec<Entry>,
    pub size: Size,
}

/// A position in bounds of `size` has its row-major index inside the grid.
proof fn lemma_index_in_range(p: LocalPos, size: Size)
    requires
        p.spec_in_bounds(size),
    ensures
        0 <= p.spec_index_in(size.width as int) < size.width * size.height,
{
    assert(p.y * size.width + p.x < size.height * size.width) by (nonlinear_arith)
        requires
            0 <= p.x < size.width,
            0 <= p.y < size.height,
    ;
}

/// Row-major indexing is injective on in-bounds positions.
proof fn lemma_index_injective(p: LocalPos, q: LocalPos, size: Size)
    requires
        p.spec_in_bounds(size),
        q.spec_in_bounds(size),
        p.spec_index_in(size.width as int) == q.spec_index_in(size.width as int),
    ensures
        p == q,
{
    assert(p.y == q.y && p.x == q.x) by (nonlinear_arith)
        requires
            0 <= p.x < size.width,
            0 <= q.x < size.width,
            p.y * size.width + p.x == q.y * size.width + q.x,
            p.y >= 0,
            q.y >= 0,
    ;
}

impl Buffer {
    /// The index and the pool agree: every occupied index points at a live
    /// slot holding a cell of that very position, and every live slot is
    /// pointed at by its cell's position.
    pub open spec fn wf(self) -> bool {
        &&& self.size.width * self.size.height == self.positions@.len()
        &&& self.positions@.len() <= usize::MAX
        &&& self.cells.wf()
        &&& forall|id: int|
            0 <= id < self.cells.slots@.len() ==> match #[trigger] self.cells.slots@[id] {
                Some(cell) => {
                    &&& cell.pos.spec_in_bounds(self.size)
                    &&& cell.attribs.wf()
                    &&& 0 <= cell.pos.spec_index_in(self.size.width as int)
                        < self.positions@.len()
                    &&& self.positions@[cell.pos.spec_index_in(self.size.width as int)]
                        == Entry::Occupied(id as usize)
                },
                None => true,
            }
        &&& forall|idx: int|
            0 <= idx < self.positions@.len() ==> match #[trigger] self.positions@[idx] {
                Entry::Occupied(id) => {
                    &&& id < self.cells.slots@.len()
                    &&& self.cells.slots@[id as int] matches Some(cell)
                    &&& (self.cells.slots@[id as int] matches Some(cell) ==> cell.pos.spec_index_in(
                        self.size.width as int,
                    ) == idx && cell.pos.spec_in_bounds(self.size))
                },
                Entry::Vacant => true,
            }
    }

    /// The model of the buffer: the cell stored at a local position, if any.
    pub open spec fn cell_at(self, p: LocalPos) -> Option<Cell> {
        if p.spec_in_bounds(self.size) {
            match self.positions@[p.spec_index_in(self.size.width as int)] {
                Entry::Occupied(id) => self.cells.slots@[id as int],
                Entry::Vacant => None,
            }
        } else {
            None
        }
    }

    /// An empty buffer of the given size.
    pub fn new(size: Size) -> (b: Buffer)
        requires
            size.width * size.height <= usize::MAX,
        ensures
            b.wf(),
            b.size == size,
            forall|p: LocalPos| #[trigger] b.cell_at(p) is None,
    {
        proof {
            assert(size.width * size.height >= 0) by (nonlinear_arith);
        }
        let len = size.width * size.height;
        let b = Buffer { cells: Slab::empty(), positions: vec![Entry::Vacant; len], size };
        proof {
            assert forall|p: LocalPos| #[trigger] b.cell_at(p) is None by {
                if p.spec_in_bounds(size) {
                    lemma_index_in_range(p, size);
                }
            }
        }
        b
    }

    /// Write a glyph: an in-bounds position gets the cell (overwriting any
    /// occupant), an out-of-bounds position is silently ignored.
    pub fn put(&mut self, c: char, attribs: CanvasAttribs, pos: LocalPos)
        requires
            old(self).wf(),
            attribs.wf(),
        ensures
            final(self).wf(),
            final(self).size == old(self).size,
            pos.spec_in_bounds(old(self).size) ==> forall|q: LocalPos|
                #[trigger] final(self).cell_at(q) == if q == pos {
                    Some(Cell { pos, glyph: c, attribs })
                } else {
                    old(self).cell_at(q)
                },
            !pos.spec_in_bounds(old(self).size) ==> *final(self) == *old(self),
    {
        if !pos.in_bounds(self.size) {
            return ;
        }
        proof {
            lemma_index_in_range(pos, self.size);
        }
        let idx = pos.index_in(self.size.width);
        let cell = Cell { pos, glyph: c, attribs };
        let entry = self.positions[idx];
        match entry {
            Entry::Occupied(id) => {
                self.cells.replace(id, cell);
                proof {
                    lemma_put_preserves(*old(self), *self, pos, cell, id);
                }
            },
            Entry::Vacant => {
                let expected = self.cells.next_id();
                let id = self.cells.insert(cell);
                assert(id == expected);
                self.positions.set(idx, Entry::Occupied(id));
                proof {
                    lemma_put_insert_preserves(*old(self), *self, pos, cell, id);
                }
            },
        }
    }

    /// Read the cell at a position; out-of-bounds or vacant positions yield
    /// nothing.
    pub fn get(&self, pos: LocalPos) -> (r: Option<&Cell>)
        requires
            self.wf(),
        ensures
            match r {
                Some(cell) => self.cell_at(pos) == Some(*cell),
                None => self.cell_at(pos) is None,
            },
    {
        if !pos.in_bounds(self.size) {
            return None;
        }
        proof {
            lemma_index_in_range(pos, self.size);
        }
        let idx = pos.index_in(self.size.width);
        match self.positions[idx] {
            Entry::Occupied(id) => self.cells.get(id),
            Entry::Vacant => None,
        }
    }

    /// Erase the cell at a position; out-of-bounds or vacant positions are
    /// silently ignored.
    pub fn remove(&mut self, pos: LocalPos)
        requires
            old(self).wf(),
        ensures
            final(self).wf(),
            final(self).size == old(self).size,
            forall|q: LocalPos|
                #[trigger] final(self).cell_at(q) == if q == pos {
                    None::<Cell>
                } else {
                    old(self).cell_at(q)
                },
    {
        if !pos.in_bounds(self.size) {
            return ;
        }
        proof {
            lemma_index_in_range(pos, self.size);
        }
        let idx = pos.index_in(self.size.width);
        match self.positions[idx] {
            Entry::Occupied(id) => {
                self.positions.set(idx, Entry::Vacant);
                self.cells.remove(id);
                proof {
                    lemma_remove_preserves(*old(self), *self, pos, id);
                }
            },
            Entry::Vacant => {
                proof {
                    assert(forall|q: LocalPos|
                        q != pos ==> #[trigger] self.cell_at(q) == old(self).cell_at(q));
                }
            },
        }
    }

    /// Empty the pool, returning every stored cell exactly once; positions
    /// are pairwise distinct. The index is left stale: `resize` rebuilds it.
    fn drain(&mut self) -> (r: Vec<Cell>)
        requires
            old(self).wf(),
        ensures
            final(self).cells.slots@.len() == 0,
            final(self).cells.free@.len() == 0,
            final(self).positions@ == old(self).positions@,
            final(self).size == old(self).size,
            forall|i: int|
                0 <= i < r@.len() ==> old(self).cell_at(#[trigger] r@[i].pos) == Some(r@[i])
                    && r@[i].attribs.wf(),
            forall|i: int, j: int| 0 <= i < j < r@.len() ==> #[trigger] r@[i].pos != #[trigger] r@[j].pos,
            forall|p: LocalPos|
                #[trigger] old(self).cell_at(p) is Some ==> exists|i: int|
                    0 <= i < r@.len() && r@[i].pos == p,
    {
        let ghost orig = self.cells.slots@;
        let ghost b0 = *old(self);
        proof {
            assert(self.cells.slots.len() == self.cells.slots@.len());
        }
        let mut out: Vec<Cell> = Vec::new();
        let ghost mut ids: Seq<int> = Seq::empty();
        proof {
            assert(orig.subrange(0, orig.len() as int) =~= orig);
        }
        while self.cells.slots.len() > 0
            invariant
                b0 == *old(self),
                b0.wf(),
                orig == b0.cells.slots@,
                orig.len() <= usize::MAX,
                self.cells.slots@.len() <= orig.len(),
                self.cells.slots@ == orig.subrange(0, self.cells.slots@.len() as int),
                self.positions@ == b0.positions@,
                self.size == b0.size,
                ids.len() == out@.len(),
                forall|i: int|
                    0 <= i < ids.len() ==> self.cells.slots@.len() <= #[trigger] ids[i]
                        < orig.len() && orig[ids[i]] == Some(out@[i]),
                forall|i: int, j: int| 0 <= i < j < ids.len() ==> #[trigger] ids[i] > #[trigger] ids[j],
                forall|id: int|
                    self.cells.slots@.len() <= id < orig.len() && #[trigger] orig[id] is Some
                        ==> exists|i: int| 0 <= i < ids.len() && #[trigger] ids[i] == id,
            decreases self.cells.slots@.len(),
        {
            let ghost len_before = self.cells.slots@.len() as int;
            let popped = self.cells.slots.pop();
            proof {
                assert(len_before > 0);
                assert(popped == Some(orig.subrange(0, len_before)[len_before - 1]));
                assert(orig.subrange(0, len_before)[len_before - 1] == orig[len_before - 1]);
                assert(self.cells.slots@ == orig.subrange(0, len_before).subrange(
                    0,
                    len_before - 1,
                ));
                assert(self.cells.slots@ =~= orig.subrange(0, len_before - 1));
            }
            match popped {
                Some(slot) => {
                    proof {
                        assert(slot == orig[len_before - 1]);
                    }
                    match slot {
                        Some(cell) => {
                            out.push(cell);
                            proof {
                                let ids0 = ids;
                                ids = ids.push(len_before - 1);
                                assert(ids[ids.len() - 1] == len_before - 1);
                                assert(forall|i: int|
                                    0 <= i < ids0.len() ==> #[trigger] ids[i] == ids0[i]);
                                assert forall|id: int|
                                    self.cells.slots@.len() <= id < orig.len()
                                        && #[trigger] orig[id] is Some implies exists|i: int|
                                    0 <= i < ids.len() && #[trigger] ids[i] == id by {
                                    if id == len_before - 1 {
                                        assert(ids[ids.len() - 1] == id);
                                    } else {
                                        let i = choose|i: int|
                                            0 <= i < ids0.len() && #[trigger] ids0[i] == id;
                                        assert(ids[i] == id);
                                    }
                                }
                            }
                        },
                        None => {},
                    }
                },
                None => {},
            }
        }
        self.cells.free = Vec::new();
        proof {
            assert forall|i: int|
                0 <= i < out@.len() implies b0.cell_at(#[trigger] out@[i].pos) == Some(out@[i])
                    && out@[i].attribs.wf() by {
                assert(orig[ids[i]] == Some(out@[i]));
            }
            assert forall|i: int, j: int| 0 <= i < j < out@.len() implies #[trigger] out@[i].pos
                != #[trigger] out@[j].pos by {
                let ci = out@[i];
                let cj = out@[j];
                assert(orig[ids[i]] == Some(ci));
                assert(orig[ids[j]] == Some(cj));
                if ci.pos == cj.pos {
                    assert(b0.positions@[ci.pos.spec_index_in(b0.size.width as int)]
                        == Entry::Occupied(ids[i] as usize));
                    assert(b0.positions@[cj.pos.spec_index_in(b0.size.width as int)]
                        == Entry::Occupied(ids[j] as usize));
                    assert(false);
                }
            }
            assert forall|p: LocalPos| #[trigger] b0.cell_at(p) is Some implies exists|i: int|
                0 <= i < out@.len() && out@[i].pos == p by {
                lemma_index_in_range(p, b0.size);
                let id0 = b0.positions@[p.spec_index_in(b0.size.width as int)]->Occupied_0;
                assert(orig[id0 as int] is Some);
                let i = choose|i: int| 0 <= i < ids.len() && #[trigger] ids[i] == id0 as int;
                assert(orig[ids[i]] == Some(out@[i]));
                assert(out@[i].pos.spec_index_in(b0.size.width as int) == p.spec_index_in(
                    b0.size.width as int,
                ));
                lemma_index_injective(out@[i].pos, p, b0.size);
            }
        }
        out
    }

    /// Give the buffer a new size: content whose position lies inside the
    /// new bounds is kept, glyphs and attributes unchanged; the rest is
    /// dropped.
    pub fn resize(&mut self, size: Size)
        requires
            old(self).wf(),
            size.width * size.height <= usize::MAX,
        ensures
            final(self).wf(),
            final(self).size == size,
            forall|p: LocalPos|
                #[trigger] final(self).cell_at(p) == if p.spec_in_bounds(size) {
                    old(self).cell_at(p)
                } else {
                    None::<Cell>
                },
    {
        let ghost b0 = *old(self);
        let mut drained = self.drain();
        let ghost dorig = drained@;
        proof {
            assert(drained.len() == drained@.len());
        }
        proof {
            assert(size.width * size.height >= 0) by (nonlinear_arith);
        }
        let len = size.width * size.height;
        self.positions = vec![Entry::Vacant; len];
        self.size = size;
        proof {
            assert(self.wf());
            assert forall|p: LocalPos| #[trigger] self.cell_at(p) is None by {
                if p.spec_in_bounds(size) {
                    lemma_index_in_range(p, size);
                }
            }
        }
        proof {
            assert(dorig.subrange(0, dorig.len() as int) =~= dorig);
        }
        while drained.len() > 0
            invariant
                b0 == *old(self),
                b0.wf(),
                self.wf(),
                self.size == size,
                dorig.len() <= usize::MAX,
                drained@.len() <= dorig.len(),
                drained@ == dorig.subrange(
                    dorig.len() - drained@.len(),
                    dorig.len() as int,
                ),
                forall|i: int|
                    0 <= i < dorig.len() ==> b0.cell_at(#[trigger] dorig[i].pos) == Some(dorig[i])
                        && dorig[i].attribs.wf(),
                forall|i: int, j: int|
                    0 <= i < j < dorig.len() ==> #[trigger] dorig[i].pos != #[trigger] dorig[j].pos,
                forall|p: LocalPos|
                    #[trigger] b0.cell_at(p) is Some ==> exists|i: int|
                        0 <= i < dorig.len() && dorig[i].pos == p,
                forall|p: LocalPos|
                    #[trigger] self.cell_at(p) == if p.spec_in_bounds(size) && (exists|i: int|
                        0 <= i < dorig.len() - drained@.len() && #[trigger] dorig[i].pos == p) {
                        b0.cell_at(p)
                    } else {
                        None::<Cell>
                    },
            decreases drained@.len(),
        {
            let ghost k = dorig.len() - drained@.len();
            let cell = drained.remove(0);
            proof {
                assert(cell == dorig[k]);
                assert(drained@ =~= dorig.subrange(dorig.len() - drained@.len(), dorig.len() as int));
            }
            let ghost before = *self;
            let Cell { pos, glyph, attribs } = cell;
            self.put(glyph, attribs, pos);
            proof {
                assert(b0.cell_at(pos) == Some(Cell { pos, glyph, attribs }));
                assert forall|p: LocalPos|
                    #[trigger] self.cell_at(p) == if p.spec_in_bounds(size) && (exists|i: int|
                        0 <= i < k + 1 && #[trigger] dorig[i].pos == p) {
                        b0.cell_at(p)
                    } else {
                        None::<Cell>
                    } by {
                    if p == pos {
                        if p.spec_in_bounds(size) {
                            assert(dorig[k].pos == p);
                        } else {
                            assert(self.cell_at(p) is None);
                        }
                    } else {
                        assert(self.cell_at(p) == before.cell_at(p));
                        if exists|i: int| 0 <= i < k + 1 && #[trigger] dorig[i].pos == p {
                            let i = choose|i: int|
                                0 <= i < k + 1 && #[trigger] dorig[i].pos == p;
                            assert(i < k);
                        }
                    }
                }
            }
        }
        proof {
            assert forall|p: LocalPos| #[trigger] self.cell_at(p) == if p.spec_in_bounds(size) {
                b0.cell_at(p)
            } else {
                None::<Cell>
            } by {
                if p.spec_in_bounds(size) {
                    if b0.cell_at(p) is Some {
                        assert(exists|i: int| 0 <= i < dorig.len() && #[trigger] dorig[i].pos == p);
                    } else {
                        if exists|i: int| 0 <= i < dorig.len() && #[trigger] dorig[i].pos == p {
                            let i = choose|i: int|
                                0 <= i < dorig.len() && #[trigger] dorig[i].pos == p;
                            assert(b0.cell_at(dorig[i].pos) == Some(dorig[i]));
                            assert(false);
                        }
                    }
                }
            }
        }
    }
}

/// Overwriting a live slot in place only changes the cell at its position.
proof fn lemma_put_preserves(b0: Buffer, b1: Buffer, pos: LocalPos, cell: Cell, id: usize)
    requires
        b0.wf(),
        pos.spec_in_bounds(b0.size),
        cell == (Cell { pos, glyph: cell.glyph, attribs: cell.attribs }),
        cell.attribs.wf(),
        b0.positions@[pos.spec_index_in(b0.size.width as int)] == Entry::Occupied(id),
        id < b0.cells.slots@.len(),
        b1.cells.slots@ == b0.cells.slots@.update(id as int, Some(cell)),
        b1.cells.wf(),
        b1.positions@ == b0.positions@,
        b1.size == b0.size,
    ensures
        b1.wf(),
        forall|q: LocalPos|
            #[trigger] b1.cell_at(q) == if q == pos {
                Some(cell)
            } else {
                b0.cell_at(q)
            },
{
    let w = b0.size.width as int;
    assert(b0.cells.slots.len() == b0.cells.slots@.len());
    assert(b1.cells.slots.len() == b1.cells.slots@.len());
    lemma_index_in_range(pos, b0.size);
    let old_cell = b0.cells.slots@[id as int]->Some_0;
    assert(b0.cells.slots@[id as int] is Some);
    assert(old_cell.pos.spec_index_in(w) == pos.spec_index_in(w));
    lemma_index_injective(old_cell.pos, pos, b0.size);
    assert forall|q: LocalPos| #[trigger] b1.cell_at(q) == if q == pos {
        Some(cell)
    } else {
        b0.cell_at(q)
    } by {
        if q != pos && q.spec_in_bounds(b1.size) {
            lemma_index_in_range(q, b0.size);
            if q.spec_index_in(w) == pos.spec_index_in(w) {
                lemma_index_injective(q, pos, b0.size);
            }
            match b0.positions@[q.spec_index_in(w)] {
                Entry::Occupied(qid) => {
                    assert(qid != id);
                    assert(b1.cells.slots@[qid as int] == b0.cells.slots@[qid as int]);
                },
                Entry::Vacant => {},
            }
        }
    }
}

/// Filling a vacant slot only adds the cell at its position.
proof fn lemma_put_insert_preserves(b0: Buffer, b1: Buffer, pos: LocalPos, cell: Cell, id: usize)
    requires
        b0.wf(),
        pos.spec_in_bounds(b0.size),
        cell == (Cell { pos, glyph: cell.glyph, attribs: cell.attribs }),
        cell.attribs.wf(),
        b0.positions@[pos.spec_index_in(b0.size.width as int)] == Entry::Vacant,
        id < b1.cells.slots@.len(),
        id < b0.cells.slots@.len() ==> b0.cells.slots@[id as int] is None && b1.cells.slots@
            == b0.cells.slots@.update(id as int, Some(cell)),
        id >= b0.cells.slots@.len() ==> id == b0.cells.slots@.len() && b1.cells.slots@
            == b0.cells.slots@.push(Some(cell)),
        b1.cells.wf(),
        b1.positions@ == b0.positions@.update(
            pos.spec_index_in(b0.size.width as int),
            Entry::Occupied(id),
        ),
        b1.size == b0.size,
    ensures
        b1.wf(),
        forall|q: LocalPos|
            #[trigger] b1.cell_at(q) == if q == pos {
                Some(cell)
            } else {
                b0.cell_at(q)
            },
{
    let w = b0.size.width as int;
    assert(b0.cells.slots.len() == b0.cells.slots@.len());
    assert(b1.cells.slots.len() == b1.cells.slots@.len());
    lemma_index_in_range(pos, b0.size);
    assert forall|oid: int| 0 <= oid < b1.cells.slots@.len() implies match #[trigger] b1.cells.slots@[oid] {
        Some(c) => {
            &&& c.pos.spec_in_bounds(b1.size)
            &&& c.attribs.wf()
            &&& 0 <= c.pos.spec_index_in(b1.size.width as int) < b1.positions@.len()
            &&& b1.positions@[c.pos.spec_index_in(b1.size.width as int)] == Entry::Occupied(
                oid as usize,
            )
        },
        None => true,
    } by {
        if oid != id && b1.cells.slots@[oid] is Some {
            let c = b1.cells.slots@[oid]->Some_0;
            assert(b0.cells.slots@[oid] == Some(c));
            assert(b0.positions@[c.pos.spec_index_in(w)] == Entry::Occupied(oid as usize));
            assert(c.pos.spec_index_in(w) != pos.spec_index_in(w));
        }
    }
    assert forall|idx: int| 0 <= idx < b1.positions@.len() implies match #[trigger] b1.positions@[idx] {
        Entry::Occupied(oid) => {
            &&& oid < b1.cells.slots@.len()
            &&& b1.cells.slots@[oid as int] matches Some(c)
            &&& (b1.cells.slots@[oid as int] matches Some(c) ==> c.pos.spec_index_in(
                b1.size.width as int,
            ) == idx && c.pos.spec_in_bounds(b1.size))
        },
        Entry::Vacant => true,
    } by {
        if idx != pos.spec_index_in(w) {
            match b1.positions@[idx] {
                Entry::Occupied(oid) => {
                    assert(b0.positions@[idx] == Entry::Occupied(oid));
                    assert(b0.cells.slots@[oid as int] is Some);
                    assert(oid != id);
                },
                Entry::Vacant => {},
            }
        }
    }
    assert forall|q: LocalPos| #[trigger] b1.cell_at(q) == if q == pos {
        Some(cell)
    } else {
        b0.cell_at(q)
    } by {
        if q == pos {
            assert(b1.cell_at(q) == Some(cell));
        } else if q.spec_in_bounds(b1.size) {
            lemma_index_in_range(q, b0.size);
            if q.spec_index_in(w) == pos.spec_index_in(w) {
                lemma_index_injective(q, pos, b0.size);
            }
            match b0.positions@[q.spec_index_in(w)] {
                Entry::Occupied(qid) => {
                    assert(qid != id);
                },
                Entry::Vacant => {},
            }
        }
    }
}

/// Vacating a slot only removes the cell at its position.
proof fn lemma_remove_preserves(b0: Buffer, b1: Buffer, pos: LocalPos, id: usize)
    requires
        b0.wf(),
        pos.spec_in_bounds(b0.size),
        b0.positions@[pos.spec_index_in(b0.size.width as int)] == Entry::Occupied(id),
        id < b0.cells.slots@.len(),
        b1.cells.slots@ == b0.cells.slots@.update(id as int, None::<Cell>),
        b1.cells.wf(),
        b1.positions@ == b0.positions@.update(
            pos.spec_index_in(b0.size.width as int),
            Entry::Vacant,
        ),
        b1.size == b0.size,
    ensures
        b1.wf(),
        forall|q: LocalPos|
            #[trigger] b1.cell_at(q) == if q == pos {
                None::<Cell>
            } else {
                b0.cell_at(q)
            },
{
    let w = b0.size.width as int;
    assert(b0.cells.slots.len() == b0.cells.slots@.len());
    assert(b1.cells.slots.len() == b1.cells.slots@.len());
    lemma_index_in_range(pos, b0.size);
    assert forall|oid: int| 0 <= oid < b1.cells.slots@.len() implies match #[trigger] b1.cells.slots@[oid] {
        Some(c) => {
            &&& c.pos.spec_in_bounds(b1.size)
            &&& c.attribs.wf()
            &&& 0 <= c.pos.spec_index_in(b1.size.width as int) < b1.positions@.len()
            &&& b1.positions@[c.pos.spec_index_in(b1.size.width as int)] == Entry::Occupied(
                oid as usize,
            )
        },
        None => true,
    } by {
        if oid != id && b1.cells.slots@[oid] is Some {
            let c = b1.cells.slots@[oid]->Some_0;
            assert(b0.cells.slots@[oid] == Some(c));
            if c.pos.spec_index_in(w) == pos.spec_index_in(w) {
                assert(b0.positions@[c.pos.spec_index_in(w)] == Entry::Occupied(oid as usize));
                assert(false);
            }
        }
    }
    assert forall|q: LocalPos| #[trigger] b1.cell_at(q) == if q == pos {
        None::<Cell>
    } else {
        b0.cell_at(q)
    } by {
        if q != pos && q.spec_in_bounds(b1.size) {
            lemma_index_in_range(q, b0.size);
            if q.spec_index_in(w) == pos.spec_index_in(w) {
                lemma_index_injective(q, pos, b0.size);
            }
            match b0.positions@[q.spec_index_in(w)] {
                Entry::Occupied(qid) => {
                    assert(qid != id);
                    assert(b1.cells.slots@[qid as int] == b0.cells.slots@[qid as int]);
                },
                Entry::Vacant => {},
            }
        }
    }
}

/// A drawing surface widget: a sparse buffer of glyphs at local positions,
/// anchored at a global position once the position pass has run.
#[derive(Debug)]
pub struct Canvas {
    pub buffer: Buffer,
    pub pos: Pos,
}

impl Canvas {
    pub open spec fn wf(self) -> bool {
        self.buffer.wf()
    }

    /// Map a global position into this canvas's local space.
    pub fn translate(&self, pos: Pos) -> (r: LocalPos)
        requires
            self.pos.x <= pos.x <= self.pos.x + u16::MAX,
            self.pos.y <= pos.y <= self.pos.y + u16::MAX,
        ensures
            r.x == pos.x - self.pos.x,
            r.y == pos.y - self.pos.y,
    {
        LocalPos { x: (pos.x - self.pos.x) as u16, y: (pos.y - self.pos.y) as u16 }
    }

    /// Write a glyph at a local position, overwriting any occupant;
    /// out-of-bounds positions are silently ignored.
    pub fn put(&mut self, c: char, attribs: CanvasAttribs, pos: LocalPos)
        requires
            old(self).wf(),
            attribs.wf(),
        ensures
            final(self).wf(),
            final(self).pos == old(self).pos,
            final(self).buffer.size == old(self).buffer.size,
            pos.spec_in_bounds(old(self).buffer.size) ==> forall|q: LocalPos|
                #[trigger] final(self).buffer.cell_at(q) == if q == pos {
                    Some(Cell { pos, glyph: c, attribs })
                } else {
                    old(self).buffer.cell_at(q)
                },
            !pos.spec_in_bounds(old(self).buffer.size) ==> *final(self) == *old(self),
    {
        self.buffer.put(c, attribs, pos)
    }

    /// Read the glyph and attributes at a local position.
    pub fn get(&self, pos: LocalPos) -> (r: Option<(&char, &CanvasAttribs)>)
        requires
            self.wf(),
        ensures
            match r {
                Some((c, a)) => self.buffer.cell_at(pos) == Some(
                    Cell { pos, glyph: *c, attribs: *a },
                ),
                None => self.buffer.cell_at(pos) is None,
            },
    {
        match self.buffer.get(pos) {
            Some(cell) => {
                proof {
                    assert(self.buffer.cell_at(pos) == Some(*cell));
                    assert(pos.spec_in_bounds(self.buffer.size));
                    lemma_index_in_range(pos, self.buffer.size);
                    let w = self.buffer.size.width as int;
                    assert(cell.pos.spec_index_in(w) == pos.spec_index_in(w));
                    lemma_index_injective(cell.pos, pos, self.buffer.size);
                }
                Some((&cell.glyph, &cell.attribs))
            },
            None => None,
        }
    }

    /// Erase the cell at a local position; out-of-bounds or vacant positions
    /// are silently ignored.
    pub fn erase(&mut self, pos: LocalPos)
        requires
            old(self).wf(),
        ensures
            final(self).wf(),
            final(self).pos == old(self).pos,
            final(self).buffer.size == old(self).buffer.size,
            forall|q: LocalPos|
                #[trigger] final(self).buffer.cell_at(q) == if q == pos {
                    None::<Cell>
                } else {
                    old(self).buffer.cell_at(q)
                },
    {
        self.buffer.remove(pos)
    }
}

impl Default for Canvas {
    /// An unanchored canvas with a 32 by 32 buffer.
    fn default() -> (r: Canvas)
        ensures
            r.wf(),
            r.buffer.size == (Size { width: 32, height: 32 }),
            r.pos == (Pos { x: 0, y: 0 }),
            forall|p: LocalPos| #[trigger] r.buffer.cell_at(p) is None,
    {
        Canvas { buffer: Buffer::new(Size { width: 32, height: 32 }), pos: Pos { x: 0, y: 0 } }
    }
}

/// The envelope a canvas works under: the received one with its maxima
/// capped by the `width` and `height` attributes.
pub open spec fn spec_canvas_constraints(
    storage: crate::attribs::AttributeStorage,
    id: crate::attribs::WidgetId,
    c: crate::constraints::Constraints,
) -> crate::constraints::Constraints {
    let w = match crate::container::spec_dim_attr(storage, id, "width"@) {
        Some(v) => crate::container::spec_lower_max(c.min_width as int, c.max_width as int, v),
        None => (c.min_width as int, c.max_width as int),
    };
    let h = match crate::container::spec_dim_attr(storage, id, "height"@) {
        Some(v) => crate::container::spec_lower_max(c.min_height as int, c.max_height as int, v),
        None => (c.min_height as int, c.max_height as int),
    };
    crate::constraints::Constraints {
        min_width: w.0 as usize,
        max_width: w.1 as usize,
        min_height: h.0 as usize,
        max_height: h.1 as usize,
    }
}

impl Canvas {
    /// Lay the canvas out: cap the maxima by the `width` and `height`
    /// attributes, take the capped maximum size, and resize the buffer to it,
    /// keeping the content that stays in bounds.
    pub fn layout(
        &mut self,
        storage: &crate::attribs::AttributeStorage,
        id: crate::attribs::WidgetId,
        constraints: crate::constraints::Constraints,
    ) -> (s: Size)
        requires
            old(self).wf(),
            constraints.wf(),
            constraints.max_width * constraints.max_height <= usize::MAX,
        ensures
            final(self).wf(),
            final(self).pos == old(self).pos,
            s.width == spec_canvas_constraints(*storage, id, constraints).max_width,
            s.height == spec_canvas_constraints(*storage, id, constraints).max_height,
            constraints.spec_contains(s),
            final(self).buffer.size == s,
            forall|p: LocalPos|
                #[trigger] final(self).buffer.cell_at(p) == if p.spec_in_bounds(s) {
                    old(self).buffer.cell_at(p)
                } else {
                    None::<Cell>
                },
    {
        let mut c = constraints;
        if let Some(width) = storage.get_int(id, "width") {
            if width >= 0 {
                c.set_max_width(crate::container::usize_of_i64(width));
            }
        }
        if let Some(height) = storage.get_int(id, "height") {
            if height >= 0 {
                c.set_max_height(crate::container::usize_of_i64(height));
            }
        }
        let size = c.max_size();
        proof {
            assert(size.width * size.height <= constraints.max_width * constraints.max_height)
                by (nonlinear_arith)
                requires
                    0 <= size.width <= constraints.max_width,
                    0 <= size.height <= constraints.max_height,
            ;
        }
        if !(self.buffer.size == size) {
            self.buffer.resize(size);
        } else {
            proof {
                assert(forall|p: LocalPos|
                    !p.spec_in_bounds(size) ==> #[trigger] self.buffer.cell_at(p) is None);
            }
        }
        size
    }
}

/// The put/get/erase round trip over the buffer model: after writing a cell
/// its position reads back as exactly the written glyph and attributes;
/// after erasing it the position reads as vacant; and no other position is
/// touched by either step.
pub proof fn lemma_put_get_erase_round_trip(
    b0: Buffer,
    b1: Buffer,
    b2: Buffer,
    c: char,
    attribs: CanvasAttribs,
    p: LocalPos,
)
    requires
        p.spec_in_bounds(b0.size),
        forall|q: LocalPos|
            #[trigger] b1.cell_at(q) == if q == p {
                Some(Cell { pos: p, glyph: c, attribs })
            } else {
                b0.cell_at(q)
            },
        forall|q: LocalPos|
            #[trigger] b2.cell_at(q) == if q == p {
                None::<Cell>
            } else {
                b1.cell_at(q)
            },
    ensures
        b1.cell_at(p) == Some(Cell { pos: p, glyph: c, attribs }),
        b2.cell_at(p) is None,
        forall|q: LocalPos| q != p ==> #[trigger] b2.cell_at(q) == b0.cell_at(q),
{
}

} // verus!

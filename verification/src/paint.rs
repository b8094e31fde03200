use vstd::prelude::*;
use vstd::string::StrSliceExecFns;

use crate::attribs::AttributeStorage;
use crate::attribs::CanvasAttribs;
use crate::element::node_wf;
use crate::element::Display;
use crate::element::Node;
use crate::element::Widget;
use crate::element::WidgetKind;
use crate::geometry::LocalPos;
use crate::geometry::Pos;
use crate::geometry::Region;
use crate::geometry::Size;

verus! {

/// The number of terminal columns a character occupies, or nothing for a
/// control character; a function of the character alone.
pub uninterp spec fn unicode_char_width(c: char) -> Option<usize>;

/// Relies on unicode_width::UnicodeWidthChar::width: the displayed width of
/// a character in terminal columns, `None` for control characters; the
/// result depends on the character alone. In the pinned version the widths
/// are 0, 1 or 2 columns for every character but U+17D8, whose documented
/// width rule is 3; the bound below must track the pinned version.
#[verifier::external_body]
fn char_width(c: char) -> (w: Option<usize>)
    ensures
        w == unicode_char_width(c),
        w matches Some(x) ==> x <= 3,
{
    unicode_width::UnicodeWidthChar::width(c)
}

/// The width a glyph advances the cursor by: its displayed width, zero for
/// control characters.
pub open spec fn spec_glyph_width(c: char) -> int {
    match unicode_char_width(c) {
        Some(w) => w as int,
        None => 0,
    }
}

/// The surface the paint pass draws into: the terminal backend implements
/// this. A cell holds the last glyph drawn at its coordinate; drawing
/// outside the surface changes nothing.
pub trait WidgetRenderer: Sized {
    /// The implementation's own well-formedness.
    spec fn inv(&self) -> bool;

    /// The surface's dimensions.
    spec fn spec_size(&self) -> Size;

    /// The glyph each coordinate holds.
    spec fn cells(&self) -> Map<(int, int), char>;

    /// The attributes drawn with the glyph each coordinate holds.
    spec fn attrs(&self) -> Map<(int, int), CanvasAttribs>;

    fn size(&self) -> (s: Size)
        requires
            self.inv(),
        ensures
            s == self.spec_size(),
    ;

    fn draw_glyph(&mut self, c: char, attribs: &CanvasAttribs, pos: Pos)
        requires
            old(self).inv(),
        ensures
            final(self).inv(),
            final(self).spec_size() == old(self).spec_size(),
            final(self).cells() == if 0 <= pos.x < old(self).spec_size().width && 0 <= pos.y < old(self).spec_size().height {
                old(self).cells().insert((pos.x as int, pos.y as int), c)
            } else {
                old(self).cells()
            },
            final(self).attrs() == if 0 <= pos.x < old(self).spec_size().width && 0 <= pos.y < old(self).spec_size().height {
                old(self).attrs().insert((pos.x as int, pos.y as int), *attribs)
            } else {
                old(self).attrs()
            },
    ;
}

/// The phase before a node's size and position are known: the context can
/// only carry the surface and clip region down the tree.
#[derive(Debug, Copy, Clone)]
pub struct Unsized;

/// The phase after layout and position: a known local size and global
/// position, which glyph placement translates against.
#[derive(Debug, Copy, Clone, PartialEq, Eq, Structural)]
pub struct SizePos {
    pub local_size: Size,
    pub global_pos: Pos,
}

impl SizePos {
    pub fn new(local_size: Size, global_pos: Pos) -> (r: SizePos)
        ensures
            r.local_size == local_size,
            r.global_pos == global_pos,
    {
        SizePos { local_size, global_pos }
    }
}

/// The paint context: the surface, the active clip region, and the phase
/// state. Glyphs can only be placed once the context is sized.
pub struct PaintCtx<R, St> {
    pub surface: R,
    pub clip: Option<Region>,
    pub state: St,
}

/// A local position translated to the screen, each axis capped at the `i32`
/// range.
pub open spec fn spec_global(gp: Pos, lp: LocalPos) -> Pos {
    Pos {
        x: vstd::math::min(gp.x + lp.x, i32::MAX as int) as i32,
        y: vstd::math::min(gp.y + lp.y, i32::MAX as int) as i32,
    }
}

/// The cursor after a glyph of width `w`, capped at the `u16` range.
pub open spec fn spec_advance(lp: LocalPos, w: int) -> LocalPos {
    LocalPos { x: vstd::math::min(lp.x + w, u16::MAX as int) as u16, y: lp.y }
}

/// The cursor at the start of the next row, or nothing when that row is
/// outside the local size or the `u16` range.
pub open spec fn spec_newline(lp: LocalPos, height: int) -> Option<LocalPos> {
    if lp.y + 1 < height && lp.y + 1 <= u16::MAX {
        Some(LocalPos { x: 0, y: (lp.y + 1) as u16 })
    } else {
        None
    }
}

/// Whether placing `c` at `lp` reaches the renderer: the glyph passes the
/// clip region, is no newline, fits the local size, and lands on the
/// surface.
pub open spec fn spec_glyph_draws(
    st: SizePos,
    clip: Option<Region>,
    ssize: Size,
    c: char,
    lp: LocalPos,
) -> bool {
    let gp = spec_global(st.global_pos, lp);
    let w = spec_glyph_width(c);
    &&& (match clip {
        Some(cl) => cl.spec_contains(gp),
        None => true,
    })
    &&& c != '\n'
    &&& lp.x + w <= st.local_size.width
    &&& lp.y < st.local_size.height
    &&& 0 <= gp.x < ssize.width
    &&& 0 <= gp.y < ssize.height
}

/// The cursor one glyph placement returns: an advanced cursor where the
/// glyph was clipped, skipped off surface or drawn; the next row on a
/// newline or at the row's end; nothing when there is no room.
pub open spec fn spec_glyph_cursor(
    st: SizePos,
    clip: Option<Region>,
    ssize: Size,
    c: char,
    lp: LocalPos,
) -> Option<LocalPos> {
    let gp = spec_global(st.global_pos, lp);
    let w = spec_glyph_width(c);
    let clipped = match clip {
        Some(cl) => !cl.spec_contains(gp),
        None => false,
    };
    if clipped {
        Some(spec_advance(lp, w))
    } else if c == '\n' {
        spec_newline(lp, st.local_size.height as int)
    } else if !(lp.x + w <= st.local_size.width && lp.y < st.local_size.height) {
        None
    } else if !(0 <= gp.x < ssize.width && 0 <= gp.y < ssize.height) {
        Some(spec_advance(lp, w))
    } else if lp.x >= st.local_size.width {
        spec_newline(lp, st.local_size.height as int)
    } else {
        Some(spec_advance(lp, w))
    }
}

/// The cell map after one glyph placement: the glyph lands at its translated
/// coordinate exactly when it draws.
pub open spec fn spec_glyph_cells(
    st: SizePos,
    clip: Option<Region>,
    ssize: Size,
    cells: Map<(int, int), char>,
    c: char,
    lp: LocalPos,
) -> Map<(int, int), char> {
    if spec_glyph_draws(st, clip, ssize, c, lp) {
        let gp = spec_global(st.global_pos, lp);
        cells.insert((gp.x as int, gp.y as int), c)
    } else {
        cells
    }
}

/// The attribute map after one glyph placement.
pub open spec fn spec_glyph_attrs(
    st: SizePos,
    clip: Option<Region>,
    ssize: Size,
    attrs: Map<(int, int), CanvasAttribs>,
    c: char,
    a: CanvasAttribs,
    lp: LocalPos,
) -> Map<(int, int), CanvasAttribs> {
    if spec_glyph_draws(st, clip, ssize, c, lp) {
        let gp = spec_global(st.global_pos, lp);
        attrs.insert((gp.x as int, gp.y as int), a)
    } else {
        attrs
    }
}

/// The cursor after placing a string glyph by glyph, each starting where
/// the previous one ended; nothing as soon as one glyph finds no room.
pub open spec fn spec_glyphs_cursor(
    st: SizePos,
    clip: Option<Region>,
    ssize: Size,
    s: Seq<char>,
    lp: LocalPos,
) -> Option<LocalPos>
    decreases s,
{
    if s.len() == 0 {
        Some(lp)
    } else {
        match spec_glyph_cursor(st, clip, ssize, s[0], lp) {
            Some(p) => spec_glyphs_cursor(st, clip, ssize, s.drop_first(), p),
            None => None,
        }
    }
}

/// The cell map after placing a string in order, stopping at the first
/// glyph that finds no room.
pub open spec fn spec_glyphs_cells(
    st: SizePos,
    clip: Option<Region>,
    ssize: Size,
    cells: Map<(int, int), char>,
    s: Seq<char>,
    lp: LocalPos,
) -> Map<(int, int), char>
    decreases s,
{
    if s.len() == 0 {
        cells
    } else {
        let cells1 = spec_glyph_cells(st, clip, ssize, cells, s[0], lp);
        match spec_glyph_cursor(st, clip, ssize, s[0], lp) {
            Some(p) => spec_glyphs_cells(st, clip, ssize, cells1, s.drop_first(), p),
            None => cells1,
        }
    }
}

/// The attribute map after placing a string, every glyph under the same
/// attribute set.
pub open spec fn spec_glyphs_attrs(
    st: SizePos,
    clip: Option<Region>,
    ssize: Size,
    attrs: Map<(int, int), CanvasAttribs>,
    s: Seq<char>,
    lp: LocalPos,
    a: CanvasAttribs,
) -> Map<(int, int), CanvasAttribs>
    decreases s,
{
    if s.len() == 0 {
        attrs
    } else {
        let attrs1 = spec_glyph_attrs(st, clip, ssize, attrs, s[0], a, lp);
        match spec_glyph_cursor(st, clip, ssize, s[0], lp) {
            Some(p) => spec_glyphs_attrs(st, clip, ssize, attrs1, s.drop_first(), p, a),
            None => attrs1,
        }
    }
}

impl<R: WidgetRenderer> PaintCtx<R, Unsized> {
    pub fn new(surface: R, clip: Option<Region>) -> (r: PaintCtx<R, Unsized>)
        ensures
            r.surface == surface,
            r.clip == clip,
    {
        PaintCtx { surface, clip, state: Unsized }
    }

    /// Enter the sized phase with a known size and global position.
    pub fn into_sized(self, size: Size, global_pos: Pos) -> (r: PaintCtx<R, SizePos>)
        ensures
            r.surface == self.surface,
            r.clip == self.clip,
            r.state == (SizePos { local_size: size, global_pos }),
    {
        PaintCtx { surface: self.surface, clip: self.clip, state: SizePos::new(size, global_pos) }
    }

    /// Narrow the clip region by intersection with `region`.
    pub fn set_clip_region(&mut self, region: Region)
        ensures
            final(self).surface == old(self).surface,
            final(self).clip == match old(self).clip {
                Some(cl) => Some(cl.spec_intersection(region)),
                None => Some(region),
            },
    {
        match &mut self.clip {
            Some(cl) => cl.intersect_with(&region),
            None => {
                self.clip = Some(region);
            },
        }
    }
}

impl<R: WidgetRenderer> PaintCtx<R, SizePos> {
    /// Leave the sized phase, keeping the surface and clip region.
    pub fn to_unsized(self) -> (r: PaintCtx<R, Unsized>)
        ensures
            r.surface == self.surface,
            r.clip == self.clip,
    {
        PaintCtx { surface: self.surface, clip: self.clip, state: Unsized }
    }

    /// Replace the size and position.
    pub fn update(&mut self, new_size: Size, new_pos: Pos)
        ensures
            final(self).surface == old(self).surface,
            final(self).clip == old(self).clip,
            final(self).state == (SizePos { local_size: new_size, global_pos: new_pos }),
    {
        self.state.local_size = new_size;
        self.state.global_pos = new_pos;
    }

    /// The region this context covers: from its global position over its
    /// local size, constrained by the active clip region.
    pub fn create_region(&self) -> (r: Region)
        ensures
            ({
                let base = Region {
                    from: self.state.global_pos,
                    to: Pos {
                        x: crate::constraints::clamp(
                            self.state.global_pos.x + self.state.local_size.width - 1,
                            i32::MIN as int,
                            i32::MAX as int,
                        ) as i32,
                        y: crate::constraints::clamp(
                            self.state.global_pos.y + self.state.local_size.height - 1,
                            i32::MIN as int,
                            i32::MAX as int,
                        ) as i32,
                    },
                };
                r == match self.clip {
                    Some(cl) => base.spec_intersection(cl),
                    None => base,
                }
            }),
    {
        let to_x = coord_end(self.state.global_pos.x, self.state.local_size.width);
        let to_y = coord_end(self.state.global_pos.y, self.state.local_size.height);
        let mut region = Region::new(self.state.global_pos, Pos { x: to_x, y: to_y });
        if let Some(existing) = &self.clip {
            region.constrain(existing);
        }
        region
    }

    /// The start of the next row, or nothing when it is out of room.
    fn newline(&self, pos: LocalPos) -> (r: Option<LocalPos>)
        ensures
            r == spec_newline(pos, self.state.local_size.height as int),
    {
        let ny = pos.y as usize + 1;
        if ny < self.state.local_size.height && ny <= u16::MAX as usize {
            Some(LocalPos { x: 0, y: pos.y + 1 })
        } else {
            None
        }
    }

    /// Place one glyph at a local position and return the advanced cursor.
    ///
    /// A glyph whose global position lies outside the clip region is not
    /// drawn, but the cursor still advances as if it had been. A newline
    /// moves the cursor to the next row, or signals the end of room. A glyph
    /// that does not fit the local size signals the end of room. A glyph
    /// that falls off the surface advances without drawing. Otherwise the
    /// glyph is drawn at its screen coordinate.
    pub fn place_glyph(&mut self, c: char, attribs: &CanvasAttribs, input_pos: LocalPos) -> (r:
        Option<LocalPos>)
        requires
            old(self).surface.inv(),
        ensures
            final(self).surface.inv(),
            final(self).surface.spec_size() == old(self).surface.spec_size(),
            final(self).clip == old(self).clip,
            final(self).state == old(self).state,
            r == spec_glyph_cursor(
                old(self).state,
                old(self).clip,
                old(self).surface.spec_size(),
                c,
                input_pos,
            ),
            final(self).surface.cells() == spec_glyph_cells(
                old(self).state,
                old(self).clip,
                old(self).surface.spec_size(),
                old(self).surface.cells(),
                c,
                input_pos,
            ),
            final(self).surface.attrs() == spec_glyph_attrs(
                old(self).state,
                old(self).clip,
                old(self).surface.spec_size(),
                old(self).surface.attrs(),
                c,
                *attribs,
                input_pos,
            ),
    {
        let width = match char_width(c) {
            Some(w) => w,
            None => 0,
        };
        let nx_wide = input_pos.x as usize + width;
        let next = LocalPos {
            x: if nx_wide > u16::MAX as usize {
                u16::MAX
            } else {
                nx_wide as u16
            },
            y: input_pos.y,
        };
        let gp = global_of(self.state.global_pos, input_pos);
        let clipped = match &self.clip {
            Some(cl) => !cl.contains(gp),
            None => false,
        };
        if clipped {
            return Some(next);
        }
        if c == '\n' {
            return self.newline(input_pos);
        }
        if !(input_pos.x as usize + width <= self.state.local_size.width && (input_pos.y as usize)
            < self.state.local_size.height) {
            return None;
        }
        let ssize = self.surface.size();
        let inside = gp.x >= 0 && gp.y >= 0 && (gp.x as usize) < ssize.width && (gp.y as usize)
            < ssize.height;
        if !inside {
            return Some(next);
        }
        self.surface.draw_glyph(c, attribs, gp);
        if input_pos.x as usize >= self.state.local_size.width {
            self.newline(input_pos)
        } else {
            Some(next)
        }
    }

    /// Place a string glyph by glyph, each starting at the cursor the
    /// previous one returned; the first glyph that finds no room ends the
    /// run and nothing further is placed.
    pub fn place_glyphs(&mut self, s: &str, attribs: &CanvasAttribs, pos: LocalPos) -> (r: Option<
        LocalPos,
    >)
        requires
            old(self).surface.inv(),
        ensures
            final(self).surface.inv(),
            final(self).surface.spec_size() == old(self).surface.spec_size(),
            final(self).clip == old(self).clip,
            final(self).state == old(self).state,
            r == spec_glyphs_cursor(
                old(self).state,
                old(self).clip,
                old(self).surface.spec_size(),
                s@,
                pos,
            ),
            final(self).surface.cells() == spec_glyphs_cells(
                old(self).state,
                old(self).clip,
                old(self).surface.spec_size(),
                old(self).surface.cells(),
                s@,
                pos,
            ),
            final(self).surface.attrs() == spec_glyphs_attrs(
                old(self).state,
                old(self).clip,
                old(self).surface.spec_size(),
                old(self).surface.attrs(),
                s@,
                pos,
                *attribs,
            ),
    {
        let ghost st0 = old(self).state;
        let ghost clip0 = old(self).clip;
        let ghost ssize0 = old(self).surface.spec_size();
        let ghost cells0 = old(self).surface.cells();
        let ghost attrs0 = old(self).surface.attrs();
        let len = s.unicode_len();
        let mut cur = pos;
        let mut i: usize = 0;
        proof {
            assert(s@.subrange(0, s@.len() as int) =~= s@);
        }
        while i < len
            invariant
                self.surface.inv(),
                self.surface.spec_size() == ssize0,
                self.clip == clip0,
                self.state == st0,
                st0 == old(self).state,
                clip0 == old(self).clip,
                ssize0 == old(self).surface.spec_size(),
                cells0 == old(self).surface.cells(),
                attrs0 == old(self).surface.attrs(),
                len == s@.len(),
                i <= len,
                spec_glyphs_cursor(st0, clip0, ssize0, s@, pos) == spec_glyphs_cursor(
                    st0,
                    clip0,
                    ssize0,
                    s@.subrange(i as int, len as int),
                    cur,
                ),
                spec_glyphs_cells(st0, clip0, ssize0, cells0, s@, pos) == spec_glyphs_cells(
                    st0,
                    clip0,
                    ssize0,
                    self.surface.cells(),
                    s@.subrange(i as int, len as int),
                    cur,
                ),
                spec_glyphs_attrs(st0, clip0, ssize0, attrs0, s@, pos, *attribs)
                    == spec_glyphs_attrs(
                    st0,
                    clip0,
                    ssize0,
                    self.surface.attrs(),
                    s@.subrange(i as int, len as int),
                    cur,
                    *attribs,
                ),
            decreases len - i,
        {
            let ghost sub = s@.subrange(i as int, len as int);
            let ghost pos_e = cur;
            let ghost cells_e = self.surface.cells();
            let ghost attrs_e = self.surface.attrs();
            let c = s.get_char(i);
            proof {
                assert(sub[0] == s@[i as int]);
                assert(sub.drop_first() =~= s@.subrange(i + 1, len as int));
            }
            match self.place_glyph(c, attribs, cur) {
                Some(p) => {
                    cur = p;
                },
                None => {
                    proof {
                        assert(spec_glyphs_cursor(st0, clip0, ssize0, sub, pos_e) is None);
                        assert(spec_glyphs_cells(st0, clip0, ssize0, cells_e, sub, pos_e)
                            == self.surface.cells());
                        assert(spec_glyphs_attrs(st0, clip0, ssize0, attrs_e, sub, pos_e, *attribs)
                            == self.surface.attrs());
                    }
                    return None;
                },
            }
            i = i + 1;
        }
        proof {
            assert(s@.subrange(len as int, len as int) =~= Seq::<char>::empty());
        }
        Some(cur)
    }
}

/// A global position plus a local offset, capped at the `i32` range.
fn global_of(gp: Pos, lp: LocalPos) -> (r: Pos)
    ensures
        r == spec_global(gp, lp),
{
    let x_wide: i64 = gp.x as i64 + lp.x as i64;
    let y_wide: i64 = gp.y as i64 + lp.y as i64;
    Pos {
        x: if x_wide > i32::MAX as i64 {
            i32::MAX
        } else {
            x_wide as i32
        },
        y: if y_wide > i32::MAX as i64 {
            i32::MAX
        } else {
            y_wide as i32
        },
    }
}

/// The end coordinate of a span `len` cells wide starting at `start`,
/// capped at the `i32` range.
fn coord_end(start: i32, len: usize) -> (r: i32)
    ensures
        r == crate::constraints::clamp(start + len - 1, i32::MIN as int, i32::MAX as int),
{
    if len > u32::MAX as usize {
        proof {
            assert(start + len - 1 >= i32::MAX);
        }
        i32::MAX
    } else {
        let wide: i64 = start as i64 + len as i64 - 1;
        if wide > i32::MAX as i64 {
            i32::MAX
        } else if wide < i32::MIN as i64 {
            i32::MIN
        } else {
            wide as i32
        }
    }
}

/// What the paint traversal does at one node.
#[derive(Debug, Clone, Copy, PartialEq, Eq, Structural)]
pub enum FilterOutcome {
    /// Paint this element and let it paint its children.
    Include,
    /// Do not paint this node, but look for elements below it.
    PassThrough,
    /// Skip this whole subtree.
    Stop,
}

/// The paint pass's inclusion rule: hidden and excluded elements stop their
/// subtree, dead conditional branches stop theirs, and — when the normal
/// layer is painted — floating elements are skipped for a later pass.
pub struct PaintFilter {
    pub ignore_floats: bool,
}

/// The verdict the paint filter gives a node.
pub open spec fn spec_paint_filter(ignore_floats: bool, kind: WidgetKind) -> FilterOutcome {
    match kind {
        WidgetKind::Element(el) => {
            if ignore_floats && el.container.inner.spec_floats() {
                FilterOutcome::Stop
            } else if el.container.display == Display::Show {
                FilterOutcome::Include
            } else {
                FilterOutcome::Stop
            }
        },
        WidgetKind::If { show } => if show {
            FilterOutcome::PassThrough
        } else {
            FilterOutcome::Stop
        },
        WidgetKind::Else { show } => if show {
            FilterOutcome::PassThrough
        } else {
            FilterOutcome::Stop
        },
    }
}

impl PaintFilter {
    pub fn new(ignore_floats: bool) -> (r: PaintFilter)
        ensures
            r.ignore_floats == ignore_floats,
    {
        PaintFilter { ignore_floats }
    }

    pub fn filter(&self, kind: &WidgetKind) -> (r: FilterOutcome)
        ensures
            r == spec_paint_filter(self.ignore_floats, *kind),
    {
        match kind {
            WidgetKind::Element(el) => {
                if self.ignore_floats && el.container.inner.floats() {
                    FilterOutcome::Stop
                } else if matches!(el.container.display, Display::Show) {
                    FilterOutcome::Include
                } else {
                    FilterOutcome::Stop
                }
            },
            WidgetKind::If { show } => if *show {
                FilterOutcome::PassThrough
            } else {
                FilterOutcome::Stop
            },
            WidgetKind::Else { show } => if *show {
                FilterOutcome::PassThrough
            } else {
                FilterOutcome::Stop
            },
        }
    }
}

/// The cell map after a canvas paints its pool: every occupied slot's
/// glyph placed at its cell's local position, in slot order.
pub open spec fn spec_paint_slots(
    slots: Seq<Option<crate::canvas::Cell>>,
    st: SizePos,
    clip: Option<Region>,
    ssize: Size,
    cells: Map<(int, int), char>,
) -> Map<(int, int), char>
    decreases slots,
{
    if slots.len() == 0 {
        cells
    } else {
        let cells1 = match slots[0] {
            Some(cell) => spec_glyph_cells(st, clip, ssize, cells, cell.glyph, cell.pos),
            None => cells,
        };
        spec_paint_slots(slots.drop_first(), st, clip, ssize, cells1)
    }
}

/// The cell map after the normal layer paints one node: an included element
/// draws its own glyphs (canvas cells, or its text run from the origin) and
/// paints its children, a position element with the clip disabled; a live
/// marker paints the elements below it; a stopped subtree changes nothing.
pub open spec fn spec_paint_node_cells(
    n: Node,
    clip: Option<Region>,
    ssize: Size,
    cells: Map<(int, int), char>,
    ignore_floats: bool,
) -> Map<(int, int), char>
    decreases n, 0nat,
{
    match spec_paint_filter(ignore_floats, n.kind) {
        FilterOutcome::Stop => cells,
        FilterOutcome::PassThrough => spec_paint_children_cells(
            n.children@,
            clip,
            ssize,
            cells,
            ignore_floats,
        ),
        FilterOutcome::Include => match n.kind {
            WidgetKind::Element(el) => {
                let st = SizePos {
                    local_size: el.container.size,
                    global_pos: el.container.pos,
                };
                match el.container.inner {
                    Widget::Canvas(canvas) => spec_paint_slots(
                        canvas.buffer.cells.slots@,
                        st,
                        clip,
                        ssize,
                        cells,
                    ),
                    Widget::Text(t) => spec_glyphs_cells(
                        st,
                        clip,
                        ssize,
                        cells,
                        t.text@,
                        LocalPos { x: 0, y: 0 },
                    ),
                    Widget::Position(_) => spec_paint_children_cells(
                        n.children@,
                        None,
                        ssize,
                        cells,
                        ignore_floats,
                    ),
                    _ => spec_paint_children_cells(n.children@, clip, ssize, cells, ignore_floats),
                }
            },
            _ => cells,
        },
    }
}

/// The cell map after the normal layer paints a child list in order.
pub open spec fn spec_paint_children_cells(
    s: Seq<Node>,
    clip: Option<Region>,
    ssize: Size,
    cells: Map<(int, int), char>,
    ignore_floats: bool,
) -> Map<(int, int), char>
    decreases s, 1nat,
{
    if s.len() == 0 {
        cells
    } else {
        spec_paint_children_cells(
            s.drop_first(),
            clip,
            ssize,
            spec_paint_node_cells(s[0], clip, ssize, cells, ignore_floats),
            ignore_floats,
        )
    }
}

/// The cell map after the floating layer: each floating element's whole
/// subtree painted with the clip disabled and floats included, found by
/// descending through shown elements and live markers.
pub open spec fn spec_paint_floats_cells(
    n: Node,
    ssize: Size,
    cells: Map<(int, int), char>,
) -> Map<(int, int), char>
    decreases n, 2nat,
{
    match n.kind {
        WidgetKind::Element(el) => if el.container.inner.spec_floats() {
            spec_paint_node_cells(n, None, ssize, cells, false)
        } else {
            spec_paint_floats_children_cells(n.children@, ssize, cells)
        },
        WidgetKind::If { show } => if show {
            spec_paint_floats_children_cells(n.children@, ssize, cells)
        } else {
            cells
        },
        WidgetKind::Else { show } => if show {
            spec_paint_floats_children_cells(n.children@, ssize, cells)
        } else {
            cells
        },
    }
}

/// The cell map after the floating layer walks a child list in order.
pub open spec fn spec_paint_floats_children_cells(
    s: Seq<Node>,
    ssize: Size,
    cells: Map<(int, int), char>,
) -> Map<(int, int), char>
    decreases s, 3nat,
{
    if s.len() == 0 {
        cells
    } else {
        spec_paint_floats_children_cells(
            s.drop_first(),
            ssize,
            spec_paint_floats_cells(s[0], ssize, cells),
        )
    }
}

/// Paint one node of the normal layer: an included element enters the sized
/// phase with its cached size and position, draws its own glyphs, and paints
/// its children; the tree itself is not changed by painting.
pub fn paint_node<R: WidgetRenderer>(
    node: &Node,
    ctx: PaintCtx<R, Unsized>,
    storage: &AttributeStorage,
    filter: &PaintFilter,
) -> (r: PaintCtx<R, Unsized>)
    requires
        node_wf(*node),
        ctx.surface.inv(),
    ensures
        r.surface.inv(),
        r.surface.spec_size() == ctx.surface.spec_size(),
        r.clip == ctx.clip,
        r.surface.cells() == spec_paint_node_cells(
            *node,
            ctx.clip,
            ctx.surface.spec_size(),
            ctx.surface.cells(),
            filter.ignore_floats,
        ),
    decreases node, 0nat,
{
    let verdict = filter.filter(&node.kind);
    match verdict {
        FilterOutcome::Stop => ctx,
        FilterOutcome::PassThrough => {
            proof {
                assert(decreases_to!(node => node.children));
                assert(decreases_to!(node.children => node.children@));
            }
            paint_children(&node.children, ctx, storage, filter)
        },
        FilterOutcome::Include => {
            proof {
                assert(decreases_to!(node => node.children));
                assert(decreases_to!(node.children => node.children@));
            }
            let saved_clip = copy_clip(&ctx.clip);
            match &node.kind {
                WidgetKind::Element(el) => {
                    let size = el.container.size;
                    let pos = el.container.pos;
                    let mut sized = ctx.into_sized(size, pos);
                    match &el.container.inner {
                        Widget::Canvas(canvas) => {
                            let ghost st = SizePos { local_size: size, global_pos: pos };
                            let ghost slots0 = canvas.buffer.cells.slots@;
                            let ghost cells0 = ctx.surface.cells();
                            let ghost ssize0 = ctx.surface.spec_size();
                            let ghost clip0 = ctx.clip;
                            let mut i: usize = 0;
                            proof {
                                assert(slots0.subrange(0, slots0.len() as int) =~= slots0);
                            }
                            while i < canvas.buffer.cells.slots.len()
                                invariant
                                    sized.surface.inv(),
                                    sized.surface.spec_size() == ssize0,
                                    sized.clip == clip0,
                                    sized.state == st,
                                    i <= slots0.len(),
                                    slots0 == canvas.buffer.cells.slots@,
                                    spec_paint_slots(slots0, st, clip0, ssize0, cells0)
                                        == spec_paint_slots(
                                        slots0.subrange(i as int, slots0.len() as int),
                                        st,
                                        clip0,
                                        ssize0,
                                        sized.surface.cells(),
                                    ),
                                decreases slots0.len() - i,
                            {
                                let ghost sub = slots0.subrange(i as int, slots0.len() as int);
                                proof {
                                    assert(sub[0] == slots0[i as int]);
                                    assert(sub.drop_first() =~= slots0.subrange(
                                        i + 1,
                                        slots0.len() as int,
                                    ));
                                }
                                match &canvas.buffer.cells.slots[i] {
                                    Some(cell) => {
                                        let _ = sized.place_glyph(
                                            cell.glyph,
                                            &cell.attribs,
                                            cell.pos,
                                        );
                                    },
                                    None => {},
                                }
                                i = i + 1;
                            }
                            proof {
                                assert(slots0.subrange(
                                    slots0.len() as int,
                                    slots0.len() as int,
                                ) =~= Seq::<Option<crate::canvas::Cell>>::empty());
                            }
                            let PaintCtx { surface, clip: _, state: _ } = sized;
                            PaintCtx { surface, clip: saved_clip, state: Unsized }
                        },
                        Widget::Text(t) => {
                            let empty = CanvasAttribs::new();
                            let _ = sized.place_glyphs(
                                t.text.as_str(),
                                &empty,
                                LocalPos { x: 0, y: 0 },
                            );
                            let PaintCtx { surface, clip: _, state: _ } = sized;
                            PaintCtx { surface, clip: saved_clip, state: Unsized }
                        },
                        Widget::Position(_) => {
                            let PaintCtx { surface, clip: _, state: _ } = sized;
                            let inner_ctx = PaintCtx { surface, clip: None, state: Unsized };
                            let done = paint_children(&node.children, inner_ctx, storage, filter);
                            let PaintCtx { surface, clip: _, state: _ } = done;
                            PaintCtx { surface, clip: saved_clip, state: Unsized }
                        },
                        _ => {
                            let PaintCtx { surface, clip, state: _ } = sized;
                            let inner_ctx = PaintCtx { surface, clip, state: Unsized };
                            let done = paint_children(&node.children, inner_ctx, storage, filter);
                            let PaintCtx { surface, clip: _, state: _ } = done;
                            PaintCtx { surface, clip: saved_clip, state: Unsized }
                        },
                    }
                },
                _ => ctx,
            }
        },
    }
}

/// Paint every child of the normal layer in order.
pub fn paint_children<R: WidgetRenderer>(
    children: &Vec<Node>,
    ctx: PaintCtx<R, Unsized>,
    storage: &AttributeStorage,
    filter: &PaintFilter,
) -> (r: PaintCtx<R, Unsized>)
    requires
        crate::element::nodes_wf(children@),
        ctx.surface.inv(),
    ensures
        r.surface.inv(),
        r.surface.spec_size() == ctx.surface.spec_size(),
        r.clip == ctx.clip,
        r.surface.cells() == spec_paint_children_cells(
            children@,
            ctx.clip,
            ctx.surface.spec_size(),
            ctx.surface.cells(),
            filter.ignore_floats,
        ),
    decreases children@, 1nat,
{
    let mut ctx = ctx;
    let ghost c0 = ctx;
    let ghost ig = filter.ignore_floats;
    let mut i: usize = 0;
    proof {
        assert(children@.subrange(0, children@.len() as int) =~= children@);
    }
    while i < children.len()
        invariant
            i <= children@.len(),
            crate::element::nodes_wf(children@),
            ctx.surface.inv(),
            ctx.surface.spec_size() == c0.surface.spec_size(),
            ctx.clip == c0.clip,
            ig == filter.ignore_floats,
            spec_paint_children_cells(
                children@,
                c0.clip,
                c0.surface.spec_size(),
                c0.surface.cells(),
                ig,
            ) == spec_paint_children_cells(
                children@.subrange(i as int, children@.len() as int),
                c0.clip,
                c0.surface.spec_size(),
                ctx.surface.cells(),
                ig,
            ),
        decreases children@.len() - i,
    {
        let ghost sub = children@.subrange(i as int, children@.len() as int);
        proof {
            lemma_nodes_wf_at(children@, i as int);
            assert(decreases_to!(children@ => children@[i as int]));
            assert(sub[0] == children@[i as int]);
            assert(sub.drop_first() =~= children@.subrange(i + 1, children@.len() as int));
        }
        ctx = paint_node(&children[i], ctx, storage, filter);
        i = i + 1;
    }
    proof {
        assert(children@.subrange(children@.len() as int, children@.len() as int) =~= Seq::<
            Node,
        >::empty());
    }
    ctx
}

/// Every node of a well-formed list is well formed.
proof fn lemma_nodes_wf_at(s: Seq<Node>, i: int)
    requires
        crate::element::nodes_wf(s),
        0 <= i < s.len(),
    ensures
        node_wf(s[i]),
    decreases s,
{
    if i > 0 {
        lemma_nodes_wf_at(s.drop_first(), i - 1);
        assert(s.drop_first()[i - 1] == s[i]);
    }
}

/// Copy a clip region option.
fn copy_clip(clip: &Option<Region>) -> (r: Option<Region>)
    ensures
        r == *clip,
{
    match clip {
        Some(cl) => Some(*cl),
        None => None,
    }
}

/// Paint the floating layer: find each floating element that the normal
/// pass skipped and paint its whole subtree with clipping disabled.
pub fn paint_floats<R: WidgetRenderer>(
    node: &Node,
    ctx: PaintCtx<R, Unsized>,
    storage: &AttributeStorage,
) -> (r: PaintCtx<R, Unsized>)
    requires
        node_wf(*node),
        ctx.surface.inv(),
    ensures
        r.surface.inv(),
        r.surface.spec_size() == ctx.surface.spec_size(),
        r.clip == ctx.clip,
        r.surface.cells() == spec_paint_floats_cells(
            *node,
            ctx.surface.spec_size(),
            ctx.surface.cells(),
        ),
    decreases node, 2nat,
{
    proof {
        assert(decreases_to!(node => node.children));
        assert(decreases_to!(node.children => node.children@));
    }
    match &node.kind {
        WidgetKind::Element(el) => {
            if el.container.inner.floats() {
                let saved_clip = copy_clip(&ctx.clip);
                let PaintCtx { surface, clip: _, state } = ctx;
                let inner_ctx = PaintCtx { surface, clip: None, state };
                let filter = PaintFilter::new(false);
                let done = paint_node(node, inner_ctx, storage, &filter);
                let PaintCtx { surface, clip: _, state } = done;
                PaintCtx { surface, clip: saved_clip, state }
            } else {
                paint_floats_children(&node.children, ctx, storage)
            }
        },
        WidgetKind::If { show } => {
            if *show {
                paint_floats_children(&node.children, ctx, storage)
            } else {
                ctx
            }
        },
        WidgetKind::Else { show } => {
            if *show {
                paint_floats_children(&node.children, ctx, storage)
            } else {
                ctx
            }
        },
    }
}

/// Search every child for floating elements.
pub fn paint_floats_children<R: WidgetRenderer>(
    children: &Vec<Node>,
    ctx: PaintCtx<R, Unsized>,
    storage: &AttributeStorage,
) -> (r: PaintCtx<R, Unsized>)
    requires
        crate::element::nodes_wf(children@),
        ctx.surface.inv(),
    ensures
        r.surface.inv(),
        r.surface.spec_size() == ctx.surface.spec_size(),
        r.clip == ctx.clip,
        r.surface.cells() == spec_paint_floats_children_cells(
            children@,
            ctx.surface.spec_size(),
            ctx.surface.cells(),
        ),
    decreases children@, 3nat,
{
    let mut ctx = ctx;
    let ghost c0 = ctx;
    let mut i: usize = 0;
    proof {
        assert(children@.subrange(0, children@.len() as int) =~= children@);
    }
    while i < children.len()
        invariant
            i <= children@.len(),
            crate::element::nodes_wf(children@),
            ctx.surface.inv(),
            ctx.surface.spec_size() == c0.surface.spec_size(),
            ctx.clip == c0.clip,
            spec_paint_floats_children_cells(
                children@,
                c0.surface.spec_size(),
                c0.surface.cells(),
            ) == spec_paint_floats_children_cells(
                children@.subrange(i as int, children@.len() as int),
                c0.surface.spec_size(),
                ctx.surface.cells(),
            ),
        decreases children@.len() - i,
    {
        let ghost sub = children@.subrange(i as int, children@.len() as int);
        proof {
            lemma_nodes_wf_at(children@, i as int);
            assert(decreases_to!(children@ => children@[i as int]));
            assert(sub[0] == children@[i as int]);
            assert(sub.drop_first() =~= children@.subrange(i + 1, children@.len() as int));
        }
        ctx = paint_floats(&children[i], ctx, storage);
        i = i + 1;
    }
    proof {
        assert(children@.subrange(children@.len() as int, children@.len() as int) =~= Seq::<
            Node,
        >::empty());
    }
    ctx
}

/// Paint a whole layer of the tree into a surface: the normal layer when
/// `ignore_floats` holds (floating subtrees are skipped for a later pass),
/// or any layer including floats otherwise.
pub fn paint<R: WidgetRenderer>(
    surface: R,
    root: &Node,
    storage: &AttributeStorage,
    ignore_floats: bool,
) -> (r: R)
    requires
        node_wf(*root),
        surface.inv(),
    ensures
        r.inv(),
        r.spec_size() == surface.spec_size(),
        r.cells() == spec_paint_node_cells(
            *root,
            None,
            surface.spec_size(),
            surface.cells(),
            ignore_floats,
        ),
{
    let filter = PaintFilter::new(ignore_floats);
    let ctx = PaintCtx::new(surface, None);
    let done = paint_node(root, ctx, storage, &filter);
    done.surface
}

} // verus!

use vstd::prelude::*;

use crate::attribs::AttributeStorage;
use crate::attribs::CanvasAttribs;
use crate::constraints::Constraints;
use crate::element::node_wf;
use crate::element::Node;
use crate::geometry::Pos;
use crate::geometry::Size;
use crate::paint::PaintCtx;
use crate::paint::WidgetRenderer;
use crate::tree::LayoutCtx;

verus! {

/// An in-memory surface: a dense glyph grid that records what the paint
/// pass drew, used to drive whole-frame checks; the attributes drawn with
/// each glyph are tracked in the model.
pub struct TestSurface {
    pub width: usize,
    pub height: usize,
    pub grid: Vec<char>,
    pub attrs_map: Ghost<Map<(int, int), CanvasAttribs>>,
}

/// A grid index stays inside a `width * height` grid.
proof fn lemma_grid_index(x: int, y: int, width: int, height: int)
    requires
        0 <= x < width,
        0 <= y < height,
    ensures
        0 <= y * width + x < width * height,
{
    assert(y * width + x < height * width) by (nonlinear_arith)
        requires
            0 <= x < width,
            0 <= y < height,
    ;
}

/// Distinct in-bounds coordinates give distinct grid indices.
proof fn lemma_grid_injective(x1: int, y1: int, x2: int, y2: int, width: int)
    requires
        0 <= x1 < width,
        0 <= x2 < width,
        y1 >= 0,
        y2 >= 0,
        y1 * width + x1 == y2 * width + x2,
    ensures
        x1 == x2 && y1 == y2,
{
    assert(x1 == x2 && y1 == y2) by (nonlinear_arith)
        requires
            0 <= x1 < width,
            0 <= x2 < width,
            y1 >= 0,
            y2 >= 0,
            y1 * width + x1 == y2 * width + x2,
    ;
}

/// The cell map of a blank surface: a space at every in-bounds coordinate.
pub open spec fn spec_blank_cells(width: int, height: int) -> Map<(int, int), char> {
    Map::new(|k: (int, int)| 0 <= k.0 < width && 0 <= k.1 < height, |k: (int, int)| ' ')
}

/// The glyphs a whole frame leaves on a blank surface of the given size:
/// the normal layer over the positioned tree, then the floating layer.
pub open spec fn spec_rendered_cells(t: Node, width: int, height: int) -> Map<(int, int), char> {
    let ssize = Size { width: width as usize, height: height as usize };
    crate::paint::spec_paint_floats_cells(
        t,
        ssize,
        crate::paint::spec_paint_node_cells(
            t,
            None,
            ssize,
            spec_blank_cells(width, height),
            true,
        ),
    )
}

impl TestSurface {
    /// A blank surface of the given size, every cell a space.
    pub fn new(width: usize, height: usize) -> (r: TestSurface)
        requires
            width * height <= usize::MAX,
            width <= i32::MAX,
            height <= i32::MAX,
        ensures
            r.inv(),
            r.spec_size() == (Size { width, height }),
            r.cells() == spec_blank_cells(width as int, height as int),
            r.attrs() == Map::<(int, int), CanvasAttribs>::empty(),
    {
        proof {
            assert(width * height >= 0) by (nonlinear_arith);
        }
        let len = width * height;
        let r = TestSurface {
            width,
            height,
            grid: vec![' '; len],
            attrs_map: Ghost(Map::empty()),
        };
        proof {
            assert(r.cells().dom() =~= spec_blank_cells(width as int, height as int).dom());
            assert forall|k: (int, int)| r.cells().dom().contains(k) implies #[trigger] r.cells()[k]
                == spec_blank_cells(width as int, height as int)[k] by {
                lemma_grid_index(k.0, k.1, width as int, height as int);
            }
            assert(r.cells() =~= spec_blank_cells(width as int, height as int));
        }
        r
    }

    /// Read one cell; out-of-bounds coordinates read as a space.
    pub fn cell(&self, x: usize, y: usize) -> (r: char)
        requires
            self.inv(),
        ensures
            r == if 0 <= x < self.spec_size().width && 0 <= y < self.spec_size().height {
                self.cells()[(x as int, y as int)]
            } else {
                ' '
            },
    {
        if x < self.width && y < self.height {
            proof {
                lemma_grid_index(x as int, y as int, self.width as int, self.height as int);
            }
            self.grid[y * self.width + x]
        } else {
            ' '
        }
    }
}

impl WidgetRenderer for TestSurface {
    open spec fn inv(&self) -> bool {
        &&& self.grid@.len() == self.width * self.height
        &&& self.grid@.len() <= usize::MAX
        &&& self.width <= i32::MAX
        &&& self.height <= i32::MAX
    }

    open spec fn spec_size(&self) -> Size {
        Size { width: self.width, height: self.height }
    }

    open spec fn attrs(&self) -> Map<(int, int), CanvasAttribs> {
        self.attrs_map@
    }

    open spec fn cells(&self) -> Map<(int, int), char> {
        Map::new(
            |k: (int, int)| 0 <= k.0 < self.width && 0 <= k.1 < self.height,
            |k: (int, int)|
                if 0 <= k.1 * self.width + k.0 < self.grid@.len() {
                    self.grid@[k.1 * self.width + k.0]
                } else {
                    ' '
                },
        )
    }

    fn size(&self) -> (s: Size) {
        Size { width: self.width, height: self.height }
    }

    fn draw_glyph(&mut self, c: char, attribs: &CanvasAttribs, pos: Pos) {
        if pos.x >= 0 && pos.y >= 0 && (pos.x as usize) < self.width && (pos.y as usize)
            < self.height {
            let x = pos.x as usize;
            let y = pos.y as usize;
            proof {
                lemma_grid_index(x as int, y as int, self.width as int, self.height as int);
            }
            let idx = y * self.width + x;
            self.grid.set(idx, c);
            self.attrs_map = Ghost(self.attrs_map@.insert((pos.x as int, pos.y as int), *attribs));
            proof {
                let k0 = (pos.x as int, pos.y as int);
                let m0 = old(self).cells();
                let m1 = self.cells();
                let mi = m0.insert(k0, c);
                assert(m1.dom() =~= mi.dom());
                assert forall|k: (int, int)| m1.dom().contains(k) implies #[trigger] m1[k]
                    == mi[k] by {
                    lemma_grid_index(k.0, k.1, self.width as int, self.height as int);
                    if k != k0 && k.1 * self.width + k.0 == pos.y as int * self.width
                        + pos.x as int {
                        lemma_grid_injective(
                            k.0,
                            k.1,
                            pos.x as int,
                            pos.y as int,
                            self.width as int,
                        );
                    }
                }
                assert(m1 =~= mi);
            }
        }
    }
}

/// Lay a tree out against a viewport, position it at the origin, paint the
/// normal layer and then the floating layer. Returns the surface and the
/// tree as the passes left it: the surface holds exactly the glyphs the two
/// paint layers leave on a blank surface for that tree.
pub fn render_to_surface(root: Node, storage: &AttributeStorage, width: usize, height: usize) -> (r:
    (TestSurface, Node))
    requires
        node_wf(root),
        width * height <= usize::MAX,
        width <= i32::MAX,
        height <= i32::MAX,
    ensures
        r.0.inv(),
        r.0.spec_size() == (Size { width, height }),
        node_wf(r.1),
        r.0.cells() == spec_rendered_cells(r.1, width as int, height as int),
{
    let constraints = Constraints::new(width, height);
    let ctx = LayoutCtx { attribs: storage, viewport: constraints };
    let (root, _) = crate::tree::layout_node(root, constraints, &ctx);
    let root = crate::tree::position_node(root, Pos { x: 0, y: 0 }, storage);
    let surface = TestSurface::new(width, height);
    let surface = crate::paint::paint(surface, &root, storage, true);
    let pctx = PaintCtx::new(surface, None);
    let pctx = crate::paint::paint_floats(&root, pctx, storage);
    (pctx.surface, root)
}

/// One border row of a frame: a left corner, `width` horizontal bars, a
/// right corner and a newline.
pub open spec fn spec_border_row(width: int, l: char, m: char, r: char) -> Seq<char> {
    seq![l] + Seq::new(width as nat, |i: int| m) + seq![r, '\n']
}

/// One content row of a frame: the surface's cells of row `y` between two
/// vertical bars, ending in a newline.
pub open spec fn spec_cell_row(cells: Map<(int, int), char>, width: int, y: int) -> Seq<char> {
    seq!['\u{2551}'] + Seq::new(
        width as nat,
        |x: int|
            if cells.dom().contains((x, y)) {
                cells[(x, y)]
            } else {
                ' '
            },
    ) + seq!['\u{2551}', '\n']
}

/// The first `h` content rows of a frame, in order.
pub open spec fn spec_cell_rows(cells: Map<(int, int), char>, width: int, h: int) -> Seq<char>
    decreases h,
{
    if h <= 0 {
        Seq::empty()
    } else {
        spec_cell_rows(cells, width, h - 1) + spec_cell_row(cells, width, h - 1)
    }
}

/// A whole frame: the top border, every content row, the bottom border.
pub open spec fn spec_frame(cells: Map<(int, int), char>, width: int, height: int) -> Seq<char> {
    spec_border_row(width, '\u{2554}', '\u{2550}', '\u{2557}') + spec_cell_rows(
        cells,
        width,
        height,
    ) + spec_border_row(width, '\u{255A}', '\u{2550}', '\u{255D}')
}

/// Render a tree and frame the viewport in the double-lined border the
/// layout checks draw around a surface. Returns the frame, row by row with
/// a newline after each, and the tree as the passes left it: the frame is
/// exactly the border around the glyphs the paint layers leave for that
/// tree.
pub fn render_frame(root: Node, storage: &AttributeStorage, width: usize, height: usize) -> (r: (
    Vec<char>,
    Node,
))
    requires
        node_wf(root),
        width * height <= usize::MAX,
        width <= i32::MAX,
        height <= i32::MAX,
    ensures
        node_wf(r.1),
        r.0@ == spec_frame(
            spec_rendered_cells(r.1, width as int, height as int),
            width as int,
            height as int,
        ),
{
    let (surface, tree) = render_to_surface(root, storage, width, height);
    let ghost cells = surface.cells();
    let mut out: Vec<char> = Vec::new();
    out.push('\u{2554}');
    let mut x: usize = 0;
    while x < width
        invariant
            x <= width,
            out@ =~= seq!['\u{2554}'] + Seq::new(x as nat, |i: int| '\u{2550}'),
        decreases width - x,
    {
        out.push('\u{2550}');
        proof {
            assert(out@ =~= seq!['\u{2554}'] + Seq::new((x + 1) as nat, |i: int| '\u{2550}'));
        }
        x = x + 1;
    }
    out.push('\u{2557}');
    out.push('\n');
    let ghost top = spec_border_row(width as int, '\u{2554}', '\u{2550}', '\u{2557}');
    proof {
        assert(out@ =~= top);
    }
    let mut y: usize = 0;
    while y < height
        invariant
            y <= height,
            surface.inv(),
            surface.spec_size() == (Size { width, height }),
            cells == surface.cells(),
            top == spec_border_row(width as int, '\u{2554}', '\u{2550}', '\u{2557}'),
            out@ =~= top + spec_cell_rows(cells, width as int, y as int),
        decreases height - y,
    {
        let ghost rows0 = spec_cell_rows(cells, width as int, y as int);
        out.push('\u{2551}');
        let mut x: usize = 0;
        while x < width
            invariant
                x <= width,
                y < height,
                surface.inv(),
                surface.spec_size() == (Size { width, height }),
                cells == surface.cells(),
                rows0 == spec_cell_rows(cells, width as int, y as int),
                top == spec_border_row(width as int, '\u{2554}', '\u{2550}', '\u{2557}'),
                out@ =~= top + rows0 + seq!['\u{2551}'] + Seq::new(
                    x as nat,
                    |i: int|
                        if cells.dom().contains((i, y as int)) {
                            cells[(i, y as int)]
                        } else {
                            ' '
                        },
                ),
            decreases width - x,
        {
            let c = surface.cell(x, y);
            out.push(c);
            proof {
                assert(out@ =~= top + rows0 + seq!['\u{2551}'] + Seq::new(
                    (x + 1) as nat,
                    |i: int|
                        if cells.dom().contains((i, y as int)) {
                            cells[(i, y as int)]
                        } else {
                            ' '
                        },
                ));
            }
            x = x + 1;
        }
        out.push('\u{2551}');
        out.push('\n');
        proof {
            assert(out@ =~= top + rows0 + spec_cell_row(cells, width as int, y as int));
            assert(out@ =~= top + spec_cell_rows(cells, width as int, y + 1));
        }
        y = y + 1;
    }
    let ghost body = spec_cell_rows(cells, width as int, height as int);
    out.push('\u{255A}');
    let mut x: usize = 0;
    while x < width
        invariant
            x <= width,
            top == spec_border_row(width as int, '\u{2554}', '\u{2550}', '\u{2557}'),
            body == spec_cell_rows(cells, width as int, height as int),
            out@ =~= top + body + seq!['\u{255A}'] + Seq::new(x as nat, |i: int| '\u{2550}'),
        decreases width - x,
    {
        out.push('\u{2550}');
        proof {
            assert(out@ =~= top + body + seq!['\u{255A}'] + Seq::new(
                (x + 1) as nat,
                |i: int| '\u{2550}',
            ));
        }
        x = x + 1;
    }
    out.push('\u{255D}');
    out.push('\n');
    proof {
        assert(out@ =~= spec_frame(cells, width as int, height as int));
    }
    (out, tree)
}

} // verus!

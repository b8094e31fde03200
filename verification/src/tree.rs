use vstd::prelude::*;

use crate::attribs::AttributeStorage;
use crate::constraints::Constraints;
use crate::container::Container;
use crate::element::node_no_floats;
use crate::element::node_wf;
use crate::element::node_first_element;
use crate::element::nodes_first_index;
use crate::element::nodes_first_element;
use crate::element::nodes_no_floats;
use crate::element::nodes_wf;
use crate::element::Element;
use crate::element::Node;
use crate::element::Widget;
use crate::element::WidgetContainer;
use crate::element::WidgetKind;
use crate::geometry::Pos;
use crate::geometry::Size;
use crate::position::Position;

verus! {

/// What the layout pass carries down the tree: the attribute store and the
/// viewport's own envelope, which absolute placement lays out against.
pub struct LayoutCtx<'a> {
    pub attribs: &'a AttributeStorage,
    pub viewport: Constraints,
}

impl<'a> LayoutCtx<'a> {
    pub open spec fn wf(self) -> bool {
        &&& self.viewport.wf()
        &&& self.viewport.max_width * self.viewport.max_height <= usize::MAX
    }
}

/// A cons cell keeps both subtree predicates exactly when head and tail do.
proof fn lemma_nodes_cons(n: Node, s: Seq<Node>)
    ensures
        nodes_wf(seq![n] + s) == (node_wf(n) && nodes_wf(s)),
        nodes_no_floats(seq![n] + s) == (node_no_floats(n) && nodes_no_floats(s)),
{
    let t = seq![n] + s;
    assert(t.len() == s.len() + 1);
    assert(t[0] == n);
    assert(t.drop_first() =~= s);
}

/// The first-element index lies between zero and the list's length.
proof fn lemma_first_index_bounds(s: Seq<Node>)
    ensures
        0 <= nodes_first_index(s) <= s.len(),
    decreases s,
{
    if s.len() > 0 && !(node_first_element(s[0]) is Some) {
        lemma_first_index_bounds(s.drop_first());
    }
}

/// The cached size of the first element in a child list, when one exists.
pub open spec fn spec_first_child_size(children: Seq<Node>) -> Option<Size> {
    match nodes_first_element(children) {
        Some(el) => Some(el.container.size),
        None => None,
    }
}

/// Lay one node out. An element computes its size under the given envelope;
/// a live conditional marker passes the envelope through to the first
/// element below it; a dead one is skipped without a size.
///
/// Constraint containment: as long as no widget in the subtree floats, the
/// reported size lies within the envelope the node received.
pub fn layout_node(node: Node, constraints: Constraints, ctx: &LayoutCtx) -> (r: (Node, Option<
    Size,
>))
    requires
        node_wf(node),
        constraints.wf(),
        ctx.wf(),
        constraints.max_width * constraints.max_height <= usize::MAX,
    ensures
        node_wf(r.0),
        r.1 matches Some(s) ==> (node_no_floats(node) ==> constraints.spec_contains(s)),
        r.1 matches Some(s) ==> (node_first_element(r.0) matches Some(el1) && el1.container.size
            == s),
        r.1 is None ==> node_first_element(r.0) is None,
        (r.1 is Some) == (node_first_element(node) is Some),
        node.kind matches WidgetKind::Element(el0) ==> (
        el0.container.inner matches Widget::Container(_) ==> r.1 == Some(
            crate::container::spec_container_reduce(
                spec_first_child_size(r.0.children@),
                crate::container::spec_container_child_constraints(
                    *ctx.attribs,
                    el0.container.id,
                    constraints,
                ),
            ),
        )),
        node.kind matches WidgetKind::Element(el0) ==> (
        el0.container.inner matches Widget::Padding(_) ==> r.1 == Some(
            crate::padding::spec_padding_reduce(
                spec_first_child_size(r.0.children@),
                crate::padding::spec_padding_values(*ctx.attribs, el0.container.id),
                constraints,
            ),
        )),
        node.kind matches WidgetKind::Element(el0) ==> (
        el0.container.inner matches Widget::Position(_) ==> ({
            let p = Position {
                horz_edge: crate::position::spec_horz_edge(*ctx.attribs, el0.container.id),
                vert_edge: crate::position::spec_vert_edge(*ctx.attribs, el0.container.id),
                placement: crate::position::spec_placement(*ctx.attribs, el0.container.id),
            };
            let used = if p.placement == crate::position::Placement::Absolute {
                ctx.viewport
            } else {
                constraints
            };
            let base = match spec_first_child_size(r.0.children@) {
                Some(s) => s,
                None => Size { width: 0, height: 0 },
            };
            r.1 == Some(crate::position::spec_position_reduce(p, base, used))
        })),
        node.kind matches WidgetKind::Element(el0) ==> (
        el0.container.inner matches Widget::Canvas(_) ==> ({
            let cc = crate::canvas::spec_canvas_constraints(
                *ctx.attribs,
                el0.container.id,
                constraints,
            );
            r.1 == Some(Size { width: cc.max_width, height: cc.max_height })
        })),
        node.kind matches WidgetKind::Element(el0) ==> (
        el0.container.inner matches Widget::Text(t) ==> r.1 == Some(
            crate::text::spec_text_size(t.text@, constraints),
        )),
    decreases node,
{
    let ghost n0 = node;
    let Node { kind, children } = node;
    proof {
        assert(decreases_to!(n0 => n0.children));
        assert(decreases_to!(n0.children => n0.children@));
        assert(children == n0.children);
    }
    match kind {
        WidgetKind::If { show } => {
            if show {
                let (children, size) = layout_first(children, constraints, ctx);
                let out = Node { kind: WidgetKind::If { show }, children };
                proof {
                    assert(node_wf(out));
                    assert(node_first_element(out) == nodes_first_element(out.children@));
                }
                (out, size)
            } else {
                let out = Node { kind: WidgetKind::If { show }, children };
                proof {
                    assert(node_wf(out));
                    assert(node_first_element(out) is None);
                }
                (out, None)
            }
        },
        WidgetKind::Else { show } => {
            if show {
                let (children, size) = layout_first(children, constraints, ctx);
                let out = Node { kind: WidgetKind::Else { show }, children };
                proof {
                    assert(node_wf(out));
                    assert(node_first_element(out) == nodes_first_element(out.children@));
                }
                (out, size)
            } else {
                let out = Node { kind: WidgetKind::Else { show }, children };
                proof {
                    assert(node_wf(out));
                    assert(node_first_element(out) is None);
                }
                (out, None)
            }
        },
        WidgetKind::Element(el) => {
            let Element { ident, container } = el;
            let WidgetContainer { id, inner, size: _, pos, display } = container;
            match inner {
                Widget::Container(w) => {
                    let cc = Container::child_constraints(ctx.attribs, id, constraints);
                    proof {
                        lemma_max_area_shrinks(cc, constraints);
                    }
                    let (children, child) = layout_first(children, cc, ctx);
                    let size = Container::reduce(child, cc);
                    let out = rebuild(
                        ident,
                        id,
                        Widget::Container(w),
                        size,
                        pos,
                        display,
                        children,
                    );
                    (out, Some(size))
                },
                Widget::Padding(mut w) => {
                    w.read_values(ctx.attribs, id);
                    let cc = w.child_constraints(constraints);
                    proof {
                        lemma_max_area_shrinks(cc, constraints);
                    }
                    let (children, child) = layout_first(children, cc, ctx);
                    let size = w.reduce(child, constraints);
                    let out = rebuild(ident, id, Widget::Padding(w), size, pos, display, children);
                    (out, Some(size))
                },
                Widget::Position(mut w) => {
                    w.read_attrs(ctx.attribs, id);
                    let cc = w.child_constraints(constraints, ctx.viewport);
                    let (children, child) = layout_first(children, cc, ctx);
                    let base = match child {
                        Some(s) => s,
                        None => Size { width: 0, height: 0 },
                    };
                    let size = w.reduce(base, cc);
                    let out = rebuild(ident, id, Widget::Position(w), size, pos, display, children);
                    (out, Some(size))
                },
                Widget::Canvas(mut w) => {
                    let size = w.layout(ctx.attribs, id, constraints);
                    let out = rebuild(ident, id, Widget::Canvas(w), size, pos, display, children);
                    (out, Some(size))
                },
                Widget::Text(w) => {
                    let size = w.layout(constraints);
                    let out = rebuild(ident, id, Widget::Text(w), size, pos, display, children);
                    (out, Some(size))
                },
            }
        },
    }
}

/// Scan a child list in order for the first element the pass includes,
/// descending through live conditional markers, and lay it out; later
/// siblings are left untouched (single-child semantics).
pub fn layout_first(v: Vec<Node>, constraints: Constraints, ctx: &LayoutCtx) -> (r: (Vec<Node>,
    Option<Size>,
))
    requires
        nodes_wf(v@),
        constraints.wf(),
        ctx.wf(),
        constraints.max_width * constraints.max_height <= usize::MAX,
    ensures
        nodes_wf(r.0@),
        r.1 matches Some(s) ==> (nodes_no_floats(v@) ==> constraints.spec_contains(s)),
        r.1 matches Some(s) ==> (nodes_first_element(r.0@) matches Some(el1) && el1.container.size
            == s),
        r.1 is None ==> nodes_first_element(r.0@) is None,
        (r.1 is Some) == (nodes_first_element(v@) is Some),
        r.0@.len() == v@.len(),
        forall|j: int| nodes_first_index(v@) < j < v@.len() ==> r.0@[j] == v@[j],
    decreases v@,
{
    let mut v = v;
    if v.len() == 0 {
        (v, None)
    } else {
        let ghost orig = v@;
        let first = v.remove(0);
        proof {
            assert(first == orig[0]);
            assert(v@ =~= orig.drop_first());
            assert(decreases_to!(orig => orig[0]));
        }
        let ghost in0 = orig[0];
        let (first, size) = layout_node(first, constraints, ctx);
        match size {
            Some(s) => {
                let mut out: Vec<Node> = Vec::new();
                out.push(first);
                out.append(&mut v);
                proof {
                    assert(out@ =~= seq![first] + orig.drop_first());
                    lemma_nodes_cons(first, orig.drop_first());
                    lemma_first_cons(first, orig.drop_first());
                    assert(node_first_element(in0) is Some);
                    assert(nodes_first_index(orig) == 0);
                    assert forall|j: int| 0 < j < orig.len() implies out@[j] == orig[j] by {
                        assert(out@[j] == orig.drop_first()[j - 1]);
                    }
                }
                (out, Some(s))
            },
            None => {
                proof {
                    assert(node_first_element(in0) is None);
                    assert(nodes_first_element(orig) == nodes_first_element(orig.drop_first()));
                    assert(nodes_first_index(orig) == 1 + nodes_first_index(orig.drop_first()));
                    lemma_first_index_bounds(orig.drop_first());
                }
                let (mut rest, size) = layout_first(v, constraints, ctx);
                let mut out: Vec<Node> = Vec::new();
                out.push(first);
                let ghost rest0 = rest@;
                out.append(&mut rest);
                proof {
                    assert(out@ =~= seq![first] + rest0);
                    lemma_nodes_cons(first, rest0);
                    lemma_first_cons(first, rest0);
                    assert forall|j: int|
                        nodes_first_index(orig) < j < orig.len() implies out@[j] == orig[j] by {
                        assert(out@[j] == rest0[j - 1]);
                        assert(rest0[j - 1] == orig.drop_first()[j - 1]);
                        assert(orig.drop_first()[j - 1] == orig[j]);
                    }
                }
                (out, size)
            },
        }
    }
}

/// Reassemble an element node after its pass.
fn rebuild(
    ident: String,
    id: crate::attribs::WidgetId,
    inner: Widget,
    size: Size,
    pos: Pos,
    display: crate::element::Display,
    children: Vec<Node>,
) -> (r: Node)
    requires
        inner.wf(),
        nodes_wf(children@),
    ensures
        node_wf(r),
        r.kind matches WidgetKind::Element(el) && el == (Element {
            ident,
            container: WidgetContainer { id, inner, size, pos, display },
        }),
        r.children == children,
        node_first_element(r) == Some(
            Element { ident, container: WidgetContainer { id, inner, size, pos, display } },
        ),
{
    let out = Node {
        kind: WidgetKind::Element(
            Element { ident, container: WidgetContainer { id, inner, size, pos, display } },
        ),
        children,
    };
    proof {
        assert(node_wf(out));
    }
    out
}

/// A smaller envelope covers no more area.
proof fn lemma_max_area_shrinks(inner: Constraints, outer: Constraints)
    requires
        inner.within(outer),
        outer.max_width * outer.max_height <= usize::MAX,
    ensures
        inner.max_width * inner.max_height <= usize::MAX,
{
    assert(inner.max_width * inner.max_height <= outer.max_width * outer.max_height)
        by (nonlinear_arith)
        requires
            0 <= inner.max_width <= outer.max_width,
            0 <= inner.max_height <= outer.max_height,
    ;
}

/// How the position pass places the next element it yields: at a fixed
/// point, or computed by a position widget from the child's own size.
pub enum ChildPlacement {
    At(Pos),
    FromPosition(Position, Pos, Size),
}

/// The position a rule resolves to for a child of the given size.
pub open spec fn spec_rule_pos(rule: ChildPlacement, child_size: Size) -> Pos {
    match rule {
        ChildPlacement::At(p) => p,
        ChildPlacement::FromPosition(w, inherited, inner_size) => crate::position::spec_position_child_pos(
            w,
            inherited,
            inner_size,
            child_size,
        ),
    }
}

/// The first element of a cons cell: the head's, else the tail's.
proof fn lemma_first_cons(n: Node, s: Seq<Node>)
    ensures
        nodes_first_element(seq![n] + s) == match node_first_element(n) {
            Some(e) => Some(e),
            None => nodes_first_element(s),
        },
{
    let t = seq![n] + s;
    assert(t[0] == n);
    assert(t.drop_first() =~= s);
}

/// Assign one node its global position, top-down: an element stores the
/// position and hands each one to its child by its own rule; conditional
/// markers pass the rule through.
pub fn position_node(node: Node, pos: Pos, storage: &AttributeStorage) -> (r: Node)
    requires
        node_wf(node),
    ensures
        node_wf(r),
        node.kind matches WidgetKind::Element(el0) ==> (r.kind matches WidgetKind::Element(el1)
            && el1.container.pos == pos && el1.container.id == el0.container.id
            && el1.container.size == el0.container.size && el1.ident == el0.ident),
        node.kind matches WidgetKind::Element(el0) ==> (el0.container.inner matches Widget::Container(
            _,
        ) ==> (nodes_first_element(node.children@) matches Some(c0) ==> (nodes_first_element(
            r.children@,
        ) matches Some(c1) && c1.container.pos == pos))),
        node.kind matches WidgetKind::Element(el0) ==> (el0.container.inner matches Widget::Padding(
            w,
        ) ==> (nodes_first_element(node.children@) matches Some(c0) ==> (nodes_first_element(
            r.children@,
        ) matches Some(c1) && c1.container.pos == crate::padding::spec_padding_child_pos(
            pos,
            w.0,
        )))),
        node.kind matches WidgetKind::Element(el0) ==> (el0.container.inner matches Widget::Position(
            w,
        ) ==> (nodes_first_element(node.children@) matches Some(c0) ==> (nodes_first_element(
            r.children@,
        ) matches Some(c1) && c1.container.pos == crate::position::spec_position_child_pos(
            w,
            pos,
            el0.container.size,
            c0.container.size,
        )))),
        node.kind matches WidgetKind::If { show } ==> (show ==> (node_first_element(
            node,
        ) matches Some(c0) ==> (node_first_element(r) matches Some(c1) && c1.container.pos == pos
            && c1.container.id == c0.container.id && c1.container.size == c0.container.size
            && c1.ident == c0.ident))),
        node.kind matches WidgetKind::Else { show } ==> (show ==> (node_first_element(
            node,
        ) matches Some(c0) ==> (node_first_element(r) matches Some(c1) && c1.container.pos == pos
            && c1.container.id == c0.container.id && c1.container.size == c0.container.size
            && c1.ident == c0.ident))),
    decreases node,
{
    let ghost n0 = node;
    let Node { kind, children } = node;
    proof {
        assert(decreases_to!(n0 => n0.children));
        assert(decreases_to!(n0.children => n0.children@));
        assert(children == n0.children);
    }
    match kind {
        WidgetKind::If { show } => {
            if show {
                let (children, _) = position_first(children, ChildPlacement::At(pos), storage);
                let out = Node { kind: WidgetKind::If { show }, children };
                proof {
                    assert(node_wf(out));
                    assert(node_first_element(n0) == nodes_first_element(n0.children@));
                    assert(node_first_element(out) == nodes_first_element(out.children@));
                }
                out
            } else {
                let out = Node { kind: WidgetKind::If { show }, children };
                proof {
                    assert(node_wf(out));
                }
                out
            }
        },
        WidgetKind::Else { show } => {
            if show {
                let (children, _) = position_first(children, ChildPlacement::At(pos), storage);
                let out = Node { kind: WidgetKind::Else { show }, children };
                proof {
                    assert(node_wf(out));
                    assert(node_first_element(n0) == nodes_first_element(n0.children@));
                    assert(node_first_element(out) == nodes_first_element(out.children@));
                }
                out
            } else {
                let out = Node { kind: WidgetKind::Else { show }, children };
                proof {
                    assert(node_wf(out));
                }
                out
            }
        },
        WidgetKind::Element(el) => {
            let Element { ident, container } = el;
            let WidgetContainer { id, inner, size, pos: _, display } = container;
            match inner {
                Widget::Container(w) => {
                    let (children, _) = position_first(children, ChildPlacement::At(pos), storage);
                    (rebuild(ident, id, Widget::Container(w), size, pos, display, children))
                },
                Widget::Padding(w) => {
                    let child_pos = w.child_pos(pos);
                    let (children, _) = position_first(
                        children,
                        ChildPlacement::At(child_pos),
                        storage,
                    );
                    (rebuild(ident, id, Widget::Padding(w), size, pos, display, children))
                },
                Widget::Position(w) => {
                    let (children, _) = position_first(
                        children,
                        ChildPlacement::FromPosition(w, pos, size),
                        storage,
                    );
                    (rebuild(ident, id, Widget::Position(w), size, pos, display, children))
                },
                Widget::Canvas(mut w) => {
                    w.pos = pos;
                    (rebuild(ident, id, Widget::Canvas(w), size, pos, display, children))
                },
                Widget::Text(w) => {
                    (rebuild(ident, id, Widget::Text(w), size, pos, display, children))
                },
            }
        },
    }
}

/// Position the first element of a child list by the given rule, descending
/// through live conditional markers; returns whether one was found.
pub fn position_first(v: Vec<Node>, rule: ChildPlacement, storage: &AttributeStorage) -> (r: (Vec<
    Node,
>, bool))
    requires
        nodes_wf(v@),
    ensures
        nodes_wf(r.0@),
        r.1 == (nodes_first_element(v@) is Some),
        nodes_first_element(v@) is None ==> nodes_first_element(r.0@) is None,
        nodes_first_element(v@) matches Some(el0) ==> (nodes_first_element(r.0@) matches Some(el1)
            && el1.container.pos == spec_rule_pos(rule, el0.container.size) && el1.container.id
            == el0.container.id && el1.container.size == el0.container.size && el1.ident
            == el0.ident),
        r.0@.len() == v@.len(),
        forall|j: int| nodes_first_index(v@) < j < v@.len() ==> r.0@[j] == v@[j],
    decreases v@,
{
    let mut v = v;
    if v.len() == 0 {
        (v, false)
    } else {
        let ghost orig = v@;
        let first = v.remove(0);
        proof {
            assert(first == orig[0]);
            assert(v@ =~= orig.drop_first());
            assert(decreases_to!(orig => orig[0]));
            assert(node_wf(orig[0]));
        }
        let ghost f0 = first;
        let Node { kind, children } = first;
        proof {
            assert(decreases_to!(orig[0] => f0.children));
            assert(decreases_to!(f0.children => f0.children@));
            assert(children == f0.children);
            assert(nodes_wf(children@));
        }
        match kind {
            WidgetKind::Element(el) => {
                let ghost el0 = el;
                proof {
                    assert(node_first_element(f0) == Some(el0));
                    assert(nodes_first_element(orig) == Some(el0));
                }
                let child_size = el.container.size;
                let child_pos = match &rule {
                    ChildPlacement::At(p) => *p,
                    ChildPlacement::FromPosition(w, inherited, inner_size) => w.child_pos(
                        *inherited,
                        *inner_size,
                        child_size,
                    ),
                };
                proof {
                    assert(child_pos == spec_rule_pos(rule, el0.container.size));
                }
                let node = Node { kind: WidgetKind::Element(el), children };
                proof {
                    assert(node == orig[0]);
                }
                let first = position_node(node, child_pos, storage);
                let mut out: Vec<Node> = Vec::new();
                out.push(first);
                out.append(&mut v);
                proof {
                    assert(out@ =~= seq![first] + orig.drop_first());
                    lemma_nodes_cons(first, orig.drop_first());
                    lemma_first_cons(first, orig.drop_first());
                    assert(node_first_element(first) is Some);
                    assert(nodes_first_index(orig) == 0);
                    assert forall|j: int| 0 < j < orig.len() implies out@[j] == orig[j] by {
                        assert(out@[j] == orig.drop_first()[j - 1]);
                    }
                }
                (out, true)
            },
            WidgetKind::If { show } => {
                if show {
                    proof {
                        assert(node_first_element(f0) == nodes_first_element(f0.children@));
                    }
                    let (inner_children, found) = position_first(children, copy_rule(&rule), storage);
                    let first = Node { kind: WidgetKind::If { show }, children: inner_children };
                    proof {
                        assert(node_wf(first));
                        assert(node_first_element(first) == nodes_first_element(
                            inner_children@,
                        ));
                    }
                    if found {
                        let mut out: Vec<Node> = Vec::new();
                        out.push(first);
                        out.append(&mut v);
                        proof {
                            assert(out@ =~= seq![first] + orig.drop_first());
                            lemma_nodes_cons(first, orig.drop_first());
                            lemma_first_cons(first, orig.drop_first());
                            assert(node_first_element(f0) is Some);
                            assert(nodes_first_index(orig) == 0);
                            assert forall|j: int| 0 < j < orig.len() implies out@[j] == orig[j] by {
                                assert(out@[j] == orig.drop_first()[j - 1]);
                            }
                        }
                        (out, true)
                    } else {
                        proof {
                            assert(node_first_element(f0) is None);
                            assert(nodes_first_element(orig) == nodes_first_element(
                                orig.drop_first(),
                            ));
                            assert(nodes_first_index(orig) == 1 + nodes_first_index(
                                orig.drop_first(),
                            ));
                            lemma_first_index_bounds(orig.drop_first());
                        }
                        let (mut rest, found) = position_first(v, rule, storage);
                        let mut out: Vec<Node> = Vec::new();
                        out.push(first);
                        let ghost rest0 = rest@;
                        out.append(&mut rest);
                        proof {
                            assert(out@ =~= seq![first] + rest0);
                            lemma_nodes_cons(first, rest0);
                            lemma_first_cons(first, rest0);
                            assert forall|j: int|
                                nodes_first_index(orig) < j < orig.len() implies out@[j]
                                == orig[j] by {
                                assert(out@[j] == rest0[j - 1]);
                                assert(rest0[j - 1] == orig.drop_first()[j - 1]);
                                assert(orig.drop_first()[j - 1] == orig[j]);
                            }
                        }
                        (out, found)
                    }
                } else {
                    let first = Node { kind: WidgetKind::If { show }, children };
                    proof {
                        assert(node_wf(first));
                        assert(node_first_element(first) is None);
                        assert(node_first_element(f0) is None);
                    }
                    proof {
                        assert(nodes_first_element(orig) == nodes_first_element(
                            orig.drop_first(),
                        ));
                        assert(nodes_first_index(orig) == 1 + nodes_first_index(
                            orig.drop_first(),
                        ));
                        lemma_first_index_bounds(orig.drop_first());
                    }
                    let (mut rest, found) = position_first(v, rule, storage);
                    let mut out: Vec<Node> = Vec::new();
                    out.push(first);
                    let ghost rest0 = rest@;
                    out.append(&mut rest);
                    proof {
                        assert(out@ =~= seq![first] + rest0);
                        lemma_nodes_cons(first, rest0);
                        lemma_first_cons(first, rest0);
                        assert forall|j: int|
                            nodes_first_index(orig) < j < orig.len() implies out@[j] == orig[j] by {
                            assert(out@[j] == rest0[j - 1]);
                            assert(rest0[j - 1] == orig.drop_first()[j - 1]);
                            assert(orig.drop_first()[j - 1] == orig[j]);
                        }
                    }
                    (out, found)
                }
            },
            WidgetKind::Else { show } => {
                if show {
                    proof {
                        assert(node_first_element(f0) == nodes_first_element(f0.children@));
                    }
                    let (inner_children, found) = position_first(children, copy_rule(&rule), storage);
                    let first = Node { kind: WidgetKind::Else { show }, children: inner_children };
                    proof {
                        assert(node_wf(first));
                        assert(node_first_element(first) == nodes_first_element(
                            inner_children@,
                        ));
                    }
                    if found {
                        let mut out: Vec<Node> = Vec::new();
                        out.push(first);
                        out.append(&mut v);
                        proof {
                            assert(out@ =~= seq![first] + orig.drop_first());
                            lemma_nodes_cons(first, orig.drop_first());
                            lemma_first_cons(first, orig.drop_first());
                            assert(node_first_element(f0) is Some);
                            assert(nodes_first_index(orig) == 0);
                            assert forall|j: int| 0 < j < orig.len() implies out@[j] == orig[j] by {
                                assert(out@[j] == orig.drop_first()[j - 1]);
                            }
                        }
                        (out, true)
                    } else {
                        proof {
                            assert(node_first_element(f0) is None);
                            assert(nodes_first_element(orig) == nodes_first_element(
                                orig.drop_first(),
                            ));
                            assert(nodes_first_index(orig) == 1 + nodes_first_index(
                                orig.drop_first(),
                            ));
                            lemma_first_index_bounds(orig.drop_first());
                        }
                        let (mut rest, found) = position_first(v, rule, storage);
                        let mut out: Vec<Node> = Vec::new();
                        out.push(first);
                        let ghost rest0 = rest@;
                        out.append(&mut rest);
                        proof {
                            assert(out@ =~= seq![first] + rest0);
                            lemma_nodes_cons(first, rest0);
                            lemma_first_cons(first, rest0);
                            assert forall|j: int|
                                nodes_first_index(orig) < j < orig.len() implies out@[j]
                                == orig[j] by {
                                assert(out@[j] == rest0[j - 1]);
                                assert(rest0[j - 1] == orig.drop_first()[j - 1]);
                                assert(orig.drop_first()[j - 1] == orig[j]);
                            }
                        }
                        (out, found)
                    }
                } else {
                    let first = Node { kind: WidgetKind::Else { show }, children };
                    proof {
                        assert(node_wf(first));
                        assert(node_first_element(first) is None);
                        assert(node_first_element(f0) is None);
                    }
                    proof {
                        assert(nodes_first_element(orig) == nodes_first_element(
                            orig.drop_first(),
                        ));
                        assert(nodes_first_index(orig) == 1 + nodes_first_index(
                            orig.drop_first(),
                        ));
                        lemma_first_index_bounds(orig.drop_first());
                    }
                    let (mut rest, found) = position_first(v, rule, storage);
                    let mut out: Vec<Node> = Vec::new();
                    out.push(first);
                    let ghost rest0 = rest@;
                    out.append(&mut rest);
                    proof {
                        assert(out@ =~= seq![first] + rest0);
                        lemma_nodes_cons(first, rest0);
                        lemma_first_cons(first, rest0);
                        assert forall|j: int|
                            nodes_first_index(orig) < j < orig.len() implies out@[j] == orig[j] by {
                            assert(out@[j] == rest0[j - 1]);
                            assert(rest0[j - 1] == orig.drop_first()[j - 1]);
                            assert(orig.drop_first()[j - 1] == orig[j]);
                        }
                    }
                    (out, found)
                }
            },
        }
    }
}

/// A placement rule handed on unchanged to a structural child list.
fn copy_rule(rule: &ChildPlacement) -> (r: ChildPlacement)
    ensures
        r == *rule,
{
    match rule {
        ChildPlacement::At(p) => ChildPlacement::At(*p),
        ChildPlacement::FromPosition(w, inherited, inner_size) => ChildPlacement::FromPosition(
            *w,
            *inherited,
            *inner_size,
        ),
    }
}

} // verus!

use anathema_widgets::attribs::Attributes;
use anathema_widgets::attribs::AttributeStorage;
use anathema_widgets::attribs::CommonVal;
use anathema_widgets::attribs::WidgetId;
use anathema_widgets::constraints::Constraints;
use anathema_widgets::container::Container;
use anathema_widgets::element::Display;
use anathema_widgets::element::Element;
use anathema_widgets::element::Node;
use anathema_widgets::element::Widget;
use anathema_widgets::element::WidgetContainer;
use anathema_widgets::element::WidgetKind;
use anathema_widgets::geometry::Pos;
use anathema_widgets::geometry::Size;
use anathema_widgets::padding::Padding;
use anathema_widgets::position::Placement;
use anathema_widgets::position::Position;
use anathema_widgets::testing::render_frame;
use anathema_widgets::text::Text;
use anathema_widgets::tree::layout_node;
use anathema_widgets::tree::position_node;
use anathema_widgets::tree::LayoutCtx;

fn normalize(s: &str) -> Vec<String> {
    s.lines()
        .map(|l| l.trim())
        .filter(|l| !l.is_empty())
        .map(|l| l.to_string())
        .collect()
}

fn frame_lines(frame: Vec<char>) -> Vec<String> {
    let joined: String = frame.into_iter().collect();
    normalize(&joined)
}

fn element_node(ident: &str, widget: Widget, id: WidgetId, children: Vec<Node>) -> Node {
    Node {
        kind: WidgetKind::Element(Element::new(
            ident,
            WidgetContainer {
                id,
                inner: widget,
                size: Size::new(0, 0),
                pos: Pos::new(0, 0),
                display: Display::Show,
            },
        )),
        children,
    }
}

fn element_of(node: &Node) -> &Element {
    match &node.kind {
        WidgetKind::Element(el) => el,
        _ => panic!("expected an element node"),
    }
}

#[test]
fn container() {
    let expected = "
            ╔══════╗
            ║a     ║
            ║      ║
            ╚══════╝
        ";
    let mut storage = AttributeStorage::new();
    let container_id = storage.add(Attributes::empty());
    let text_id = storage.add(Attributes::empty());
    let child = element_node("text", Widget::Text(Text::new("a")), text_id, vec![]);
    let root = element_node(
        "container",
        Widget::Container(Container::default()),
        container_id,
        vec![child],
    );
    let (frame, _) = render_frame(root, &storage, 6, 2);
    assert_eq!(frame_lines(frame), normalize(expected));
}

#[test]
fn container_size_stays_in_constraints() {
    let mut storage = AttributeStorage::new();
    let mut attrs = Attributes::empty();
    attrs.set("width", CommonVal::Int(3));
    let id = storage.add(attrs);
    let root = element_node("container", Widget::Container(Container::default()), id, vec![]);
    let constraints = Constraints::new(10, 10);
    let ctx = LayoutCtx { attribs: &storage, viewport: constraints };
    let (_, size) = layout_node(root, constraints, &ctx);
    let size = size.unwrap();
    assert_eq!(size, Size::new(3, 0));
    assert!(constraints.contains(size));
}

#[test]
fn container_floors_child_by_min() {
    let mut storage = AttributeStorage::new();
    let mut attrs = Attributes::empty();
    attrs.set("min-width", CommonVal::Int(5));
    attrs.set("min-height", CommonVal::Int(2));
    let id = storage.add(attrs);
    let text_id = storage.add(Attributes::empty());
    let child = element_node("text", Widget::Text(Text::new("hi")), text_id, vec![]);
    let root = element_node(
        "container",
        Widget::Container(Container::default()),
        id,
        vec![child],
    );
    let constraints = Constraints::new(10, 10);
    let ctx = LayoutCtx { attribs: &storage, viewport: constraints };
    let (_, size) = layout_node(root, constraints, &ctx);
    assert_eq!(size.unwrap(), Size::new(5, 2));
}

#[test]
fn padding_adds_to_child_size() {
    let mut storage = AttributeStorage::new();
    let mut attrs = Attributes::empty();
    attrs.set("padding", CommonVal::Int(1));
    attrs.set("padding-left", CommonVal::Int(2));
    let id = storage.add(attrs);
    let text_id = storage.add(Attributes::empty());
    let child = element_node("text", Widget::Text(Text::new("a")), text_id, vec![]);
    let root = element_node("padding", Widget::Padding(Padding::default()), id, vec![child]);
    let constraints = Constraints::new(20, 20);
    let ctx = LayoutCtx { attribs: &storage, viewport: constraints };
    let (root, size) = layout_node(root, constraints, &ctx);
    assert_eq!(size.unwrap(), Size::new(1 + 2 + 1, 1 + 1 + 1));
    let root = position_node(root, Pos::new(0, 0), &storage);
    let child = element_of(&root.children[0]);
    assert_eq!(child.get_pos(), Pos::new(2, 1));
}

#[test]
fn absolute_position_ignores_ancestors() {
    let mut storage = AttributeStorage::new();
    let mut pad_attrs = Attributes::empty();
    pad_attrs.set("padding", CommonVal::Int(5));
    let pad_id = storage.add(pad_attrs);
    let mut pos_attrs = Attributes::empty();
    pos_attrs.set("placement", CommonVal::Str("absolute".to_string()));
    pos_attrs.set("left", CommonVal::Int(2));
    pos_attrs.set("top", CommonVal::Int(3));
    let pos_id = storage.add(pos_attrs);
    let text_id = storage.add(Attributes::empty());
    let text = element_node("text", Widget::Text(Text::new("x")), text_id, vec![]);
    let position = element_node(
        "position",
        Widget::Position(Position::default()),
        pos_id,
        vec![text],
    );
    let root = element_node("padding", Widget::Padding(Padding::default()), pad_id, vec![position]);
    let constraints = Constraints::new(20, 20);
    let ctx = LayoutCtx { attribs: &storage, viewport: constraints };
    let (root, _) = layout_node(root, constraints, &ctx);
    let root = position_node(root, Pos::new(0, 0), &storage);
    let position = element_of(&root.children[0]);
    assert_eq!(position.get_pos(), Pos::new(5, 5));
    let text = element_of(&root.children[0].children[0]);
    assert_eq!(text.get_pos(), Pos::new(2, 3));
}

#[test]
fn relative_position_offsets_from_parent() {
    let mut storage = AttributeStorage::new();
    let mut pad_attrs = Attributes::empty();
    pad_attrs.set("padding", CommonVal::Int(4));
    let pad_id = storage.add(pad_attrs);
    let mut pos_attrs = Attributes::empty();
    pos_attrs.set("left", CommonVal::Int(1));
    pos_attrs.set("top", CommonVal::Int(1));
    let pos_id = storage.add(pos_attrs);
    let text_id = storage.add(Attributes::empty());
    let text = element_node("text", Widget::Text(Text::new("x")), text_id, vec![]);
    let position = element_node(
        "position",
        Widget::Position(Position::default()),
        pos_id,
        vec![text],
    );
    let root = element_node("padding", Widget::Padding(Padding::default()), pad_id, vec![position]);
    let constraints = Constraints::new(20, 20);
    let ctx = LayoutCtx { attribs: &storage, viewport: constraints };
    let (root, _) = layout_node(root, constraints, &ctx);
    let root = position_node(root, Pos::new(0, 0), &storage);
    let text = element_of(&root.children[0].children[0]);
    assert_eq!(text.get_pos(), Pos::new(5, 5));
}

#[test]
fn canvas_layout_takes_max_constraints() {
    let mut storage = AttributeStorage::new();
    let mut attrs = Attributes::empty();
    attrs.set("width", CommonVal::Int(3));
    let id = storage.add(attrs);
    let mut canvas = anathema_widgets::canvas::Canvas::default();
    let size = canvas.layout(&storage, id, Constraints::new(10, 4));
    assert_eq!(size, Size::new(3, 4));
    assert_eq!(canvas.buffer.size, Size::new(3, 4));
}

#[test]
fn placement_try_from_values() {
    let rel = Placement::try_from(&CommonVal::Str("relative".to_string()));
    assert_eq!(rel, Ok(Placement::Relative));
    let abs = Placement::try_from(&CommonVal::Str("absolute".to_string()));
    assert_eq!(abs, Ok(Placement::Absolute));
    assert!(Placement::try_from(&CommonVal::Str("floating".to_string())).is_err());
    assert!(Placement::try_from(&CommonVal::Int(1)).is_err());
}

#[test]
fn constraint_mutators() {
    let mut c = Constraints::new(10, 8);
    c.make_width_tight(4);
    assert_eq!(c.min_width, 4);
    assert_eq!(c.max_width(), 4);
    c.set_min_height(3);
    assert_eq!(c.min_height, 3);
    c.sub_max_height(2);
    assert_eq!(c.max_height(), 6);
    c.sub_max_height(100);
    assert_eq!(c.max_height(), 3);
    assert_eq!(c.max_size(), Size::new(4, 3));
}

#[test]
fn text_layout_clamps() {
    let t = Text::new("hello");
    assert_eq!(t.layout(Constraints::new(10, 10)), Size::new(5, 1));
    assert_eq!(t.layout(Constraints::new(3, 10)), Size::new(3, 1));
}

#[test]
fn element_casts() {
    let mut el = Element::new(
        "canvas",
        WidgetContainer {
            id: WidgetId(0),
            inner: Widget::Canvas(anathema_widgets::canvas::Canvas::default()),
            size: Size::new(0, 0),
            pos: Pos::new(0, 0),
            display: Display::Show,
        },
    );
    assert_eq!(el.id(), WidgetId(0));
    assert!(el.try_to_ref::<anathema_widgets::canvas::Canvas>().is_some());
    assert!(el.try_to_ref::<Container>().is_none());
    {
        let canvas: &mut anathema_widgets::canvas::Canvas =
            el.to::<anathema_widgets::canvas::Canvas>();
        canvas.put(
            'q',
            anathema_widgets::attribs::CanvasAttribs::new(),
            anathema_widgets::geometry::LocalPos::new(0, 0),
        );
    }
    let canvas = el.to_ref::<anathema_widgets::canvas::Canvas>();
    let (c, _) = canvas.get(anathema_widgets::geometry::LocalPos::new(0, 0)).unwrap();
    assert_eq!(*c, 'q');
    assert!(el.try_to::<Container>().is_none());
}

#[test]
fn hidden_element_is_not_painted() {
    let mut storage = AttributeStorage::new();
    let container_id = storage.add(Attributes::empty());
    let text_id = storage.add(Attributes::empty());
    let mut child = element_node("text", Widget::Text(Text::new("a")), text_id, vec![]);
    match &mut child.kind {
        WidgetKind::Element(el) => el.container.display = Display::Hide,
        _ => unreachable!(),
    }
    let root = element_node(
        "container",
        Widget::Container(Container::default()),
        container_id,
        vec![child],
    );
    let (frame, _) = render_frame(root, &storage, 3, 1);
    let lines = frame_lines(frame);
    assert_eq!(lines[1], "║   ║");
}

#[test]
fn conditional_markers_pass_through() {
    let mut storage = AttributeStorage::new();
    let container_id = storage.add(Attributes::empty());
    let text_id = storage.add(Attributes::empty());
    let text = element_node("text", Widget::Text(Text::new("a")), text_id, vec![]);
    let marker = Node { kind: WidgetKind::If { show: true }, children: vec![text] };
    let root = element_node(
        "container",
        Widget::Container(Container::default()),
        container_id,
        vec![marker],
    );
    let (frame, _) = render_frame(root, &storage, 3, 1);
    let lines = frame_lines(frame);
    assert_eq!(lines[1], "║a  ║");
}

#[test]
fn dead_conditional_is_skipped() {
    let mut storage = AttributeStorage::new();
    let container_id = storage.add(Attributes::empty());
    let text_id = storage.add(Attributes::empty());
    let text = element_node("text", Widget::Text(Text::new("a")), text_id, vec![]);
    let marker = Node { kind: WidgetKind::Else { show: false }, children: vec![text] };
    let root = element_node(
        "container",
        Widget::Container(Container::default()),
        container_id,
        vec![marker],
    );
    let (frame, _) = render_frame(root, &storage, 3, 1);
    let lines = frame_lines(frame);
    assert_eq!(lines[1], "║   ║");
}

#[test]
fn floating_widget_paints_in_second_pass() {
    let mut storage = AttributeStorage::new();
    let container_id = storage.add(Attributes::empty());
    let mut pos_attrs = Attributes::empty();
    pos_attrs.set("left", CommonVal::Int(1));
    let pos_id = storage.add(pos_attrs);
    let text_id = storage.add(Attributes::empty());
    let text = element_node("text", Widget::Text(Text::new("z")), text_id, vec![]);
    let position = element_node(
        "position",
        Widget::Position(Position::default()),
        pos_id,
        vec![text],
    );
    let root = element_node(
        "container",
        Widget::Container(Container::default()),
        container_id,
        vec![position],
    );
    let (frame, _) = render_frame(root, &storage, 3, 1);
    let lines = frame_lines(frame);
    assert_eq!(lines[1], "║ z ║");
}

use anathema_widgets::attribs::Attributes;
use anathema_widgets::attribs::AttributeStorage;
use anathema_widgets::attribs::CanvasAttrib;
use anathema_widgets::attribs::CanvasAttribs;
use anathema_widgets::attribs::CommonVal;
use anathema_widgets::attribs::Hex;
use anathema_widgets::canvas::Canvas;
use anathema_widgets::element::Display;
use anathema_widgets::element::Element;
use anathema_widgets::element::Node;
use anathema_widgets::element::Widget;
use anathema_widgets::element::WidgetContainer;
use anathema_widgets::element::WidgetKind;
use anathema_widgets::geometry::LocalPos;
use anathema_widgets::geometry::Pos;
use anathema_widgets::geometry::Size;
use anathema_widgets::slab::Slab;
use anathema_widgets::testing::render_frame;

fn normalize(s: &str) -> Vec<String> {
    s.lines()
        .map(|l| l.trim())
        .filter(|l| !l.is_empty())
        .map(|l| l.to_string())
        .collect()
}

fn frame_lines(frame: Vec<char>) -> Vec<String> {
    let joined: String = frame.into_iter().collect();
    normalize(&joined)
}

fn element_node(ident: &str, widget: Widget, id: usize, children: Vec<Node>) -> Node {
    Node {
        kind: WidgetKind::Element(Element::new(
            ident,
            WidgetContainer {
                id: anathema_widgets::attribs::WidgetId(id),
                inner: widget,
                size: Size::new(0, 0),
                pos: Pos::new(0, 0),
                display: Display::Show,
            },
        )),
        children,
    }
}

#[test]
fn resize_canvas() {
    let expected = "
            ╔══╗
            ║  ║
            ║  ║
            ╚══╝
        ";
    let mut storage = AttributeStorage::new();
    let id = storage.add(Attributes::empty());
    let root = element_node("canvas", Widget::Canvas(Canvas::default()), id.0, vec![]);
    let (frame, _) = render_frame(root, &storage, 2, 2);
    assert_eq!(frame_lines(frame), normalize(expected));
}

#[test]
fn get_set_glyph() {
    let mut canvas = Canvas::default();
    canvas.put('a', CanvasAttribs::new(), LocalPos::new(0, 0));
    let (c, _) = canvas.get(LocalPos::new(0, 0)).unwrap();
    assert_eq!(*c, 'a');
}

#[test]
fn remove_glyph() {
    let mut canvas = Canvas::default();
    canvas.put('a', CanvasAttribs::new(), LocalPos::new(0, 0));
    assert!(canvas.get(LocalPos::new(0, 0)).is_some());
    canvas.erase(LocalPos::new(0, 0));
    assert!(canvas.get(LocalPos::new(0, 0)).is_none());
}

#[test]
fn resize_keeps_in_bounds_content() {
    let mut canvas = Canvas::default();
    canvas.put('a', CanvasAttribs::new(), LocalPos::new(0, 0));
    canvas.put('b', CanvasAttribs::new(), LocalPos::new(3, 1));
    canvas.put('c', CanvasAttribs::new(), LocalPos::new(10, 10));
    canvas.buffer.resize(Size::new(4, 4));
    let (a, _) = canvas.get(LocalPos::new(0, 0)).unwrap();
    assert_eq!(*a, 'a');
    let (b, _) = canvas.get(LocalPos::new(3, 1)).unwrap();
    assert_eq!(*b, 'b');
    assert!(canvas.get(LocalPos::new(10, 10)).is_none());
}

#[test]
fn resize_keeps_attributes() {
    let mut canvas = Canvas::default();
    let mut attribs = CanvasAttribs::new();
    attribs.set("bold", CanvasAttrib::Common(CommonVal::Bool(true)));
    canvas.put('x', attribs, LocalPos::new(1, 2));
    canvas.buffer.resize(Size::new(8, 8));
    let (c, attrs) = canvas.get(LocalPos::new(1, 2)).unwrap();
    assert_eq!(*c, 'x');
    assert!(attrs.get_bool("bold"));
}

#[test]
fn put_overwrites_and_erase_clears() {
    let mut canvas = Canvas::default();
    canvas.put('a', CanvasAttribs::new(), LocalPos::new(2, 2));
    canvas.put('b', CanvasAttribs::new(), LocalPos::new(2, 2));
    let (c, _) = canvas.get(LocalPos::new(2, 2)).unwrap();
    assert_eq!(*c, 'b');
    canvas.erase(LocalPos::new(2, 2));
    assert!(canvas.get(LocalPos::new(2, 2)).is_none());
}

#[test]
fn out_of_bounds_put_is_ignored() {
    let mut canvas = Canvas::default();
    canvas.put('z', CanvasAttribs::new(), LocalPos::new(40, 40));
    assert!(canvas.get(LocalPos::new(40, 40)).is_none());
    canvas.erase(LocalPos::new(40, 40));
}

#[test]
fn slab_reuses_freed_slot() {
    let mut slab: Slab<u32> = Slab::empty();
    assert_eq!(slab.next_id(), 0);
    assert_eq!(slab.insert(10), 0);
    assert_eq!(slab.insert(11), 1);
    assert_eq!(slab.remove(0), 10);
    assert_eq!(slab.next_id(), 0);
    assert_eq!(slab.insert(12), 0);
    assert_eq!(slab.insert(13), 2);
}

#[test]
fn canvas_attribs_typed_getters() {
    let mut attribs = CanvasAttribs::new();
    attribs.set_str("name", "border");
    attribs.set("count", CanvasAttrib::Common(CommonVal::Int(7)));
    attribs.set("on", CanvasAttrib::Common(CommonVal::Bool(true)));
    attribs.set(
        "color",
        CanvasAttrib::Common(CommonVal::Hex(Hex { r: 1, g: 2, b: 3 })),
    );
    assert_eq!(attribs.get_str("name").unwrap(), "border");
    assert_eq!(attribs.get_i64("count"), Some(7));
    assert!(attribs.get_bool("on"));
    assert!(!attribs.get_bool("off"));
    assert_eq!(attribs.get_hex("color"), Some(Hex { r: 1, g: 2, b: 3 }));
    assert_eq!(attribs.get_i64("name"), None);
}

#[test]
fn attribs_last_write_wins() {
    let mut attrs = Attributes::empty();
    attrs.set("k", CommonVal::Int(1));
    let prev = attrs.set("k", CommonVal::Int(2));
    assert!(matches!(prev, Some(CommonVal::Int(1))));
    assert_eq!(attrs.get_int("k"), Some(2));
    assert_eq!(attrs.get_int("missing"), None);
}

#[test]
fn canvas_translate_maps_global_to_local() {
    let mut canvas = Canvas::default();
    canvas.pos = Pos::new(3, 4);
    let local = canvas.translate(Pos::new(5, 9));
    assert_eq!(local, LocalPos::new(2, 5));
}

#[test]
fn attrib_duplicate_is_structural() {
    let v = CanvasAttrib::Common(CommonVal::Str("deep".to_string()));
    let copy = v.duplicate();
    match (v, copy) {
        (CanvasAttrib::Common(CommonVal::Str(a)), CanvasAttrib::Common(CommonVal::Str(b))) => {
            assert_eq!(a, b);
        }
        _ => panic!("duplicate changed the variant"),
    }
}

#[test]
fn attributes_typed_getters() {
    let mut attrs = Attributes::empty();
    attrs.set("title", CommonVal::Str("frame".to_string()));
    attrs.set("on", CommonVal::Bool(true));
    attrs.set("tint", CommonVal::Hex(Hex { r: 9, g: 8, b: 7 }));
    assert_eq!(attrs.get_str("title").unwrap(), "frame");
    assert!(attrs.get_bool("on"));
    assert!(!attrs.get_bool("title"));
    assert_eq!(attrs.get_hex("tint"), Some(Hex { r: 9, g: 8, b: 7 }));
    assert!(matches!(attrs.get("on"), Some(CommonVal::Bool(true))));
}

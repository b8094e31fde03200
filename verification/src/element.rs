use vstd::prelude::*;

use crate::attribs::WidgetId;
use crate::canvas::Canvas;
use crate::container::Container;
use crate::geometry::Pos;
use crate::geometry::Size;
use crate::padding::Padding;
use crate::position::Position;
use crate::text::Text;

verus! {

/// Whether an element takes part in painting.
#[derive(Debug, Clone, Copy, PartialEq, Eq, Structural)]
pub enum Display {
    Show,
    Hide,
    Exclude,
}

/// The closed set of widget kinds an element can carry.
#[derive(Debug)]
pub enum Widget {
    Container(Container),
    Padding(Padding),
    Position(Position),
    Canvas(Canvas),
    Text(Text),
}

impl Widget {
    /// Whether the widget floats: floating widgets are skipped by the normal
    /// paint layer and painted in a later pass of their own.
    pub open spec fn spec_floats(self) -> bool {
        self is Position
    }

    pub fn floats(&self) -> (r: bool)
        ensures
            r == self.spec_floats(),
    {
        match self {
            Widget::Position(p) => p.floats(),
            _ => false,
        }
    }

    /// Canvas buffers must be well formed; other widgets carry no invariant.
    pub open spec fn wf(self) -> bool {
        match self {
            Widget::Canvas(c) => c.wf(),
            _ => true,
        }
    }
}

/// One element of the tree: a widget behind a capability interface, with the
/// size and global position the latest layout and position passes computed.
#[derive(Debug)]
pub struct WidgetContainer {
    pub id: WidgetId,
    pub inner: Widget,
    pub size: Size,
    pub pos: Pos,
    pub display: Display,
}

/// A named element: what the traversal yields to each pass.
#[derive(Debug)]
pub struct Element {
    pub ident: String,
    pub container: WidgetContainer,
}

impl Element {
    pub open spec fn wf(self) -> bool {
        self.container.inner.wf()
    }

    pub fn new(ident: &str, container: WidgetContainer) -> (e: Element)
        ensures
            e.ident@ == ident@,
            e.container == container,
    {
        Element { ident: ident.to_owned(), container }
    }

    /// The attribute-lookup key of this element.
    pub fn id(&self) -> (r: WidgetId)
        ensures
            r == self.container.id,
    {
        self.container.id
    }

    /// The size the last layout pass computed.
    pub fn size(&self) -> (r: Size)
        ensures
            r == self.container.size,
    {
        self.container.size
    }

    /// The global position the last position pass computed.
    pub fn get_pos(&self) -> (r: Pos)
        ensures
            r == self.container.pos,
    {
        self.container.pos
    }

    /// A typed view of the widget, or nothing when it is of another kind.
    pub fn try_to<T: WidgetCast>(&mut self) -> (r: Option<&mut T>)
        ensures
            r is Some <==> T::is_kind(old(self).container.inner),
            match r {
                Some(p) => {
                    &&& *p == T::payload(old(self).container.inner)
                    &&& final(self).container.inner == T::wrap(*final(p))
                    &&& final(self).ident == old(self).ident
                    &&& final(self).container.id == old(self).container.id
                    &&& final(self).container.size == old(self).container.size
                    &&& final(self).container.pos == old(self).container.pos
                    &&& final(self).container.display == old(self).container.display
                },
                None => *final(self) == *old(self),
            },
    {
        T::cast_mut(&mut self.container.inner)
    }

    /// The typed view of the widget; the widget must be of the requested
    /// kind.
    pub fn to<T: WidgetCast>(&mut self) -> (r: &mut T)
        requires
            T::is_kind(old(self).container.inner),
        ensures
            *r == T::payload(old(self).container.inner),
            final(self).container.inner == T::wrap(*final(r)),
            final(self).ident == old(self).ident,
            final(self).container.id == old(self).container.id,
            final(self).container.size == old(self).container.size,
            final(self).container.pos == old(self).container.pos,
            final(self).container.display == old(self).container.display,
    {
        let r = T::cast_mut(&mut self.container.inner);
        match r {
            Some(p) => p,
            None => unreached(),
        }
    }

    /// A shared typed view of the widget, or nothing when it is of another
    /// kind.
    pub fn try_to_ref<T: WidgetCast>(&self) -> (r: Option<&T>)
        ensures
            r is Some <==> T::is_kind(self.container.inner),
            r matches Some(p) ==> *p == T::payload(self.container.inner),
    {
        T::cast_ref(&self.container.inner)
    }

    /// The shared typed view of the widget; the widget must be of the
    /// requested kind.
    pub fn to_ref<T: WidgetCast>(&self) -> (r: &T)
        requires
            T::is_kind(self.container.inner),
        ensures
            *r == T::payload(self.container.inner),
    {
        match T::cast_ref(&self.container.inner) {
            Some(p) => p,
            None => unreached(),
        }
    }
}

/// Checked conversion between the widget union and one widget kind.
pub trait WidgetCast: Sized {
    /// Whether `w` carries this kind.
    spec fn is_kind(w: Widget) -> bool;

    /// The payload, when `w` carries this kind.
    spec fn payload(w: Widget) -> Self
        recommends
            Self::is_kind(w),
    ;

    /// This kind wrapped back into the union.
    spec fn wrap(v: Self) -> Widget;

    fn cast_ref(w: &Widget) -> (r: Option<&Self>)
        ensures
            r is Some <==> Self::is_kind(*w),
            r matches Some(p) ==> *p == Self::payload(*w) && *w == Self::wrap(*p),
    ;

    fn cast_mut(w: &mut Widget) -> (r: Option<&mut Self>)
        ensures
            r is Some <==> Self::is_kind(*old(w)),
            match r {
                Some(p) => *p == Self::payload(*old(w)) && *final(w) == Self::wrap(*final(p)),
                None => *final(w) == *old(w),
            },
    ;
}

impl WidgetCast for Canvas {
    open spec fn is_kind(w: Widget) -> bool {
        w is Canvas
    }

    open spec fn payload(w: Widget) -> Canvas {
        w->Canvas_0
    }

    open spec fn wrap(v: Canvas) -> Widget {
        Widget::Canvas(v)
    }

    fn cast_ref(w: &Widget) -> (r: Option<&Canvas>) {
        match w {
            Widget::Canvas(c) => Some(c),
            _ => None,
        }
    }

    fn cast_mut(w: &mut Widget) -> (r: Option<&mut Canvas>) {
        match w {
            Widget::Canvas(c) => Some(c),
            _ => None,
        }
    }
}

impl WidgetCast for Container {
    open spec fn is_kind(w: Widget) -> bool {
        w is Container
    }

    open spec fn payload(w: Widget) -> Container {
        w->Container_0
    }

    open spec fn wrap(v: Container) -> Widget {
        Widget::Container(v)
    }

    fn cast_ref(w: &Widget) -> (r: Option<&Container>) {
        match w {
            Widget::Container(c) => Some(c),
            _ => None,
        }
    }

    fn cast_mut(w: &mut Widget) -> (r: Option<&mut Container>) {
        match w {
            Widget::Container(c) => Some(c),
            _ => None,
        }
    }
}

impl WidgetCast for Padding {
    open spec fn is_kind(w: Widget) -> bool {
        w is Padding
    }

    open spec fn payload(w: Widget) -> Padding {
        w->Padding_0
    }

    open spec fn wrap(v: Padding) -> Widget {
        Widget::Padding(v)
    }

    fn cast_ref(w: &Widget) -> (r: Option<&Padding>) {
        match w {
            Widget::Padding(p) => Some(p),
            _ => None,
        }
    }

    fn cast_mut(w: &mut Widget) -> (r: Option<&mut Padding>) {
        match w {
            Widget::Padding(p) => Some(p),
            _ => None,
        }
    }
}

impl WidgetCast for Position {
    open spec fn is_kind(w: Widget) -> bool {
        w is Position
    }

    open spec fn payload(w: Widget) -> Position {
        w->Position_0
    }

    open spec fn wrap(v: Position) -> Widget {
        Widget::Position(v)
    }

    fn cast_ref(w: &Widget) -> (r: Option<&Position>) {
        match w {
            Widget::Position(p) => Some(p),
            _ => None,
        }
    }

    fn cast_mut(w: &mut Widget) -> (r: Option<&mut Position>) {
        match w {
            Widget::Position(p) => Some(p),
            _ => None,
        }
    }
}

impl WidgetCast for Text {
    open spec fn is_kind(w: Widget) -> bool {
        w is Text
    }

    open spec fn payload(w: Widget) -> Text {
        w->Text_0
    }

    open spec fn wrap(v: Text) -> Widget {
        Widget::Text(v)
    }

    fn cast_ref(w: &Widget) -> (r: Option<&Text>) {
        match w {
            Widget::Text(t) => Some(t),
            _ => None,
        }
    }

    fn cast_mut(w: &mut Widget) -> (r: Option<&mut Text>) {
        match w {
            Widget::Text(t) => Some(t),
            _ => None,
        }
    }
}

/// A value in the widget tree: an element, or a structural marker from a
/// conditional construct.
#[derive(Debug)]
pub enum WidgetKind {
    Element(Element),
    If { show: bool },
    Else { show: bool },
}

/// One node of the widget tree, owning its ordered children.
#[derive(Debug)]
pub struct Node {
    pub kind: WidgetKind,
    pub children: Vec<Node>,
}

/// All canvas buffers in the subtree are well formed.
pub open spec fn node_wf(n: Node) -> bool
    decreases n,
{
    &&& match n.kind {
        WidgetKind::Element(el) => el.wf(),
        _ => true,
    }
    &&& nodes_wf(n.children@)
}

pub open spec fn nodes_wf(s: Seq<Node>) -> bool
    decreases s,
{
    if s.len() == 0 {
        true
    } else {
        node_wf(s[0]) && nodes_wf(s.drop_first())
    }
}

/// No widget in the subtree floats (no position widget), so every widget's
/// reported size answers to the envelope it received.
pub open spec fn node_no_floats(n: Node) -> bool
    decreases n,
{
    &&& match n.kind {
        WidgetKind::Element(el) => !el.container.inner.spec_floats(),
        _ => true,
    }
    &&& nodes_no_floats(n.children@)
}

pub open spec fn nodes_no_floats(s: Seq<Node>) -> bool
    decreases s,
{
    if s.len() == 0 {
        true
    } else {
        node_no_floats(s[0]) && nodes_no_floats(s.drop_first())
    }
}

/// The first element the single-child traversal yields below a node: the
/// node itself when it is an element, else the first element found inside a
/// live conditional marker.
pub open spec fn node_first_element(n: Node) -> Option<Element>
    decreases n,
{
    match n.kind {
        WidgetKind::Element(el) => Some(el),
        WidgetKind::If { show } => if show {
            nodes_first_element(n.children@)
        } else {
            None
        },
        WidgetKind::Else { show } => if show {
            nodes_first_element(n.children@)
        } else {
            None
        },
    }
}

/// The first element the single-child traversal yields in a child list.
pub open spec fn nodes_first_element(s: Seq<Node>) -> Option<Element>
    decreases s,
{
    if s.len() == 0 {
        None
    } else {
        match node_first_element(s[0]) {
            Some(el) => Some(el),
            None => nodes_first_element(s.drop_first()),
        }
    }
}

/// The index of the first child whose subtree yields an element, or the
/// list's length when none does.
pub open spec fn nodes_first_index(s: Seq<Node>) -> int
    decreases s,
{
    if s.len() == 0 {
        0
    } else if node_first_element(s[0]) is Some {
        0
    } else {
        1 + nodes_first_index(s.drop_first())
    }
}

} // verus!
